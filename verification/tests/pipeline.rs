use bootimage::builder::bootloader::BuildConfig;
use bootimage::builder::disk_image::{
    bootimage_bin_path, grub_cfg_content, mkrescue_command, objcopy_command, padding_for_size,
    BootableImage,
};
use bootimage::builder::error::{BootloaderError, BuildKernelError, CreateBootimageError};
use bootimage::builder::{bootloader_executable, executables_from_lines, kernel_executables,
    single_executable};
use bootimage::cargo_config::{build_target_of, default_target_triple};
use bootimage::metadata::{
    bootloader_package, CargoTarget, Dependency, Package, PackageGraph, ResolveNode,
};
use bootimage::toml_value::TomlValue;

fn strings(v: &[&str]) -> Vec<String> {
    v.iter().map(|s| s.to_string()).collect()
}

fn package(name: &str, manifest: &str, deps: Vec<Dependency>) -> Package {
    Package {
        name: name.to_string(),
        id: format!("{} 0.1.0", name),
        manifest_path: manifest.to_string(),
        dependencies: deps,
        targets: Vec::new(),
    }
}

fn dep(name: &str, rename: Option<&str>) -> Dependency {
    Dependency {
        name: name.to_string(),
        rename: rename.map(|s| s.to_string()),
    }
}

fn bootloader_manifest(target: Option<TomlValue>, binary_feature: bool) -> TomlValue {
    let mut bootloader_table: Vec<(String, TomlValue)> = Vec::new();
    if let Some(t) = target {
        bootloader_table.push(("target".to_string(), t));
    }
    let mut top: Vec<(String, TomlValue)> = vec![(
        "package".to_string(),
        TomlValue::Table(vec![(
            "metadata".to_string(),
            TomlValue::Table(vec![(
                "bootloader".to_string(),
                TomlValue::Table(bootloader_table),
            )]),
        )]),
    )];
    if binary_feature {
        top.push((
            "features".to_string(),
            TomlValue::Table(vec![("binary".to_string(), TomlValue::Array(Vec::new()))]),
        ));
    }
    TomlValue::Table(top)
}

fn graph_with_bootloader() -> PackageGraph {
    PackageGraph {
        packages: vec![
            package(
                "kernel",
                "/work/kernel/Cargo.toml",
                vec![dep("serde", None), dep("bootloader", None)],
            ),
            package("bootloader", "/deps/bootloader/Cargo.toml", Vec::new()),
        ],
        resolve: Some(vec![ResolveNode {
            id: "bootloader 0.1.0".to_string(),
            features: strings(&["default", "vga"]),
        }]),
        target_directory: "/work/target".to_string(),
    }
}

// The kernel declares no dependency named or renamed `bootloader`, so the
// resolver reports exactly that.
#[test]
fn missing_bootloader_dependency_is_reported() {
    let graph = PackageGraph {
        packages: vec![package(
            "kernel",
            "/work/kernel/Cargo.toml",
            vec![dep("serde", None), dep("x86_64", None)],
        )],
        resolve: None,
        target_directory: "/t".to_string(),
    };
    let kernel = &graph.packages[0];
    assert!(matches!(
        bootloader_package(&graph, kernel),
        Err(BootloaderError::BootloaderNotFound)
    ));
}

#[test]
fn renamed_bootloader_dependency_is_found() {
    let graph = PackageGraph {
        packages: vec![
            package(
                "kernel",
                "/work/kernel/Cargo.toml",
                vec![dep("custom-loader", Some("bootloader"))],
            ),
            package("custom-loader", "/deps/custom/Cargo.toml", Vec::new()),
        ],
        resolve: None,
        target_directory: "/t".to_string(),
    };
    let kernel = &graph.packages[0];
    let found = bootloader_package(&graph, kernel).unwrap();
    assert_eq!(found.name, "custom-loader".to_string());
}

// The feature-resolution graph lacks a node for the bootloader package id,
// so the derivation fails naming exactly that node.
#[test]
fn missing_resolve_node_is_reported_by_name() {
    let mut graph = graph_with_bootloader();
    graph.resolve = Some(Vec::new());
    let manifest = bootloader_manifest(Some(TomlValue::Str("t.json".to_string())), false);
    match BuildConfig::from_metadata(&graph, &manifest, "/work/kernel/Cargo.toml", "/k/bin") {
        Err(BootloaderError::CargoMetadataIncomplete { key }) => {
            assert_eq!(key, "resolve[\"bootloader\"]".to_string());
        }
        _ => panic!("expected an incomplete-metadata error"),
    }
}

#[test]
fn missing_resolve_graph_is_reported() {
    let mut graph = graph_with_bootloader();
    graph.resolve = None;
    let manifest = bootloader_manifest(Some(TomlValue::Str("t.json".to_string())), false);
    match BuildConfig::from_metadata(&graph, &manifest, "/work/kernel/Cargo.toml", "/k/bin") {
        Err(BootloaderError::CargoMetadataIncomplete { key }) => {
            assert_eq!(key, "resolve".to_string());
        }
        _ => panic!("expected an incomplete-metadata error"),
    }
}

#[test]
fn unknown_kernel_manifest_is_reported() {
    let graph = graph_with_bootloader();
    let manifest = bootloader_manifest(Some(TomlValue::Str("t.json".to_string())), false);
    match BuildConfig::from_metadata(&graph, &manifest, "/elsewhere/Cargo.toml", "/k/bin") {
        Err(BootloaderError::KernelPackageNotFound { manifest_path }) => {
            assert_eq!(manifest_path, "/elsewhere/Cargo.toml".to_string());
        }
        _ => panic!("expected a kernel-package error"),
    }
}

#[test]
fn missing_target_key_is_a_configuration_error() {
    let graph = graph_with_bootloader();
    let manifest = bootloader_manifest(None, false);
    assert!(matches!(
        BuildConfig::from_metadata(&graph, &manifest, "/work/kernel/Cargo.toml", "/k/bin"),
        Err(BootloaderError::BootloaderInvalid(_))
    ));
    let non_string = bootloader_manifest(Some(TomlValue::Integer(3)), false);
    assert!(matches!(
        BuildConfig::from_metadata(&graph, &non_string, "/work/kernel/Cargo.toml", "/k/bin"),
        Err(BootloaderError::BootloaderInvalid(_))
    ));
}

#[test]
fn build_config_is_derived_from_graph_and_manifest() {
    let graph = graph_with_bootloader();
    let manifest = bootloader_manifest(Some(TomlValue::Str("t.json".to_string())), true);
    let config =
        BuildConfig::from_metadata(&graph, &manifest, "/work/kernel/Cargo.toml", "/k/bin")
            .unwrap();
    assert_eq!(config.manifest_path, "/deps/bootloader/Cargo.toml".to_string());
    assert_eq!(config.bootloader_name, "bootloader".to_string());
    assert_eq!(config.target, "/deps/bootloader/t.json".to_string());
    assert_eq!(config.features, strings(&["default", "vga", "binary"]));
    assert_eq!(config.target_dir, "/work/target/bootimage/bootloader".to_string());
    assert_eq!(config.kernel_bin_path, "/k/bin".to_string());
    assert_eq!(config.kernel_manifest_path, "/work/kernel/Cargo.toml".to_string());
    assert_eq!(config.build_std, None);

    let cmd = config.build_command("cargo");
    assert_eq!(cmd.program, "cargo".to_string());
    assert_eq!(
        cmd.args,
        strings(&[
            "xbuild",
            "--manifest-path",
            "/deps/bootloader/Cargo.toml",
            "--bin",
            "bootloader",
            "--target-dir",
            "/work/target/bootimage/bootloader",
            "--features",
            "default vga binary",
            "--target",
            "/deps/bootloader/t.json",
            "--release",
        ])
    );
    let envs: Vec<(String, String)> = cmd.envs;
    assert_eq!(
        envs,
        vec![
            ("KERNEL".to_string(), "/k/bin".to_string()),
            ("KERNEL_MANIFEST".to_string(), "/work/kernel/Cargo.toml".to_string()),
            ("RUSTFLAGS".to_string(), "".to_string()),
            (
                "XBUILD_SYSROOT_PATH".to_string(),
                "/work/target/bootimage/bootloader/bootloader-sysroot".to_string()
            ),
        ]
    );
}

// A record stream with exactly one executable yields that path unchanged;
// zero or two executables are configuration errors.
#[test]
fn single_executable_requires_exactly_one() {
    match single_executable(Vec::new()) {
        Err(BootloaderError::BootloaderInvalid(m)) => {
            assert_eq!(m, "bootloader has no executable".to_string());
        }
        _ => panic!("expected an error for zero executables"),
    }
    match single_executable(strings(&["/a", "/a"])) {
        Err(BootloaderError::BootloaderInvalid(m)) => {
            assert_eq!(m, "bootloader has multiple executables".to_string());
        }
        _ => panic!("expected an error for two executables"),
    }
    assert_eq!(single_executable(strings(&["/only"])).unwrap(), "/only".to_string());
}

#[test]
fn executables_are_collected_from_record_stream() {
    let lines = strings(&[
        r#"{"reason":"compiler-artifact","executable":"/t/debug/kernel"}"#,
        r#"{"reason":"build-finished","success":true}"#,
        r#"{"reason":"compiler-artifact","executable":"/t/debug/other"}"#,
    ]);
    let executables = executables_from_lines(&lines).unwrap();
    assert_eq!(executables, strings(&["/t/debug/kernel", "/t/debug/other"]));
}

#[test]
fn invalid_json_line_is_an_error() {
    let lines = strings(&["not json at all"]);
    assert!(matches!(
        kernel_executables(&lines),
        Err(BuildKernelError::BuildJsonOutputInvalidJson(_))
    ));
    assert!(matches!(
        bootloader_executable(&lines),
        Err(CreateBootimageError::BuildJsonOutputInvalidJson(_))
    ));
}

#[test]
fn bootloader_executable_from_stream() {
    let lines = strings(&[r#"{"executable":"/t/release/bootloader"}"#]);
    assert_eq!(
        bootloader_executable(&lines).unwrap(),
        "/t/release/bootloader".to_string()
    );
    let none = strings(&[r#"{"reason":"build-finished"}"#]);
    assert!(matches!(
        bootloader_executable(&none),
        Err(CreateBootimageError::Bootloader(BootloaderError::BootloaderInvalid(_)))
    ));
}

// Images are always padded to whole sectors, and padding an aligned image
// changes nothing.
#[test]
fn padding_reaches_the_next_sector_boundary() {
    assert_eq!(padding_for_size(0), 0);
    assert_eq!(padding_for_size(1), 511);
    assert_eq!(padding_for_size(512), 0);
    assert_eq!(padding_for_size(513), 511);
    assert_eq!(padding_for_size(1000), 24);
}

#[test]
fn bootable_image_length_is_block_aligned() {
    let image = BootableImage::from_raw_size("/t/bootimage-kernel.bin".to_string(), 1000);
    assert_eq!(image.len, 1024);
    assert_eq!(image.len % 512, 0);
    let aligned = BootableImage::from_raw_size("/t/b.bin".to_string(), 2048);
    assert_eq!(aligned.len, 2048);
}

#[test]
fn objcopy_invocation_forces_flat_binary() {
    let cmd = objcopy_command("/tools/llvm-objcopy", "/t/elf", "/t/out.bin");
    assert_eq!(cmd.program, "/tools/llvm-objcopy".to_string());
    assert_eq!(
        cmd.args,
        strings(&[
            "-I",
            "elf64-x86-64",
            "-O",
            "binary",
            "--binary-architecture=i386:x86-64",
            "/t/elf",
            "/t/out.bin",
        ])
    );
}

#[test]
fn grub_menu_names_the_binary() {
    let content = grub_cfg_content("my-kernel");
    assert_eq!(
        content,
        "set timeout=0\nset default=0\n\nmenuentry \"my-kernel\" {\n    multiboot2 /boot/kernel.elf\n    boot\n}\n"
            .to_string()
    );
}

#[test]
fn mkrescue_invocation_points_at_the_staging_tree() {
    let cmd = mkrescue_command("/t/out.iso", "/t/isodir");
    assert_eq!(cmd.program, "grub-mkrescue".to_string());
    assert_eq!(cmd.args, strings(&["-o", "/t/out.iso", "/t/isodir"]));
}

#[test]
fn bootimage_path_is_named_after_the_executable() {
    assert_eq!(
        bootimage_bin_path("/t/debug/kernel").unwrap(),
        "/t/debug/bootimage-kernel.bin".to_string()
    );
    assert_eq!(
        bootimage_bin_path("/t/deps/kernel-abc123").unwrap(),
        "/t/deps/bootimage-kernel-abc123.bin".to_string()
    );
    assert!(bootimage_bin_path("kernel").is_none());
}

#[test]
fn default_target_triple_strips_target_files() {
    assert_eq!(default_target_triple("/r", None).unwrap(), None);
    assert_eq!(
        default_target_triple("/r", Some("x86_64-unknown-none".to_string())).unwrap(),
        Some("x86_64-unknown-none".to_string())
    );
    assert_eq!(
        default_target_triple("/r", Some("targets/mykernel.json".to_string())).unwrap(),
        Some("mykernel".to_string())
    );
}

#[test]
fn build_target_is_read_from_cargo_configuration() {
    let config = TomlValue::Table(vec![(
        "build".to_string(),
        TomlValue::Table(vec![(
            "target".to_string(),
            TomlValue::Str("t.json".to_string()),
        )]),
    )]);
    assert_eq!(build_target_of(&config), Some("t.json".to_string()));
    let empty = TomlValue::Table(Vec::new());
    assert_eq!(build_target_of(&empty), None);
}

#[test]
fn test_targets_are_bin_targets_with_test_names() {
    let pkg = Package {
        name: "kernel".to_string(),
        id: "kernel 0.1.0".to_string(),
        manifest_path: "/k/Cargo.toml".to_string(),
        dependencies: Vec::new(),
        targets: vec![
            CargoTarget { name: "kernel".to_string(), kinds: strings(&["bin"]) },
            CargoTarget { name: "test-basic-boot".to_string(), kinds: strings(&["bin"]) },
            CargoTarget { name: "test-panic".to_string(), kinds: strings(&["bin"]) },
            CargoTarget { name: "test-lib".to_string(), kinds: strings(&["lib"]) },
        ],
    };
    assert_eq!(
        pkg.test_target_names(),
        strings(&["test-basic-boot", "test-panic"])
    );
    assert!(pkg.has_bin("kernel"));
    assert!(!pkg.has_bin("test-lib"));
}

#[test]
fn kernel_package_is_found_by_binary_name() {
    let graph = PackageGraph {
        packages: vec![
            Package {
                name: "other".to_string(),
                id: "other 0.1.0".to_string(),
                manifest_path: "/o/Cargo.toml".to_string(),
                dependencies: Vec::new(),
                targets: vec![CargoTarget {
                    name: "other".to_string(),
                    kinds: strings(&["bin"]),
                }],
            },
            Package {
                name: "kernel".to_string(),
                id: "kernel 0.1.0".to_string(),
                manifest_path: "/k/Cargo.toml".to_string(),
                dependencies: Vec::new(),
                targets: vec![CargoTarget {
                    name: "kernel".to_string(),
                    kinds: strings(&["bin"]),
                }],
            },
        ],
        resolve: None,
        target_directory: "/t".to_string(),
    };
    let found = graph.kernel_package_for_bin("kernel").unwrap();
    assert_eq!(found.manifest_path, "/k/Cargo.toml".to_string());
    assert!(graph.kernel_package_for_bin("absent").is_none());
}
