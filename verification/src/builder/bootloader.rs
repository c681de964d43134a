//! Deriving the bootloader's build configuration.
//!
//! The bootloader is built against a specific kernel binary. Its compilation
//! parameters come from three places: the package graph (which package is
//! the bootloader, and with which resolved features), the bootloader's own
//! manifest (its compilation target and optional build-std specification),
//! and the kernel build (binary and manifest paths, handed to the bootloader
//! through environment variables).

use crate::builder::error::BootloaderError;
use crate::command::CommandLine;
use crate::metadata::{
    spec_bootloader_dependency, spec_package_by_manifest, spec_package_by_name, spec_resolve_node,
    Dependency, Package, PackageGraph,
};
use crate::paths;
use crate::paths::spec_parent;
use crate::strutil;
use crate::toml_value::{spec_get, TomlValue};
use vstd::prelude::*;

verus! {

/// The compilation parameters for building the bootloader against a
/// specific kernel binary.
#[derive(Debug)]
pub struct BuildConfig {
    /// The path of the bootloader's manifest.
    pub manifest_path: String,
    /// The bootloader package's name.
    pub bootloader_name: String,
    /// The path of the compilation target description.
    pub target: String,
    /// The features to enable, in resolution order.
    pub features: Vec<String>,
    /// The target directory namespaced to this bootloader.
    pub target_dir: String,
    /// The path of the kernel binary to embed.
    pub kernel_bin_path: String,
    /// The path of the kernel's manifest.
    pub kernel_manifest_path: String,
    /// The build-std specification, if the bootloader declares one.
    pub build_std: Option<String>,
}

/// The package of `g` whose manifest path is `kernel_manifest_path`.
pub open spec fn spec_kernel_package(g: PackageGraph, kernel_manifest_path: Seq<char>) -> Option<
    Package,
> {
    spec_package_by_manifest(g.packages@, kernel_manifest_path)
}

/// The kernel package's dependency with effective name `bootloader`.
pub open spec fn spec_bootloader_dep(g: PackageGraph, kernel_manifest_path: Seq<char>) -> Option<
    Dependency,
> {
    match spec_kernel_package(g, kernel_manifest_path) {
        Some(kp) => spec_bootloader_dependency(kp.dependencies@),
        None => None,
    }
}

/// The package record of the kernel's bootloader dependency.
pub open spec fn spec_bootloader_pkg(g: PackageGraph, kernel_manifest_path: Seq<char>) -> Option<
    Package,
> {
    match spec_bootloader_dep(g, kernel_manifest_path) {
        Some(d) => spec_package_by_name(g.packages@, d.name@),
        None => None,
    }
}

/// The `package.metadata.bootloader` table of a manifest, if present.
pub open spec fn spec_bootloader_table(m: TomlValue) -> Option<TomlValue> {
    match spec_get(m, "package"@) {
        Some(p) => match spec_get(p, "metadata"@) {
            Some(md) => spec_get(md, "bootloader"@),
            None => None,
        },
        None => None,
    }
}

/// The `target` entry of the bootloader metadata table, if present.
pub open spec fn spec_target_value(m: TomlValue) -> Option<TomlValue> {
    match spec_bootloader_table(m) {
        Some(t) => spec_get(t, "target"@),
        None => None,
    }
}

/// The target path string of the bootloader manifest: present and a string.
pub open spec fn spec_target_str(m: TomlValue) -> Option<Seq<char>> {
    match spec_target_value(m) {
        Some(TomlValue::Str(s)) => Some(s@),
        _ => None,
    }
}

/// The `build-std` entry of the bootloader metadata table, if present.
pub open spec fn spec_build_std_value(m: TomlValue) -> Option<TomlValue> {
    match spec_bootloader_table(m) {
        Some(t) => spec_get(t, "build-std"@),
        None => None,
    }
}

/// The `build-std` entry is either absent or a string.
pub open spec fn spec_build_std_ok(m: TomlValue) -> bool {
    match spec_build_std_value(m) {
        None => true,
        Some(v) => v is Str,
    }
}

/// Whether the bootloader manifest declares an optional feature named
/// `binary`.
pub open spec fn spec_binary_feature(m: TomlValue) -> bool {
    match spec_get(m, "features"@) {
        Some(f) => spec_get(f, "binary"@) is Some,
        None => false,
    }
}

impl BuildConfig {
    /// Derives the bootloader build configuration from the project's package
    /// graph and the bootloader's parsed manifest.
    pub fn from_metadata(
        project_metadata: &PackageGraph,
        bootloader_manifest: &TomlValue,
        kernel_manifest_path: &str,
        kernel_bin_path: &str,
    ) -> (r: Result<BuildConfig, BootloaderError>)
        ensures
            match r {
                Ok(c) => {
                    &&& spec_bootloader_pkg(*project_metadata, kernel_manifest_path@)
                        matches Some(bp)
                    &&& spec_parent(bp.manifest_path@) matches Some(root)
                    &&& spec_target_str(*bootloader_manifest) matches Some(t)
                    &&& spec_build_std_ok(*bootloader_manifest)
                    &&& project_metadata.resolve matches Some(nodes)
                    &&& spec_resolve_node(nodes@, bp.id@) matches Some(node)
                    &&& c.manifest_path@ == bp.manifest_path@
                    &&& c.bootloader_name@ == bp.name@
                    &&& c.target@ == root + "/"@ + t
                    &&& c.features.deep_view() == node.features.deep_view() + (
                    if spec_binary_feature(*bootloader_manifest) {
                        seq!["binary"@]
                    } else {
                        Seq::<Seq<char>>::empty()
                    })
                    &&& c.target_dir@ == project_metadata.target_directory@ + "/"@ + "bootimage"@
                        + "/"@ + bp.name@
                    &&& c.kernel_manifest_path@ == (spec_kernel_package(
                        *project_metadata,
                        kernel_manifest_path@,
                    )->Some_0).manifest_path@
                    &&& c.kernel_bin_path@ == kernel_bin_path@
                    &&& match spec_build_std_value(*bootloader_manifest) {
                        None => c.build_std is None,
                        Some(v) => {
                            &&& v matches TomlValue::Str(s)
                            &&& c.build_std matches Some(cs)
                            &&& cs@ == s@
                        },
                    }
                },
                Err(e) => match e {
                    BootloaderError::KernelPackageNotFound { manifest_path } => {
                        &&& spec_kernel_package(*project_metadata, kernel_manifest_path@) is None
                        &&& manifest_path@ == kernel_manifest_path@
                    },
                    BootloaderError::BootloaderNotFound => {
                        &&& spec_kernel_package(*project_metadata, kernel_manifest_path@) is Some
                        &&& spec_bootloader_dep(*project_metadata, kernel_manifest_path@) is None
                    },
                    BootloaderError::CargoMetadataIncomplete { key } => {
                        ||| {
                            &&& spec_bootloader_dep(*project_metadata, kernel_manifest_path@)
                                matches Some(d)
                            &&& spec_package_by_name(project_metadata.packages@, d.name@) is None
                            &&& key@ == "packages[name = `"@ + d.name@
                        }
                        ||| {
                            &&& spec_bootloader_pkg(*project_metadata, kernel_manifest_path@)
                                matches Some(bp)
                            &&& spec_parent(bp.manifest_path@) is Some
                            &&& spec_target_str(*bootloader_manifest) is Some
                            &&& spec_build_std_ok(*bootloader_manifest)
                            &&& {
                                ||| {
                                    &&& project_metadata.resolve is None
                                    &&& key@ == "resolve"@
                                }
                                ||| {
                                    &&& project_metadata.resolve matches Some(nodes)
                                    &&& spec_resolve_node(nodes@, bp.id@) is None
                                    &&& key@ == "resolve[\""@ + bp.name@ + "\"]"@
                                }
                            }
                        }
                    },
                    BootloaderError::BootloaderInvalid(_) => {
                        &&& spec_bootloader_pkg(*project_metadata, kernel_manifest_path@)
                            matches Some(bp)
                        &&& {
                            ||| spec_parent(bp.manifest_path@) is None
                            ||| {
                                &&& spec_parent(bp.manifest_path@) is Some
                                &&& spec_target_str(*bootloader_manifest) is None
                            }
                            ||| {
                                &&& spec_parent(bp.manifest_path@) is Some
                                &&& spec_target_str(*bootloader_manifest) is Some
                                &&& !spec_build_std_ok(*bootloader_manifest)
                            }
                        }
                    },
                },
            },
    {
        let kernel_pkg = match project_metadata.package_by_manifest(kernel_manifest_path) {
            Some(p) => p,
            None => {
                return Err(
                    BootloaderError::KernelPackageNotFound {
                        manifest_path: kernel_manifest_path.to_owned(),
                    },
                );
            },
        };

        let bootloader_pkg = match crate::metadata::bootloader_package(
            project_metadata,
            kernel_pkg,
        ) {
            Ok(p) => p,
            Err(e) => {
                return Err(e);
            },
        };

        let bootloader_root = match paths::parent(bootloader_pkg.manifest_path.as_str()) {
            Some(d) => d,
            None => {
                return Err(
                    BootloaderError::BootloaderInvalid(
                        "bootloader manifest has no target directory".to_owned(),
                    ),
                );
            },
        };

        let metadata_table: Option<&TomlValue> = match bootloader_manifest.get("package") {
            Some(p) => match p.get("metadata") {
                Some(md) => md.get("bootloader"),
                None => None,
            },
            None => None,
        };

        let target_value: Option<&TomlValue> = match metadata_table {
            Some(t) => t.get("target"),
            None => None,
        };
        let target_str: &String = match target_value {
            Some(v) => match v.as_str() {
                Some(s) => s,
                None => {
                    return Err(
                        BootloaderError::BootloaderInvalid(
                            "No `package.metadata.bootloader.target` key found in Cargo.toml of bootloader".to_owned(),
                        ),
                    );
                },
            },
            None => {
                return Err(
                    BootloaderError::BootloaderInvalid(
                        "No `package.metadata.bootloader.target` key found in Cargo.toml of bootloader".to_owned(),
                    ),
                );
            },
        };

        let build_std_value: Option<&TomlValue> = match metadata_table {
            Some(t) => t.get("build-std"),
            None => None,
        };
        let build_std: Option<String> = match build_std_value {
            Some(v) => match v.as_str() {
                Some(s) => Some(s.clone()),
                None => {
                    return Err(
                        BootloaderError::BootloaderInvalid(
                            "A non-string `package.metadata.bootloader.build-std` key found in Cargo.toml of bootloader".to_owned(),
                        ),
                    );
                },
            },
            None => None,
        };

        let binary_feature = match bootloader_manifest.get("features") {
            Some(f) => match f.get("binary") {
                Some(_) => true,
                None => false,
            },
            None => false,
        };

        if project_metadata.resolve.is_none() {
            return Err(BootloaderError::CargoMetadataIncomplete { key: "resolve".to_owned() });
        }
        let bootloader_resolve = match project_metadata.resolve_node(bootloader_pkg.id.as_str()) {
            Some(n) => n,
            None => {
                let key = strutil::concat3("resolve[\"", bootloader_pkg.name.as_str(), "\"]");
                return Err(BootloaderError::CargoMetadataIncomplete { key });
            },
        };

        let ghost base_features = bootloader_resolve.features.deep_view();
        let mut features = strutil::clone_strings(&bootloader_resolve.features);
        if binary_feature {
            features.push("binary".to_owned());
            proof {
                assert(features.deep_view() =~~= base_features + seq!["binary"@]);
            }
        } else {
            proof {
                assert(features.deep_view() =~~= base_features + Seq::<Seq<char>>::empty());
            }
        }

        let target_dir = paths::path_join(
            paths::path_join(project_metadata.target_directory.as_str(), "bootimage").as_str(),
            bootloader_pkg.name.as_str(),
        );

        Ok(
            BuildConfig {
                manifest_path: bootloader_pkg.manifest_path.clone(),
                target: paths::path_join(bootloader_root.as_str(), target_str.as_str()),
                features,
                bootloader_name: bootloader_pkg.name.clone(),
                target_dir,
                kernel_manifest_path: kernel_pkg.manifest_path.clone(),
                kernel_bin_path: kernel_bin_path.to_owned(),
                build_std,
            },
        )
    }

    /// The arguments of the bootloader build command derived from `c`.
    pub open spec fn spec_build_args(c: BuildConfig) -> Seq<Seq<char>> {
        (match c.build_std {
            Some(bs) => seq!["build"@, "-Zbuild-std="@ + bs@],
            None => seq!["xbuild"@],
        }) + seq![
            "--manifest-path"@,
            c.manifest_path@,
            "--bin"@,
            c.bootloader_name@,
            "--target-dir"@,
            c.target_dir@,
            "--features"@,
            strutil::spec_join(c.features.deep_view(), " "@),
            "--target"@,
            c.target@,
            "--release"@,
        ]
    }

    /// The environment of the bootloader build command derived from `c`:
    /// the kernel's binary and manifest paths, cleared compiler flags, and
    /// an isolated sysroot cache under the bootloader's target directory.
    pub open spec fn spec_build_envs(c: BuildConfig) -> Seq<(Seq<char>, Seq<char>)> {
        seq![
            ("KERNEL"@, c.kernel_bin_path@),
            ("KERNEL_MANIFEST"@, c.kernel_manifest_path@),
            ("RUSTFLAGS"@, ""@),
            ("XBUILD_SYSROOT_PATH"@, c.target_dir@ + "/"@ + "bootloader-sysroot"@),
        ]
    }

    /// The build command for compiling the bootloader, to be run with the
    /// given cargo executable.
    pub fn build_command(&self, cargo: &str) -> (r: CommandLine)
        ensures
            r.program@ == cargo@,
            r.args.deep_view() == Self::spec_build_args(*self),
            r.envs.deep_view() == Self::spec_build_envs(*self),
    {
        let mut cmd = CommandLine::new(cargo.to_owned());
        match &self.build_std {
            Some(bs) => {
                cmd.arg("build".to_owned());
                cmd.arg(strutil::concat2("-Zbuild-std=", bs.as_str()));
            },
            None => {
                cmd.arg("xbuild".to_owned());
            },
        }
        cmd.arg("--manifest-path".to_owned());
        cmd.arg(self.manifest_path.clone());
        cmd.arg("--bin".to_owned());
        cmd.arg(self.bootloader_name.clone());
        cmd.arg("--target-dir".to_owned());
        cmd.arg(self.target_dir.clone());
        cmd.arg("--features".to_owned());
        cmd.arg(strutil::join(&self.features, " "));
        cmd.arg("--target".to_owned());
        cmd.arg(self.target.clone());
        cmd.arg("--release".to_owned());
        cmd.env("KERNEL".to_owned(), self.kernel_bin_path.clone());
        cmd.env("KERNEL_MANIFEST".to_owned(), self.kernel_manifest_path.clone());
        cmd.env("RUSTFLAGS".to_owned(), "".to_owned());
        cmd.env(
            "XBUILD_SYSROOT_PATH".to_owned(),
            paths::path_join(self.target_dir.as_str(), "bootloader-sysroot"),
        );
        proof {
            assert(cmd.args.deep_view() =~~= Self::spec_build_args(*self));
            assert(cmd.envs.deep_view() =~~= Self::spec_build_envs(*self));
        }
        cmd
    }
}

} // verus!
