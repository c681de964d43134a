use bootimage::args::{parse_build_args, Command};
use bootimage::builder::disk_image::BootableImage;
use bootimage::config::read_config;
use bootimage::paths::{file_stem, parent};
use bootimage::strutil::{replace_all, trim_prefix_repeated};
use bootimage::toml_value::TomlValue;

fn strings(v: &[&str]) -> Vec<String> {
    v.iter().map(|s| s.to_string()).collect()
}

#[test]
fn dangling_value_flag_still_reaches_cargo() {
    match parse_build_args(strings(&["--bin"])).unwrap() {
        Command::Build(a) => {
            assert_eq!(a.bin_name, None);
            assert_eq!(a.cargo_args, strings(&["--bin"]));
        }
        _ => panic!("expected a build command"),
    }
}

#[test]
fn everything_after_the_separator_goes_to_the_runner() {
    match parse_build_args(strings(&["--", "--help", "--release", "--release"])).unwrap() {
        Command::Build(a) => {
            assert_eq!(a.cargo_args, Vec::<String>::new());
            assert_eq!(a.run_args, strings(&["--help", "--release", "--release"]));
        }
        _ => panic!("expected a build command"),
    }
}

#[test]
fn repeated_prefixes_are_all_trimmed() {
    assert_eq!(trim_prefix_repeated("--bin=--bin=x", "--bin="), "x".to_string());
    assert_eq!(trim_prefix_repeated("abc", "--bin="), "abc".to_string());
    assert_eq!(trim_prefix_repeated("--bin=", "--bin="), "".to_string());
}

#[test]
fn replace_substitutes_every_occurrence() {
    assert_eq!(replace_all("a{}b{}c", "{}", "X"), "aXbXc".to_string());
    assert_eq!(replace_all("{}", "{}", ""), "".to_string());
    assert_eq!(replace_all("plain", "{}", "X"), "plain".to_string());
}

#[test]
fn path_components_follow_the_model() {
    assert_eq!(parent("/a/b/c"), Some("/a/b".to_string()));
    assert_eq!(parent("c"), None);
    assert_eq!(file_stem("/a/b/kernel.bin"), Some("kernel".to_string()));
    assert_eq!(file_stem("/a/b/.hidden"), Some(".hidden".to_string()));
    assert_eq!(file_stem("/a/b/"), None);
    assert_eq!(file_stem("archive.tar.gz"), Some("archive.tar".to_string()));
}

#[test]
fn zero_length_image_is_already_aligned() {
    let image = BootableImage::from_raw_size("/t/b.bin".to_string(), 0);
    assert_eq!(image.len, 0);
    let one = BootableImage::from_raw_size("/t/b.bin".to_string(), 1);
    assert_eq!(one.len, 512);
}

#[test]
fn out_of_range_config_integers_are_rejected() {
    let manifest = TomlValue::Table(vec![(
        "package".to_string(),
        TomlValue::Table(vec![(
            "metadata".to_string(),
            TomlValue::Table(vec![(
                "bootimage".to_string(),
                TomlValue::Table(vec![(
                    "test-timeout".to_string(),
                    TomlValue::Integer(4294967296),
                )]),
            )]),
        )]),
    )]);
    assert!(read_config(&manifest).is_err());
}

#[test]
fn non_table_bootimage_metadata_is_rejected() {
    let manifest = TomlValue::Table(vec![(
        "package".to_string(),
        TomlValue::Table(vec![(
            "metadata".to_string(),
            TomlValue::Table(vec![("bootimage".to_string(), TomlValue::Integer(1))]),
        )]),
    )]);
    assert!(read_config(&manifest).is_err());
}
