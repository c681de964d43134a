use bootimage::args::{parse_args, parse_build_args, Args, Command};
use bootimage::args::runner::RunnerCommand;
use bootimage::config::read_config;
use bootimage::toml_value::TomlValue;

fn strings(v: &[&str]) -> Vec<String> {
    v.iter().map(|s| s.to_string()).collect()
}

#[test]
fn build_args_collects_cargo_and_run_args() {
    let cmd = parse_build_args(strings(&[
        "--bin", "foo", "extra", "--release", "--", "run1", "run2",
    ]))
    .unwrap();
    match cmd {
        Command::Build(a) => {
            assert_eq!(a.cargo_args, strings(&["--bin", "foo", "extra", "--release"]));
            assert_eq!(a.run_args, strings(&["run1", "run2"]));
            assert_eq!(a.bin_name, Some("foo".to_string()));
            assert!(a.release);
            assert!(!a.quiet);
            assert_eq!(a.target, None);
            assert_eq!(a.manifest_path, None);
        }
        _ => panic!("expected a build command"),
    }
}

#[test]
fn build_args_equals_form_is_trimmed() {
    let cmd = parse_build_args(strings(&["--bin=foo", "--target=bar.json", "--quiet"])).unwrap();
    match cmd {
        Command::Build(a) => {
            assert_eq!(a.bin_name, Some("foo".to_string()));
            assert_eq!(a.target, Some("bar.json".to_string()));
            assert!(a.quiet);
            assert_eq!(a.cargo_args, strings(&["--bin=foo", "--target=bar.json"]));
        }
        _ => panic!("expected a build command"),
    }
}

#[test]
fn build_args_duplicate_flag_is_an_error() {
    assert!(parse_build_args(strings(&["--release", "--release"])).is_err());
    assert!(parse_build_args(strings(&["--bin", "a", "--bin=b"])).is_err());
}

#[test]
fn build_args_help_and_version_cut_the_scan_short() {
    assert!(matches!(
        parse_build_args(strings(&["--help", "--release", "--release"])).unwrap(),
        Command::BuildHelp
    ));
    assert!(matches!(
        parse_build_args(strings(&["-h"])).unwrap(),
        Command::BuildHelp
    ));
    assert!(matches!(
        parse_build_args(strings(&["--version"])).unwrap(),
        Command::Version
    ));
}

#[test]
fn build_args_manifest_path_takes_the_next_token() {
    let cmd = parse_build_args(strings(&["--manifest-path", "k/Cargo.toml"])).unwrap();
    match cmd {
        Command::Build(a) => {
            assert_eq!(a.manifest_path, Some("k/Cargo.toml".to_string()));
            assert_eq!(a.cargo_args, strings(&["--manifest-path", "k/Cargo.toml"]));
        }
        _ => panic!("expected a build command"),
    }
}

#[test]
fn parse_args_dispatches_subcommands() {
    assert!(matches!(
        parse_args(strings(&["bootimage"])).unwrap(),
        Command::NoSubcommand
    ));
    assert!(matches!(
        parse_args(strings(&["bootimage", "--help"])).unwrap(),
        Command::Help
    ));
    assert!(matches!(
        parse_args(strings(&["bootimage", "--version"])).unwrap(),
        Command::Version
    ));
    assert!(matches!(
        parse_args(strings(&["bootimage", "frobnicate"])).unwrap(),
        Command::NoSubcommand
    ));
    match parse_args(strings(&["bootimage", "run", "--quiet"])).unwrap() {
        Command::Run(a) => assert!(a.quiet),
        _ => panic!("expected a run command"),
    }
    assert!(matches!(
        parse_args(strings(&["cargo-bootimage", "bootimage", "--help"])).unwrap(),
        Command::CargoBootimageHelp
    ));
    assert!(matches!(
        parse_args(strings(&["bootimage", "bootimage", "--help"])).unwrap(),
        Command::NoSubcommand
    ));
    assert!(parse_args(strings(&[])).is_err());
}

#[test]
fn parse_args_test_refuses_bin_selection() {
    assert!(parse_args(strings(&["bootimage", "test", "--bin", "x"])).is_err());
    assert!(matches!(
        parse_args(strings(&["bootimage", "test"])).unwrap(),
        Command::Test(_)
    ));
}

#[test]
fn runner_args_split_at_the_executable() {
    match RunnerCommand::parse_args(strings(&["--quiet", "/p/exe", "a", "b"])).unwrap() {
        RunnerCommand::Runner(ra) => {
            assert_eq!(ra.executable, "/p/exe".to_string());
            assert!(ra.quiet);
            assert_eq!(ra.runner_args, Some(strings(&["a", "b"])));
        }
        _ => panic!("expected a runner command"),
    }
    match RunnerCommand::parse_args(strings(&["/p/exe"])).unwrap() {
        RunnerCommand::Runner(ra) => {
            assert!(!ra.quiet);
            assert_eq!(ra.runner_args, None);
        }
        _ => panic!("expected a runner command"),
    }
    assert!(RunnerCommand::parse_args(strings(&["--quiet"])).is_err());
    assert!(matches!(
        RunnerCommand::parse_args(strings(&["--help"])).unwrap(),
        RunnerCommand::Help
    ));
    assert!(matches!(
        RunnerCommand::parse_args(strings(&["--version"])).unwrap(),
        RunnerCommand::Version
    ));
}

fn manifest_with(entries: Vec<(String, TomlValue)>) -> TomlValue {
    TomlValue::Table(vec![(
        "package".to_string(),
        TomlValue::Table(vec![(
            "metadata".to_string(),
            TomlValue::Table(vec![("bootimage".to_string(), TomlValue::Table(entries))]),
        )]),
    )])
}

#[test]
fn read_config_defaults() {
    let manifest = TomlValue::Table(vec![(
        "package".to_string(),
        TomlValue::Table(vec![("name".to_string(), TomlValue::Str("k".to_string()))]),
    )]);
    let config = read_config(&manifest).unwrap();
    assert_eq!(config.build_command, vec!["build".to_string()]);
    assert_eq!(
        config.run_command,
        vec![
            "qemu-system-x86_64".to_string(),
            "-drive".to_string(),
            "format=raw,file={}".to_string(),
        ]
    );
    assert_eq!(config.run_args, None);
    assert_eq!(config.test_args, None);
    assert_eq!(config.test_timeout, 300);
    assert_eq!(config.test_success_exit_code, None);
    assert!(config.test_no_reboot);
}

#[test]
fn read_config_records_recognised_keys() {
    let manifest = manifest_with(vec![
        ("test-timeout".to_string(), TomlValue::Integer(60)),
        ("test-success-exit-code".to_string(), TomlValue::Integer(33)),
        ("test-no-reboot".to_string(), TomlValue::Boolean(false)),
        (
            "run-args".to_string(),
            TomlValue::Array(vec![TomlValue::Str("-serial".to_string())]),
        ),
        (
            "build-command".to_string(),
            TomlValue::Array(vec![TomlValue::Str("xbuild".to_string())]),
        ),
    ]);
    let config = read_config(&manifest).unwrap();
    assert_eq!(config.test_timeout, 60);
    assert_eq!(config.test_success_exit_code, Some(33));
    assert!(!config.test_no_reboot);
    assert_eq!(config.run_args, Some(vec!["-serial".to_string()]));
    assert_eq!(config.build_command, vec!["xbuild".to_string()]);
}

#[test]
fn read_config_rejects_bad_entries() {
    let negative = manifest_with(vec![("test-timeout".to_string(), TomlValue::Integer(-1))]);
    assert!(read_config(&negative).is_err());
    let unknown = manifest_with(vec![("no-such-key".to_string(), TomlValue::Boolean(true))]);
    assert!(read_config(&unknown).is_err());
    let wrong_type = manifest_with(vec![("run-command".to_string(), TomlValue::Integer(1))]);
    assert!(read_config(&wrong_type).is_err());
    let bad_array = manifest_with(vec![(
        "test-args".to_string(),
        TomlValue::Array(vec![TomlValue::Integer(1)]),
    )]);
    assert!(read_config(&bad_array).is_err());
}

#[test]
fn toml_lookup_takes_the_first_entry() {
    let table = TomlValue::Table(vec![
        ("k".to_string(), TomlValue::Integer(1)),
        ("k".to_string(), TomlValue::Integer(2)),
    ]);
    assert_eq!(table.get("k").unwrap().as_integer(), Some(1));
    assert!(table.get("missing").is_none());
    assert!(TomlValue::Integer(3).get("k").is_none());
}
