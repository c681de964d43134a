use bootimage::config::Config;
use bootimage::run::{
    decode_verdict, host_exit_code, is_test_executable, plain_run_exit_code, run_command_line,
    test_exit_code, test_run_outcome, ProcessAction, RunError, Verdict, WaitOutcome,
};
use bootimage::suite::{failure_excerpt, handle_exit_status, TestReport, TestResult};
use bootimage::tester::{tester_command_args, tester_manifest_content};

fn strings(v: &[&str]) -> Vec<String> {
    v.iter().map(|s| s.to_string()).collect()
}

fn config() -> Config {
    Config {
        build_command: strings(&["build"]),
        run_command: strings(&["qemu-system-x86_64", "-drive", "format=raw,file={}"]),
        run_args: Some(strings(&["-ra"])),
        test_args: Some(strings(&["-device", "isa-debug-exit"])),
        test_timeout: 300,
        test_success_exit_code: Some(33),
        test_no_reboot: true,
    }
}

#[test]
fn run_command_substitutes_the_image_path() {
    let cmd = run_command_line(&config(), &None, "/t/bootimage-kernel.bin", false);
    assert_eq!(
        cmd,
        strings(&[
            "qemu-system-x86_64",
            "-drive",
            "format=raw,file=/t/bootimage-kernel.bin",
            "-ra",
        ])
    );
}

#[test]
fn test_command_adds_no_reboot_and_test_args() {
    let cmd = run_command_line(&config(), &Some(strings(&["-extra"])), "img.bin", true);
    assert_eq!(
        cmd,
        strings(&[
            "qemu-system-x86_64",
            "-drive",
            "format=raw,file=img.bin",
            "-no-reboot",
            "-device",
            "isa-debug-exit",
            "-extra",
        ])
    );
    let mut no_reboot_off = config();
    no_reboot_off.test_no_reboot = false;
    let cmd = run_command_line(&no_reboot_off, &None, "img.bin", true);
    assert_eq!(
        cmd,
        strings(&[
            "qemu-system-x86_64",
            "-drive",
            "format=raw,file=img.bin",
            "-device",
            "isa-debug-exit",
        ])
    );
}

// The debug-exit protocol: the guest byte b terminates the emulator with
// (b << 1) | 1, and the configured success code selects the Success verdict.
#[test]
fn debug_exit_codes_decode_to_verdicts() {
    assert_eq!(host_exit_code(0x10), 33);
    assert_eq!(host_exit_code(0x11), 35);
    assert!(matches!(decode_verdict(Some(33), 33), Verdict::Success));
    assert!(matches!(decode_verdict(Some(35), 33), Verdict::Failure(35)));
    assert!(matches!(decode_verdict(Some(0), 33), Verdict::Failure(0)));
    assert!(matches!(decode_verdict(None, 33), Verdict::NoExitCode));
}

#[test]
fn test_exit_codes_map_success_to_zero() {
    assert_eq!(test_exit_code(33, Some(33)), 0);
    assert_eq!(test_exit_code(0, Some(33)), 1);
    assert_eq!(test_exit_code(35, Some(33)), 35);
    assert_eq!(test_exit_code(7, None), 7);
}

// A timeout demands a kill followed by an unconditional reap, and the run
// counts as timed out; a clean exit demands nothing of the process.
#[test]
fn timeout_requires_kill_and_reap() {
    let (action, result) = test_run_outcome(&WaitOutcome::StillRunning, Some(33));
    assert!(matches!(action, ProcessAction::KillThenReap));
    assert!(matches!(result, Err(RunError::TestTimedOut)));

    let (action, result) = test_run_outcome(&WaitOutcome::Exited(Some(33)), Some(33));
    assert!(matches!(action, ProcessAction::NoAction));
    assert_eq!(result.unwrap(), 0);

    let (action, result) = test_run_outcome(&WaitOutcome::Exited(None), Some(33));
    assert!(matches!(action, ProcessAction::NoAction));
    assert!(matches!(result, Err(RunError::NoQemuExitCode)));
}

#[test]
fn plain_runs_return_the_raw_status() {
    assert_eq!(plain_run_exit_code(Some(3)), 3);
    assert_eq!(plain_run_exit_code(Some(0)), 0);
    assert_eq!(plain_run_exit_code(None), 1);
}

#[test]
fn test_binaries_are_recognised_by_their_directory() {
    assert_eq!(is_test_executable("/t/debug/deps/foo-abc").unwrap(), true);
    assert_eq!(is_test_executable("/t/debug/foo").unwrap(), false);
    assert_eq!(
        is_test_executable("/t/rustdoctest12345/rust_out").unwrap(),
        true
    );
    assert!(is_test_executable("foo").is_err());
}

// A suite of three tests where only `b` times out: the report enumerates
// exactly `b`, the overall status is non-zero, and the verdicts of `a` and
// `c` are untouched.
#[test]
fn one_timeout_fails_the_suite_without_hiding_the_rest() {
    let mut report = TestReport::new();
    report.insert("a".to_string(), Verdict::Success);
    report.insert("b".to_string(), Verdict::Timeout);
    report.insert("c".to_string(), Verdict::Success);
    assert!(!report.overall_success());
    assert_eq!(report.exit_code(), 1);
    let failing = report.failing();
    assert_eq!(failing.len(), 1);
    assert_eq!(failing[0].0, "b".to_string());
    assert!(matches!(failing[0].1, Verdict::Timeout));
    assert!(matches!(report.entries[0].1, Verdict::Success));
    assert!(matches!(report.entries[2].1, Verdict::Success));
}

#[test]
fn all_successes_make_a_clean_suite() {
    let mut report = TestReport::new();
    report.insert("a".to_string(), Verdict::Success);
    report.insert("b".to_string(), Verdict::Success);
    assert!(report.overall_success());
    assert_eq!(report.exit_code(), 0);
    assert!(report.failing().is_empty());
    assert!(report.contains_name("a"));
    assert!(!report.contains_name("z"));
}

#[test]
fn every_failing_entry_is_enumerated() {
    let mut report = TestReport::new();
    report.insert("a".to_string(), Verdict::Failure(35));
    report.insert("b".to_string(), Verdict::Success);
    report.insert("c".to_string(), Verdict::NoExitCode);
    let failing = report.failing();
    assert_eq!(failing.len(), 2);
    assert_eq!(failing[0].0, "a".to_string());
    assert!(matches!(failing[0].1, Verdict::Failure(35)));
    assert_eq!(failing[1].0, "c".to_string());
    assert!(matches!(failing[1].1, Verdict::NoExitCode));
}

#[test]
fn suite_exit_status_classification() {
    assert!(matches!(handle_exit_status(None, ""), TestResult::Invalid));
    assert!(matches!(
        handle_exit_status(Some(1), "ok\nall good"),
        TestResult::Passed
    ));
    assert!(matches!(
        handle_exit_status(Some(1), "failed\nboom"),
        TestResult::Failed
    ));
    assert!(matches!(
        handle_exit_status(Some(1), "garbage"),
        TestResult::Invalid
    ));
    assert!(matches!(handle_exit_status(Some(5), ""), TestResult::Passed));
    assert!(matches!(handle_exit_status(Some(7), ""), TestResult::Failed));
    assert!(matches!(handle_exit_status(Some(9), ""), TestResult::Invalid));
}

#[test]
fn failure_excerpt_returns_text_after_the_marker() {
    assert_eq!(
        failure_excerpt("some output\nfailed\nassertion at line 3\n"),
        Some("assertion at line 3\n".to_string())
    );
    assert_eq!(failure_excerpt("all fine\n"), None);
    assert_eq!(failure_excerpt("failed\n"), Some("".to_string()));
}

#[test]
fn tester_manifest_wraps_the_test_file() {
    let content = tester_manifest_content("test-basic", "/k/tests/basic.rs", "[dependencies]");
    let expected = "[package]\nauthors = [\"Bootimage Tester <bootimage@example.com>\"]\nname = \"test-basic\"\nversion = \"0.0.0\"\nedition = \"2018\"\n\n[workspace]\n\n[[bin]]\nname = \"bootimage-tester-test-basic\"\npath = \"/k/tests/basic.rs\"\n\n[dependencies]\n";
    assert_eq!(content, expected.to_string());
}

#[test]
fn tester_command_substitutes_both_placeholders() {
    let cmd = tester_command_args(
        &strings(&["qemu", "format=raw,file={bootimage}", "file:{output_file}"]),
        "/t/b.bin",
        "/t/out.txt",
    );
    assert_eq!(
        cmd,
        strings(&["qemu", "format=raw,file=/t/b.bin", "file:/t/out.txt"])
    );
}
