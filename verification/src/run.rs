//! Running a disk image under the emulator: command construction, the
//! timeout-bounded test state machine, and the exit-code protocol.
//!
//! The functions here decide; the caller performs. A run is described by a
//! full argument vector, the result of a wait is handed back in as a
//! [`WaitOutcome`], and the decision says what to do with the process and
//! what the run meant.

use crate::config::Config;
use crate::paths;
use crate::strutil;
use crate::strutil::spec_replace;
use crate::ErrorMessage;
use vstd::prelude::*;

verus! {

/// Whether a kernel executable was built as a test: it lies in a `deps`
/// directory, or in a directory whose name marks a documentation test.
pub open spec fn spec_is_test_executable(executable: Seq<char>, parent: Seq<char>) -> bool {
    ||| strutil::spec_starts_with(paths::spec_file_name(parent), "rustdoctest"@)
    ||| parent == "deps"@
    ||| strutil::spec_ends_with(parent, "/"@ + "deps"@)
}

/// Decides whether the executable handed to the runner is a test binary,
/// from its path alone. An executable without a parent directory cannot be
/// judged and is an error.
pub fn is_test_executable(executable: &str) -> (r: Result<bool, ErrorMessage>)
    ensures
        match r {
            Ok(b) => paths::spec_parent(executable@) matches Some(parent) && b
                == spec_is_test_executable(executable@, parent),
            Err(_) => paths::spec_parent(executable@) is None,
        },
{
    let parent = match paths::parent(executable) {
        Some(p) => p,
        None => {
            return Err(ErrorMessage::new("kernel executable has no parent".to_owned()));
        },
    };
    let parent_name = paths::file_name(parent.as_str());
    let is_doctest = strutil::starts_with(parent_name.as_str(), "rustdoctest");
    let in_deps = paths::ends_with_component(parent.as_str(), "deps");
    Ok(is_doctest || in_deps)
}

/// Running the disk image failed.
#[derive(Debug)]
pub enum RunError {
    /// The test did not exit within the configured timeout.
    TestTimedOut,
    /// The emulator terminated without an exit code.
    NoQemuExitCode,
    /// An I/O error occurred.
    Io {
        /// The operation that caused the I/O error.
        context: IoErrorContext,
        /// The I/O error's text.
        error: String,
    },
}

/// The operation during which an I/O error occurred.
#[derive(Debug)]
pub enum IoErrorContext {
    /// The emulator command for a plain run failed.
    QemuRunCommand {
        /// The command that was executed.
        command: String,
    },
    /// The emulator command for a test run failed.
    QemuTestCommand {
        /// The command that was executed.
        command: String,
    },
    /// Waiting for the test with a timeout failed.
    WaitWithTimeout,
    /// Killing the emulator failed.
    KillQemu,
    /// Waiting for the emulator process failed.
    WaitForQemu,
}

/// The classification of one execution.
#[derive(Clone, Copy, Debug)]
pub enum Verdict {
    /// The guest signalled success.
    Success,
    /// The guest signalled some other exit code, preserved verbatim.
    Failure(i32),
    /// The process did not exit within the timeout.
    Timeout,
    /// The process terminated without an exit code.
    NoExitCode,
}

/// What a bounded wait on the emulator process observed.
#[derive(Debug)]
pub enum WaitOutcome {
    /// The process exited, with an exit code if the platform reported one.
    Exited(Option<i32>),
    /// The timeout elapsed first; the process is still running.
    StillRunning,
}

/// What the caller must do with the emulator process.
#[derive(Debug)]
pub enum ProcessAction {
    /// Forcibly terminate the process, then unconditionally wait on it so
    /// that the operating system reclaims it.
    KillThenReap,
    /// Nothing; the process is already gone.
    NoAction,
}

/// The exit code a debug-exit write terminates the emulator with: the guest
/// writes a byte `b` to the debug-exit port and the host process exits with
/// `(b << 1) | 1`.
pub open spec fn spec_host_exit_code(b: u8) -> int {
    2 * b + 1
}

/// The raw host exit code produced when the guest writes `guest_byte` to
/// the debug-exit port.
pub fn host_exit_code(guest_byte: u8) -> (r: u32)
    ensures
        r == spec_host_exit_code(guest_byte),
{
    (guest_byte as u32) * 2 + 1
}

/// One run-command token with the image path substituted for `{}`.
pub open spec fn spec_substituted(arg: Seq<char>, image: Seq<char>) -> Seq<char> {
    spec_replace(arg, "{}"@, image)
}

/// The full argument vector of a run: the run command with the image path
/// substituted, then the mode's extra arguments, then the caller's.
pub open spec fn spec_run_command_line(
    c: Config,
    runner_args: Option<Seq<Seq<char>>>,
    image: Seq<char>,
    is_test: bool,
) -> Seq<Seq<char>> {
    let base = Seq::new(
        c.run_command.deep_view().len(),
        |i: int| spec_substituted(c.run_command.deep_view()[i], image),
    );
    let mode_args = if is_test {
        (if c.test_no_reboot {
            seq!["-no-reboot"@]
        } else {
            Seq::<Seq<char>>::empty()
        }) + (match c.test_args.deep_view() {
            Some(ta) => ta,
            None => Seq::<Seq<char>>::empty(),
        })
    } else {
        match c.run_args.deep_view() {
            Some(ra) => ra,
            None => Seq::<Seq<char>>::empty(),
        }
    };
    let extra = match runner_args {
        Some(e) => e,
        None => Seq::<Seq<char>>::empty(),
    };
    base + mode_args + extra
}

/// Builds the argument vector for running `image_path`, taking the run or
/// test arguments of the configuration and the caller's extra arguments
/// into account.
pub fn run_command_line(
    config: &Config,
    runner_args: &Option<Vec<String>>,
    image_path: &str,
    is_test: bool,
) -> (r: Vec<String>)
    ensures
        r.deep_view() == spec_run_command_line(
            *config,
            runner_args.deep_view(),
            image_path@,
            is_test,
        ),
{
    let ghost base = Seq::new(
        config.run_command.deep_view().len(),
        |i: int| spec_substituted(config.run_command.deep_view()[i], image_path@),
    );
    let mut cmd: Vec<String> = Vec::new();
    let mut i: usize = 0;
    while i < config.run_command.len()
        invariant
            base == Seq::new(
                config.run_command.deep_view().len(),
                |j: int| spec_substituted(config.run_command.deep_view()[j], image_path@),
            ),
            i <= config.run_command.len(),
            cmd.deep_view() =~= base.subrange(0, i as int),
        decreases config.run_command.len() - i,
    {
        let ghost prev = cmd.deep_view();
        proof {
            reveal_strlit("{}");
        }
        let substituted = strutil::replace_all(config.run_command[i].as_str(), "{}", image_path);
        let ghost sv = substituted@;
        cmd.push(substituted);
        proof {
            assert(cmd.deep_view() =~~= prev.push(sv));
            assert(prev.push(sv) =~~= base.subrange(0, i + 1));
        }
        i += 1;
    }
    proof {
        assert(cmd.deep_view() =~~= base);
    }
    if is_test {
        if config.test_no_reboot {
            let ghost prev = cmd.deep_view();
            cmd.push("-no-reboot".to_owned());
            proof {
                assert(cmd.deep_view() =~~= prev.push("-no-reboot"@));
            }
        }
        if let Some(test_args) = &config.test_args {
            strutil::append_strings(&mut cmd, test_args);
        }
    } else {
        if let Some(run_args) = &config.run_args {
            strutil::append_strings(&mut cmd, run_args);
        }
    }
    if let Some(extra) = runner_args {
        strutil::append_strings(&mut cmd, extra);
    }
    proof {
        assert(cmd.deep_view() =~~= spec_run_command_line(
            *config,
            runner_args.deep_view(),
            image_path@,
            is_test,
        ));
    }
    cmd
}

/// The process exit status of a test run whose emulator exited with
/// `qemu_exit_code`: a configured success code maps to a clean zero, a raw
/// zero in the presence of a configured code cannot mean success and maps
/// to one, and every other code is preserved verbatim.
pub open spec fn spec_test_exit_code(qemu_exit_code: i32, success: Option<i32>) -> i32 {
    match success {
        Some(code) => if qemu_exit_code == code {
            0i32
        } else if qemu_exit_code == 0 {
            1i32
        } else {
            qemu_exit_code
        },
        None => qemu_exit_code,
    }
}

/// Maps the emulator's raw exit code of a test run to the harness's own
/// process exit status.
pub fn test_exit_code(qemu_exit_code: i32, test_success_exit_code: Option<i32>) -> (r: i32)
    ensures
        r == spec_test_exit_code(qemu_exit_code, test_success_exit_code),
{
    match test_success_exit_code {
        Some(code) => {
            if qemu_exit_code == code {
                0
            } else if qemu_exit_code == 0 {
                1
            } else {
                qemu_exit_code
            }
        },
        None => qemu_exit_code,
    }
}

/// The verdict of an exited test run: no exit code means the platform
/// reported signal termination; the configured success code means success;
/// any other code is a failure carrying the raw code.
pub open spec fn spec_decode_verdict(exit_code: Option<i32>, success_code: i32) -> Verdict {
    match exit_code {
        None => Verdict::NoExitCode,
        Some(c) => if c == success_code {
            Verdict::Success
        } else {
            Verdict::Failure(c)
        },
    }
}

/// Decodes the debug-exit protocol: a raw code equal to the configured
/// success code is a success, any other code is a failure preserved
/// verbatim, and a missing code is its own verdict.
pub fn decode_verdict(exit_code: Option<i32>, success_code: i32) -> (v: Verdict)
    ensures
        v == spec_decode_verdict(exit_code, success_code),
{
    match exit_code {
        None => Verdict::NoExitCode,
        Some(c) => {
            if c == success_code {
                Verdict::Success
            } else {
                Verdict::Failure(c)
            }
        },
    }
}

/// Decides a test run from the outcome of the bounded wait. An elapsed
/// timeout demands that the process be killed and then reaped, whatever
/// else happens, and the run is a timeout; an exit is decoded into the
/// harness's exit status, with a missing exit code its own error.
pub fn test_run_outcome(outcome: &WaitOutcome, test_success_exit_code: Option<i32>) -> (r: (
    ProcessAction,
    Result<i32, RunError>,
))
    ensures
        *outcome is StillRunning ==> r.0 is KillThenReap && r.1 matches Err(
            RunError::TestTimedOut,
        ),
        *outcome matches WaitOutcome::Exited(None) ==> r.0 is NoAction && r.1 matches Err(
            RunError::NoQemuExitCode,
        ),
        *outcome matches WaitOutcome::Exited(Some(q)) ==> {
            &&& r.0 is NoAction
            &&& r.1 matches Ok(c)
            &&& c == spec_test_exit_code(q, test_success_exit_code)
        },
{
    match outcome {
        WaitOutcome::StillRunning => (ProcessAction::KillThenReap, Err(RunError::TestTimedOut)),
        WaitOutcome::Exited(None) => (ProcessAction::NoAction, Err(RunError::NoQemuExitCode)),
        WaitOutcome::Exited(Some(q)) => (
            ProcessAction::NoAction,
            Ok(test_exit_code(*q, test_success_exit_code)),
        ),
    }
}

/// The exit status of a plain, unbounded run: the command's own exit code,
/// or one if the platform reported none. A plain run is never killed by the
/// harness; it has no timeout at all.
pub fn plain_run_exit_code(status_code: Option<i32>) -> (r: i32)
    ensures
        status_code matches Some(c) ==> r == c,
        status_code is None ==> r == 1,
{
    match status_code {
        Some(c) => c,
        None => 1,
    }
}

} // verus!
