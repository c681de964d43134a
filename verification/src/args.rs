//! Parsing the tool's command line.
//!
//! The first token selects the subcommand; the build subcommands share one
//! argument grammar that separates cargo-bound arguments from runner-bound
//! ones at `--` and records a handful of recognised flags on the way.

use crate::strutil;
use crate::strutil::{spec_ends_with, spec_starts_with, spec_trim_prefix};
use crate::ErrorMessage;
use vstd::prelude::*;

/// Parsing for the standalone runner subcommand.
pub mod runner;

verus! {

/// One invocation of the tool.
#[derive(Debug)]
pub enum Command {
    /// Build the kernel and its image.
    Build(Args),
    /// Build, then run the image.
    Run(Args),
    /// Build and run all test targets.
    Test(Args),
    /// Act as a cargo runner for one kernel executable.
    Runner(RunnerArgs),
    /// Show the general help text.
    Help,
    /// Show the build subcommand's help text.
    BuildHelp,
    /// Show the cargo-integration help text.
    CargoBootimageHelp,
    /// Show the run subcommand's help text.
    RunHelp,
    /// Show the test subcommand's help text.
    TestHelp,
    /// Show the runner subcommand's help text.
    RunnerHelp,
    /// Show the version.
    Version,
    /// No recognised subcommand was given.
    NoSubcommand,
}

/// Arguments of the build, run and test subcommands.
#[derive(Clone, Debug)]
pub struct Args {
    /// All arguments that are passed on to cargo.
    pub cargo_args: Vec<String>,
    /// All arguments that are passed on to the runner.
    pub run_args: Vec<String>,
    /// Suppress any output to stdout.
    pub quiet: bool,
    /// The manifest path, also present in `cargo_args`.
    pub manifest_path: Option<String>,
    /// The name of the selected binary, also present in `cargo_args`.
    pub bin_name: Option<String>,
    /// The target triple or path, also present in `cargo_args`.
    pub target: Option<String>,
    /// The release flag, also present in `cargo_args`.
    pub release: bool,
}

/// Arguments of the runner subcommand.
#[derive(Clone, Debug)]
pub struct RunnerArgs {
    /// The path of the kernel executable to run.
    pub executable: String,
    /// Suppress any output to stdout.
    pub quiet: bool,
    /// Additional arguments passed to the runner.
    pub runner_args: Option<Vec<String>>,
}

/// The state the build-argument grammar threads from token to token.
pub ghost struct BuildState {
    /// The recorded manifest path.
    pub manifest_path: Option<Seq<char>>,
    /// The recorded binary name.
    pub bin_name: Option<Seq<char>>,
    /// The recorded target.
    pub target: Option<Seq<char>>,
    /// The recorded release flag.
    pub release: Option<bool>,
    /// The arguments collected for cargo.
    pub cargo_args: Seq<Seq<char>>,
    /// The arguments collected for the runner.
    pub run_args: Seq<Seq<char>>,
    /// Whether `--` has been seen.
    pub run_args_started: bool,
    /// Whether `--quiet` has been seen.
    pub quiet: bool,
}

/// What parsing the build arguments yields.
pub ghost enum BuildParse {
    /// A help flag cut the scan short.
    Help,
    /// A version flag cut the scan short.
    Version,
    /// The scan consumed every token.
    Done(BuildState),
    /// A flag that may be given once was given twice.
    Duplicate,
}

/// The state before any token is read.
pub open spec fn spec_init_build_state() -> BuildState {
    BuildState {
        manifest_path: None,
        bin_name: None,
        target: None,
        release: None,
        cargo_args: Seq::empty(),
        run_args: Seq::empty(),
        run_args_started: false,
        quiet: false,
    }
}

/// The build-argument grammar, one token at a time. After `--` every token
/// is a runner argument. A flag that takes a value consumes the following
/// token; recognised flags that were already recorded are duplicates. Every
/// unrecognised token goes to cargo.
pub open spec fn spec_parse_build(args: Seq<Seq<char>>, st: BuildState) -> BuildParse
    decreases args.len(),
{
    if args.len() == 0 {
        BuildParse::Done(st)
    } else {
        let arg = args[0];
        let rest = args.skip(1);
        if st.run_args_started {
            spec_parse_build(rest, BuildState { run_args: st.run_args.push(arg), ..st })
        } else if arg == "--help"@ || arg == "-h"@ {
            BuildParse::Help
        } else if arg == "--version"@ {
            BuildParse::Version
        } else if arg == "--quiet"@ {
            spec_parse_build(rest, BuildState { quiet: true, ..st })
        } else if arg == "--bin"@ {
            if st.bin_name is Some {
                BuildParse::Duplicate
            } else if rest.len() == 0 {
                spec_parse_build(
                    rest,
                    BuildState { bin_name: None, cargo_args: st.cargo_args.push(arg), ..st },
                )
            } else {
                spec_parse_build(
                    rest.skip(1),
                    BuildState {
                        bin_name: Some(rest[0]),
                        cargo_args: st.cargo_args.push(arg).push(rest[0]),
                        ..st
                    },
                )
            }
        } else if spec_starts_with(arg, "--bin="@) {
            if st.bin_name is Some {
                BuildParse::Duplicate
            } else {
                spec_parse_build(
                    rest,
                    BuildState {
                        bin_name: Some(spec_trim_prefix(arg, "--bin="@)),
                        cargo_args: st.cargo_args.push(arg),
                        ..st
                    },
                )
            }
        } else if arg == "--target"@ {
            if st.target is Some {
                BuildParse::Duplicate
            } else if rest.len() == 0 {
                spec_parse_build(
                    rest,
                    BuildState { target: None, cargo_args: st.cargo_args.push(arg), ..st },
                )
            } else {
                spec_parse_build(
                    rest.skip(1),
                    BuildState {
                        target: Some(rest[0]),
                        cargo_args: st.cargo_args.push(arg).push(rest[0]),
                        ..st
                    },
                )
            }
        } else if spec_starts_with(arg, "--target="@) {
            if st.target is Some {
                BuildParse::Duplicate
            } else {
                spec_parse_build(
                    rest,
                    BuildState {
                        target: Some(spec_trim_prefix(arg, "--target="@)),
                        cargo_args: st.cargo_args.push(arg),
                        ..st
                    },
                )
            }
        } else if arg == "--manifest-path"@ {
            if st.manifest_path is Some {
                BuildParse::Duplicate
            } else if rest.len() == 0 {
                spec_parse_build(
                    rest,
                    BuildState { manifest_path: None, cargo_args: st.cargo_args.push(arg), ..st },
                )
            } else {
                spec_parse_build(
                    rest.skip(1),
                    BuildState {
                        manifest_path: Some(rest[0]),
                        cargo_args: st.cargo_args.push(arg).push(rest[0]),
                        ..st
                    },
                )
            }
        } else if spec_starts_with(arg, "--manifest-path="@) {
            if st.manifest_path is Some {
                BuildParse::Duplicate
            } else {
                spec_parse_build(
                    rest,
                    BuildState {
                        manifest_path: Some(spec_trim_prefix(arg, "--manifest-path="@)),
                        cargo_args: st.cargo_args.push(arg),
                        ..st
                    },
                )
            }
        } else if arg == "--release"@ {
            if st.release is Some {
                BuildParse::Duplicate
            } else {
                spec_parse_build(
                    rest,
                    BuildState { release: Some(true), cargo_args: st.cargo_args.push(arg), ..st },
                )
            }
        } else if arg == "--"@ {
            spec_parse_build(rest, BuildState { run_args_started: true, ..st })
        } else {
            spec_parse_build(rest, BuildState { cargo_args: st.cargo_args.push(arg), ..st })
        }
    }
}

/// The record `a` holds exactly what the scan state `st` collected, with an
/// unset release flag defaulting to off.
pub open spec fn spec_args_record(a: Args, st: BuildState) -> bool {
    &&& a.cargo_args.deep_view() == st.cargo_args
    &&& a.run_args.deep_view() == st.run_args
    &&& a.quiet == st.quiet
    &&& a.manifest_path.deep_view() == st.manifest_path
    &&& a.bin_name.deep_view() == st.bin_name
    &&& a.target.deep_view() == st.target
    &&& a.release == (st.release matches Some(true))
}

/// The view of the scan state held in the parser's locals.
pub open spec fn spec_state(
    manifest_path: Option<String>,
    bin_name: Option<String>,
    target: Option<String>,
    release: Option<bool>,
    cargo_args: Vec<String>,
    run_args: Vec<String>,
    run_args_started: bool,
    quiet: bool,
) -> BuildState {
    BuildState {
        manifest_path: manifest_path.deep_view(),
        bin_name: bin_name.deep_view(),
        target: target.deep_view(),
        release,
        cargo_args: cargo_args.deep_view(),
        run_args: run_args.deep_view(),
        run_args_started,
        quiet,
    }
}

/// Parses the arguments of the build, run and test subcommands.
pub fn parse_build_args(args: Vec<String>) -> (r: Result<Command, ErrorMessage>)
    ensures
        match r {
            Ok(cmd) => match spec_parse_build(args.deep_view(), spec_init_build_state()) {
                BuildParse::Help => cmd is BuildHelp,
                BuildParse::Version => cmd is Version,
                BuildParse::Done(st) => cmd matches Command::Build(a) && spec_args_record(a, st),
                BuildParse::Duplicate => false,
            },
            Err(_) => spec_parse_build(args.deep_view(), spec_init_build_state())
                is Duplicate,
        },
{
    let ghost all = args.deep_view();
    let mut manifest_path: Option<String> = None;
    let mut bin_name: Option<String> = None;
    let mut target: Option<String> = None;
    let mut release: Option<bool> = None;
    let mut cargo_args: Vec<String> = Vec::new();
    let mut run_args: Vec<String> = Vec::new();
    let mut run_args_started = false;
    let mut quiet = false;
    let mut i: usize = 0;
    proof {
        assert(all.skip(0) =~= all);
        assert(cargo_args.deep_view() =~= Seq::<Seq<char>>::empty());
        assert(run_args.deep_view() =~= Seq::<Seq<char>>::empty());
    }
    while i < args.len()
        invariant
            all == args.deep_view(),
            i <= args.len(),
            spec_parse_build(all, spec_init_build_state()) == spec_parse_build(
                all.skip(i as int),
                spec_state(
                    manifest_path,
                    bin_name,
                    target,
                    release,
                    cargo_args,
                    run_args,
                    run_args_started,
                    quiet,
                ),
            ),
        decreases args.len() - i,
    {
        let ghost rest = all.skip(i as int);
        let ghost st = spec_state(
            manifest_path,
            bin_name,
            target,
            release,
            cargo_args,
            run_args,
            run_args_started,
            quiet,
        );
        proof {
            assert(rest[0] == all[i as int]);
            assert(rest.skip(1) =~= all.skip(i + 1));
        }
        if run_args_started {
            let ghost prev = run_args.deep_view();
            run_args.push(args[i].clone());
            proof {
                assert(run_args.deep_view() =~~= prev.push(all[i as int]));
            }
            i += 1;
        } else if strutil::str_eq(args[i].as_str(), "--help") || strutil::str_eq(
            args[i].as_str(),
            "-h",
        ) {
            return Ok(Command::BuildHelp);
        } else if strutil::str_eq(args[i].as_str(), "--version") {
            return Ok(Command::Version);
        } else if strutil::str_eq(args[i].as_str(), "--quiet") {
            quiet = true;
            i += 1;
        } else if strutil::str_eq(args[i].as_str(), "--bin") {
            if bin_name.is_some() {
                return Err(ErrorMessage::new("multiple arguments of same type provided".to_owned()));
            }
            let ghost prev = cargo_args.deep_view();
            if i + 1 < args.len() {
                bin_name = Some(args[i + 1].clone());
                cargo_args.push(args[i].clone());
                cargo_args.push(args[i + 1].clone());
                proof {
                    assert(rest.skip(1).skip(1) =~= all.skip(i + 2));
                    assert(cargo_args.deep_view() =~~= prev.push(all[i as int]).push(
                        all[i + 1],
                    ));
                }
                i += 2;
            } else {
                cargo_args.push(args[i].clone());
                proof {
                    assert(cargo_args.deep_view() =~~= prev.push(all[i as int]));
                }
                i += 1;
            }
        } else if strutil::starts_with(args[i].as_str(), "--bin=") {
            if bin_name.is_some() {
                return Err(ErrorMessage::new("multiple arguments of same type provided".to_owned()));
            }
            let ghost prev = cargo_args.deep_view();
            proof {
                reveal_strlit("--bin=");
            }
            bin_name = Some(strutil::trim_prefix_repeated(args[i].as_str(), "--bin="));
            cargo_args.push(args[i].clone());
            proof {
                assert(cargo_args.deep_view() =~~= prev.push(all[i as int]));
            }
            i += 1;
        } else if strutil::str_eq(args[i].as_str(), "--target") {
            if target.is_some() {
                return Err(ErrorMessage::new("multiple arguments of same type provided".to_owned()));
            }
            let ghost prev = cargo_args.deep_view();
            if i + 1 < args.len() {
                target = Some(args[i + 1].clone());
                cargo_args.push(args[i].clone());
                cargo_args.push(args[i + 1].clone());
                proof {
                    assert(rest.skip(1).skip(1) =~= all.skip(i + 2));
                    assert(cargo_args.deep_view() =~~= prev.push(all[i as int]).push(
                        all[i + 1],
                    ));
                }
                i += 2;
            } else {
                cargo_args.push(args[i].clone());
                proof {
                    assert(cargo_args.deep_view() =~~= prev.push(all[i as int]));
                }
                i += 1;
            }
        } else if strutil::starts_with(args[i].as_str(), "--target=") {
            if target.is_some() {
                return Err(ErrorMessage::new("multiple arguments of same type provided".to_owned()));
            }
            let ghost prev = cargo_args.deep_view();
            proof {
                reveal_strlit("--target=");
            }
            target = Some(strutil::trim_prefix_repeated(args[i].as_str(), "--target="));
            cargo_args.push(args[i].clone());
            proof {
                assert(cargo_args.deep_view() =~~= prev.push(all[i as int]));
            }
            i += 1;
        } else if strutil::str_eq(args[i].as_str(), "--manifest-path") {
            if manifest_path.is_some() {
                return Err(ErrorMessage::new("multiple arguments of same type provided".to_owned()));
            }
            let ghost prev = cargo_args.deep_view();
            if i + 1 < args.len() {
                manifest_path = Some(args[i + 1].clone());
                cargo_args.push(args[i].clone());
                cargo_args.push(args[i + 1].clone());
                proof {
                    assert(rest.skip(1).skip(1) =~= all.skip(i + 2));
                    assert(cargo_args.deep_view() =~~= prev.push(all[i as int]).push(
                        all[i + 1],
                    ));
                }
                i += 2;
            } else {
                cargo_args.push(args[i].clone());
                proof {
                    assert(cargo_args.deep_view() =~~= prev.push(all[i as int]));
                }
                i += 1;
            }
        } else if strutil::starts_with(args[i].as_str(), "--manifest-path=") {
            if manifest_path.is_some() {
                return Err(ErrorMessage::new("multiple arguments of same type provided".to_owned()));
            }
            let ghost prev = cargo_args.deep_view();
            proof {
                reveal_strlit("--manifest-path=");
            }
            manifest_path = Some(
                strutil::trim_prefix_repeated(args[i].as_str(), "--manifest-path="),
            );
            cargo_args.push(args[i].clone());
            proof {
                assert(cargo_args.deep_view() =~~= prev.push(all[i as int]));
            }
            i += 1;
        } else if strutil::str_eq(args[i].as_str(), "--release") {
            if release.is_some() {
                return Err(ErrorMessage::new("multiple arguments of same type provided".to_owned()));
            }
            let ghost prev = cargo_args.deep_view();
            release = Some(true);
            cargo_args.push(args[i].clone());
            proof {
                assert(cargo_args.deep_view() =~~= prev.push(all[i as int]));
            }
            i += 1;
        } else if strutil::str_eq(args[i].as_str(), "--") {
            run_args_started = true;
            i += 1;
        } else {
            let ghost prev = cargo_args.deep_view();
            cargo_args.push(args[i].clone());
            proof {
                assert(cargo_args.deep_view() =~~= prev.push(all[i as int]));
            }
            i += 1;
        }
    }
    proof {
        assert(all.skip(all.len() as int) =~= Seq::<Seq<char>>::empty());
    }
    let release_flag = match release {
        Some(b) => b,
        None => false,
    };
    Ok(
        Command::Build(
            Args {
                cargo_args,
                run_args,
                quiet,
                manifest_path,
                bin_name,
                target,
                release: release_flag,
            },
        ),
    )
}

/// Whether the first token after the executable name selects the shared
/// build grammar, given the executable's own name.
pub open spec fn spec_buildish(exe: Seq<char>, first: Seq<char>) -> bool {
    ||| first == "build"@
    ||| (first == "bootimage"@ && spec_ends_with(exe, "cargo-bootimage"@))
    ||| first == "run"@
    ||| first == "test"@
}

/// Parses a full command line, executable name first. The subcommand token
/// selects the grammar; the build, run and test subcommands share one, with
/// the test subcommand refusing a binary selection, since every test target
/// is built.
pub fn parse_args(args: Vec<String>) -> (r: Result<Command, ErrorMessage>)
    ensures
        ({
            let a = args.deep_view();
            match r {
                Ok(cmd) => {
                    &&& a.len() >= 1
                    &&& if a.len() == 1 {
                        cmd is NoSubcommand
                    } else {
                        let exe = a[0];
                        let first = a[1];
                        let tail = a.skip(2);
                        if first == "build"@ {
                            match spec_parse_build(tail, spec_init_build_state()) {
                                BuildParse::Help => cmd is BuildHelp,
                                BuildParse::Version => cmd is Version,
                                BuildParse::Done(st) => cmd matches Command::Build(b)
                                    && spec_args_record(b, st),
                                BuildParse::Duplicate => false,
                            }
                        } else if first == "bootimage"@ && spec_ends_with(
                            exe,
                            "cargo-bootimage"@,
                        ) {
                            match spec_parse_build(tail, spec_init_build_state()) {
                                BuildParse::Help => cmd is CargoBootimageHelp,
                                BuildParse::Version => cmd is Version,
                                BuildParse::Done(st) => cmd matches Command::Build(b)
                                    && spec_args_record(b, st),
                                BuildParse::Duplicate => false,
                            }
                        } else if first == "run"@ {
                            match spec_parse_build(tail, spec_init_build_state()) {
                                BuildParse::Help => cmd is RunHelp,
                                BuildParse::Version => cmd is Version,
                                BuildParse::Done(st) => cmd matches Command::Run(b)
                                    && spec_args_record(b, st),
                                BuildParse::Duplicate => false,
                            }
                        } else if first == "test"@ {
                            match spec_parse_build(tail, spec_init_build_state()) {
                                BuildParse::Help => cmd is TestHelp,
                                BuildParse::Version => cmd is Version,
                                BuildParse::Done(st) => {
                                    &&& st.bin_name is None
                                    &&& cmd matches Command::Test(b)
                                    &&& spec_args_record(b, st)
                                },
                                BuildParse::Duplicate => false,
                            }
                        } else if first == "runner"@ {
                            match runner::spec_parse_runner(tail, false) {
                                runner::RunnerParse::Help => cmd is RunnerHelp,
                                runner::RunnerParse::Version => cmd is Version,
                                runner::RunnerParse::Done(exe_path, quiet, runner_args) => {
                                    &&& exe_path matches Some(e)
                                    &&& cmd matches Command::Runner(ra)
                                    &&& ra.executable@ == e
                                    &&& ra.quiet == quiet
                                    &&& ra.runner_args.deep_view() == runner_args
                                },
                            }
                        } else if first == "--help"@ || first == "-h"@ {
                            cmd is Help
                        } else if first == "--version"@ {
                            cmd is Version
                        } else {
                            cmd is NoSubcommand
                        }
                    }
                },
                Err(_) => {
                    ||| a.len() == 0
                    ||| (a.len() >= 2 && {
                        let exe = a[0];
                        let first = a[1];
                        let tail = a.skip(2);
                        ||| (spec_buildish(exe, first) && spec_parse_build(
                            tail,
                            spec_init_build_state(),
                        ) is Duplicate)
                        ||| {
                            &&& first == "test"@
                            &&& spec_parse_build(tail, spec_init_build_state())
                                matches BuildParse::Done(st)
                            &&& st.bin_name is Some
                        }
                        ||| {
                            &&& first == "runner"@
                            &&& runner::spec_parse_runner(tail, false)
                                matches runner::RunnerParse::Done(e, _, _)
                            &&& e is None
                        }
                    })
                },
            }
        }),
{
    if args.len() == 0 {
        return Err(ErrorMessage::new("no first argument (executable name)".to_owned()));
    }
    if args.len() == 1 {
        return Ok(Command::NoSubcommand);
    }
    let tail = strutil::suffix_from(&args, 2);
    if strutil::str_eq(args[1].as_str(), "build") {
        parse_build_args(tail)
    } else if strutil::str_eq(args[1].as_str(), "bootimage") && strutil::ends_with(
        args[0].as_str(),
        "cargo-bootimage",
    ) {
        match parse_build_args(tail) {
            Ok(Command::BuildHelp) => Ok(Command::CargoBootimageHelp),
            other => other,
        }
    } else if strutil::str_eq(args[1].as_str(), "run") {
        match parse_build_args(tail) {
            Ok(Command::Build(a)) => Ok(Command::Run(a)),
            Ok(Command::BuildHelp) => Ok(Command::RunHelp),
            other => other,
        }
    } else if strutil::str_eq(args[1].as_str(), "test") {
        match parse_build_args(tail) {
            Ok(Command::Build(a)) => {
                if a.bin_name.is_some() {
                    Err(
                        ErrorMessage::new(
                            "No `--bin` argument allowed for `bootimage test`".to_owned(),
                        ),
                    )
                } else {
                    Ok(Command::Test(a))
                }
            },
            Ok(Command::BuildHelp) => Ok(Command::TestHelp),
            other => other,
        }
    } else if strutil::str_eq(args[1].as_str(), "runner") {
        parse_runner_args(tail)
    } else if strutil::str_eq(args[1].as_str(), "--help") || strutil::str_eq(
        args[1].as_str(),
        "-h",
    ) {
        Ok(Command::Help)
    } else if strutil::str_eq(args[1].as_str(), "--version") {
        Ok(Command::Version)
    } else {
        Ok(Command::NoSubcommand)
    }
}

/// Parses the runner subcommand's arguments into a [`Command`]. An
/// invocation without an executable path is an error.
pub fn parse_runner_args(args: Vec<String>) -> (r: Result<Command, ErrorMessage>)
    ensures
        match r {
            Ok(cmd) => match runner::spec_parse_runner(args.deep_view(), false) {
                runner::RunnerParse::Help => cmd is RunnerHelp,
                runner::RunnerParse::Version => cmd is Version,
                runner::RunnerParse::Done(exe, quiet, runner_args) => {
                    &&& exe matches Some(e)
                    &&& cmd matches Command::Runner(ra)
                    &&& ra.executable@ == e
                    &&& ra.quiet == quiet
                    &&& ra.runner_args.deep_view() == runner_args
                },
            },
            Err(_) => runner::spec_parse_runner(args.deep_view(), false)
                matches runner::RunnerParse::Done(exe, _, _) && exe is None,
        },
{
    match runner::RunnerCommand::parse_args(args) {
        Ok(runner::RunnerCommand::Help) => Ok(Command::RunnerHelp),
        Ok(runner::RunnerCommand::Version) => Ok(Command::Version),
        Ok(runner::RunnerCommand::Runner(ra)) => Ok(
            Command::Runner(
                RunnerArgs {
                    executable: ra.executable,
                    quiet: ra.quiet,
                    runner_args: ra.runner_args,
                },
            ),
        ),
        Err(e) => Err(e),
    }
}

impl Args {
    /// The recorded manifest path.
    pub fn manifest_path(&self) -> (r: &Option<String>)
        ensures
            r == &self.manifest_path,
    {
        &self.manifest_path
    }

    /// The recorded target.
    pub fn target(&self) -> (r: &Option<String>)
        ensures
            r == &self.target,
    {
        &self.target
    }

    /// Records the target and forwards it to cargo. The target may be set
    /// only once.
    pub fn set_target(&mut self, target: String)
        requires
            old(self).target is None,
        ensures
            final(self).target == Some(target),
            final(self).cargo_args.deep_view() == old(self).cargo_args.deep_view().push(
                "--target"@,
            ).push(target@),
            final(self).run_args == old(self).run_args,
            final(self).quiet == old(self).quiet,
            final(self).manifest_path == old(self).manifest_path,
            final(self).bin_name == old(self).bin_name,
            final(self).release == old(self).release,
    {
        let ghost prev = self.cargo_args.deep_view();
        let ghost tv = target@;
        self.target = Some(target.clone());
        self.cargo_args.push("--target".to_owned());
        self.cargo_args.push(target);
        proof {
            assert(self.cargo_args.deep_view() =~~= prev.push("--target"@).push(tv));
        }
    }

    /// The recorded binary name.
    pub fn bin_name(&self) -> (r: &Option<String>)
        ensures
            r == &self.bin_name,
    {
        &self.bin_name
    }

    /// Records the binary name and forwards it to cargo. The name may be
    /// set only once.
    pub fn set_bin_name(&mut self, bin_name: String)
        requires
            old(self).bin_name is None,
        ensures
            final(self).bin_name == Some(bin_name),
            final(self).cargo_args.deep_view() == old(self).cargo_args.deep_view().push(
                "--bin"@,
            ).push(bin_name@),
            final(self).run_args == old(self).run_args,
            final(self).quiet == old(self).quiet,
            final(self).manifest_path == old(self).manifest_path,
            final(self).target == old(self).target,
            final(self).release == old(self).release,
    {
        let ghost prev = self.cargo_args.deep_view();
        let ghost bv = bin_name@;
        self.bin_name = Some(bin_name.clone());
        self.cargo_args.push("--bin".to_owned());
        self.cargo_args.push(bin_name);
        proof {
            assert(self.cargo_args.deep_view() =~~= prev.push("--bin"@).push(bv));
        }
    }

    /// Falls back to the configured default target: when no target was given
    /// on the command line and the configuration names one, the default is
    /// resolved relative to the crate root and recorded.
    pub fn apply_default_target(&mut self, default_target: &Option<String>, crate_root: &str)
        ensures
            old(self).target is Some || default_target is None ==> *final(self) == *old(self),
            match *default_target {
                Some(t) => old(self).target is None ==> {
                    &&& final(self).target matches Some(u) && u@ == crate_root@ + "/"@ + t@
                    &&& final(self).cargo_args.deep_view() == old(
                        self,
                    ).cargo_args.deep_view().push("--target"@).push(crate_root@ + "/"@ + t@)
                    &&& final(self).run_args == old(self).run_args
                    &&& final(self).quiet == old(self).quiet
                    &&& final(self).manifest_path == old(self).manifest_path
                    &&& final(self).bin_name == old(self).bin_name
                    &&& final(self).release == old(self).release
                },
                None => true,
            },
    {
        if self.target.is_none() {
            if let Some(t) = default_target {
                let joined = crate::paths::path_join(crate_root, t.as_str());
                self.set_target(joined);
            }
        }
    }
}

} // verus!
