//! Parsing the runner subcommand's arguments.
//!
//! The runner takes flags until the first free-standing token, which is the
//! kernel executable to run; everything after it is handed to the emulator
//! untouched.

use crate::strutil;
use crate::ErrorMessage;
use vstd::prelude::*;

verus! {

/// One invocation of the runner subcommand.
#[derive(Debug)]
pub enum RunnerCommand {
    /// A normal invocation, with its arguments.
    Runner(RunnerArgs),
    /// A command containing a version flag.
    Version,
    /// A command containing a help flag.
    Help,
}

/// Arguments of the runner subcommand.
#[derive(Debug)]
pub struct RunnerArgs {
    /// The path of the kernel executable to run.
    pub executable: String,
    /// Suppress any output to stdout.
    pub quiet: bool,
    /// Additional arguments passed to the runner.
    pub runner_args: Option<Vec<String>>,
}

/// What scanning the runner arguments yields.
pub ghost enum RunnerParse {
    /// A help flag cut the scan short.
    Help,
    /// A version flag cut the scan short.
    Version,
    /// The scan ended: the executable if one was given, the quiet flag, and
    /// the remaining tokens if there were any.
    Done(Option<Seq<char>>, bool, Option<Seq<Seq<char>>>),
}

/// The runner grammar: flags until the first free-standing token, which is
/// the executable; the tokens after it, if any, go to the runner.
pub open spec fn spec_parse_runner(args: Seq<Seq<char>>, quiet: bool) -> RunnerParse
    decreases args.len(),
{
    if args.len() == 0 {
        RunnerParse::Done(None, quiet, None)
    } else {
        let arg = args[0];
        let rest = args.skip(1);
        if arg == "--help"@ || arg == "-h"@ {
            RunnerParse::Help
        } else if arg == "--version"@ {
            RunnerParse::Version
        } else if arg == "--quiet"@ {
            spec_parse_runner(rest, true)
        } else {
            RunnerParse::Done(
                Some(arg),
                quiet,
                if rest.len() > 0 {
                    Some(rest)
                } else {
                    None
                },
            )
        }
    }
}

impl RunnerCommand {
    /// Parses the runner subcommand's arguments. An invocation without an
    /// executable path is an error.
    pub fn parse_args(args: Vec<String>) -> (r: Result<Self, ErrorMessage>)
        ensures
            match r {
                Ok(cmd) => match spec_parse_runner(args.deep_view(), false) {
                    RunnerParse::Help => cmd is Help,
                    RunnerParse::Version => cmd is Version,
                    RunnerParse::Done(exe, quiet, runner_args) => {
                        &&& exe matches Some(e)
                        &&& cmd matches RunnerCommand::Runner(ra)
                        &&& ra.executable@ == e
                        &&& ra.quiet == quiet
                        &&& ra.runner_args.deep_view() == runner_args
                    },
                },
                Err(_) => spec_parse_runner(args.deep_view(), false) matches RunnerParse::Done(
                    exe,
                    _,
                    _,
                ) && exe is None,
            },
    {
        let ghost all = args.deep_view();
        let mut quiet = false;
        let mut i: usize = 0;
        proof {
            assert(all.skip(0) =~= all);
        }
        while i < args.len()
            invariant
                all == args.deep_view(),
                i <= args.len(),
                spec_parse_runner(all, false) == spec_parse_runner(all.skip(i as int), quiet),
            decreases args.len() - i,
        {
            let ghost rest = all.skip(i as int);
            proof {
                assert(rest[0] == all[i as int]);
                assert(rest.skip(1) =~= all.skip(i + 1));
            }
            if strutil::str_eq(args[i].as_str(), "--help") || strutil::str_eq(
                args[i].as_str(),
                "-h",
            ) {
                return Ok(RunnerCommand::Help);
            } else if strutil::str_eq(args[i].as_str(), "--version") {
                return Ok(RunnerCommand::Version);
            } else if strutil::str_eq(args[i].as_str(), "--quiet") {
                quiet = true;
                i += 1;
            } else {
                let executable = args[i].clone();
                let mut runner_args: Option<Vec<String>> = None;
                if i + 1 < args.len() {
                    let mut tail: Vec<String> = Vec::new();
                    let mut j: usize = i + 1;
                    while j < args.len()
                        invariant
                            all == args.deep_view(),
                            i + 1 <= j <= args.len(),
                            tail.deep_view() =~= all.subrange(i + 1, j as int),
                        decreases args.len() - j,
                    {
                        let ghost prev = tail.deep_view();
                        tail.push(args[j].clone());
                        proof {
                            assert(tail.deep_view() =~~= prev.push(all[j as int]));
                            assert(prev.push(all[j as int]) =~~= all.subrange(i + 1, j + 1));
                        }
                        j += 1;
                    }
                    proof {
                        assert(all.subrange(i + 1, all.len() as int) =~= all.skip(i + 1));
                    }
                    runner_args = Some(tail);
                }
                return Ok(
                    RunnerCommand::Runner(RunnerArgs { executable, quiet, runner_args }),
                );
            }
        }
        proof {
            assert(all.skip(all.len() as int) =~= Seq::<Seq<char>>::empty());
        }
        Err(
            ErrorMessage::new(
                "excepted path to kernel executable as first argument".to_owned(),
            ),
        )
    }
}

} // verus!
