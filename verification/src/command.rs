//! A plain description of an external command invocation.
//!
//! The pipeline never spawns processes itself; it computes the program,
//! argument list and environment of each invocation, and the caller carries
//! that description to the operating system.

use vstd::prelude::*;

verus! {

/// A command to run: program, arguments in order, and environment variables
/// to set for it.
pub struct CommandLine {
    /// The program to invoke.
    pub program: String,
    /// The arguments, in order.
    pub args: Vec<String>,
    /// Environment variables to set, as name/value pairs.
    pub envs: Vec<(String, String)>,
}

impl CommandLine {
    /// A command with no arguments and no environment.
    pub fn new(program: String) -> (r: Self)
        ensures
            r.program@ == program@,
            r.args.deep_view() == Seq::<Seq<char>>::empty(),
            r.envs.deep_view() == Seq::<(Seq<char>, Seq<char>)>::empty(),
    {
        let r = CommandLine { program, args: Vec::new(), envs: Vec::new() };
        proof {
            assert(r.args.deep_view() =~= Seq::<Seq<char>>::empty());
            assert(r.envs.deep_view() =~= Seq::<(Seq<char>, Seq<char>)>::empty());
        }
        r
    }

    /// Appends one argument.
    pub fn arg(&mut self, a: String)
        ensures
            final(self).program == old(self).program,
            final(self).args.deep_view() == old(self).args.deep_view().push(a@),
            final(self).envs == old(self).envs,
    {
        let ghost av = a@;
        self.args.push(a);
        proof {
            assert(self.args.deep_view() =~~= old(self).args.deep_view().push(av));
        }
    }

    /// Sets one environment variable.
    pub fn env(&mut self, name: String, value: String)
        ensures
            final(self).program == old(self).program,
            final(self).args == old(self).args,
            final(self).envs.deep_view() == old(self).envs.deep_view().push((name@, value@)),
    {
        let ghost nv = (name@, value@);
        self.envs.push((name, value));
        proof {
            assert(self.envs.deep_view() =~~= old(self).envs.deep_view().push(nv));
        }
    }
}

} // verus!
