//! Aggregating the verdicts of a suite of test runs.
//!
//! Each named test binary is executed independently; the results are
//! collected into a name-keyed report. The report is order-independent with
//! respect to completion order: identification is strictly by test name, and
//! one failing entry never suppresses the reporting of the others.

use crate::run::Verdict;
use crate::strutil;
use crate::strutil::{spec_match_at, spec_starts_with};
use vstd::prelude::*;

verus! {

/// The part of a test's serial output after its first failure marker, the
/// line `failed`: what the test printed about why it failed. Nothing if the
/// output has no such marker.
pub fn failure_excerpt(output: &str) -> (r: Option<String>)
    ensures
        match r {
            Some(s) => exists|i: int|
                #[trigger] spec_match_at(output@, "failed\n"@, i) && (forall|k: int|
                    0 <= k < i ==> !spec_match_at(output@, "failed\n"@, k)) && s@ == output@.skip(
                    i + "failed\n"@.len(),
                ),
            None => forall|k: int| !spec_match_at(output@, "failed\n"@, k),
        },
{
    proof {
        reveal_strlit("failed\n");
    }
    match strutil::index_of(output, "failed\n") {
        Some(i) => {
            let len = output.unicode_len();
            let s = output.substring_char(i + 7, len).to_owned();
            proof {
                assert(output@.subrange(i + 7, len as int) =~= output@.skip(i + 7));
            }
            Some(s)
        },
        None => None,
    }
}

/// The classification of one suite test, read from the guest's debug-exit
/// code together with its serial output.
#[derive(Debug)]
pub enum TestResult {
    /// The test reported success.
    Passed,
    /// The test reported failure.
    Failed,
    /// The test did not exit within the timeout.
    TimedOut,
    /// The exit code or the output did not follow the reporting convention.
    Invalid,
}

/// Whether a name/verdict entry counts against the suite.
pub open spec fn spec_entry_failing(e: (String, Verdict)) -> bool {
    !(e.1 is Success)
}

/// All entries of `es` are successes.
pub open spec fn spec_all_success(es: Seq<(String, Verdict)>) -> bool {
    forall|i: int| 0 <= i < es.len() ==> !spec_entry_failing(#[trigger] es[i])
}

/// The entries of `es` that are not successes, in order.
pub open spec fn spec_failing(es: Seq<(String, Verdict)>) -> Seq<(String, Verdict)>
    decreases es.len(),
{
    if es.len() == 0 {
        Seq::empty()
    } else {
        (if spec_entry_failing(es[0]) {
            seq![es[0]]
        } else {
            Seq::<(String, Verdict)>::empty()
        }) + spec_failing(es.skip(1))
    }
}

/// A name of `es` equals `name`.
pub open spec fn spec_has_name(es: Seq<(String, Verdict)>, name: Seq<char>) -> bool {
    exists|i: int| 0 <= i < es.len() && #[trigger] es[i].0@ == name
}

/// A suite has exactly one verdict per test name.
pub open spec fn spec_names_unique(es: Seq<(String, Verdict)>) -> bool {
    forall|i: int, j: int| 0 <= i < j < es.len() ==> es[i].0@ != es[j].0@
}

/// A name-keyed report of test verdicts, one entry per test name.
pub struct TestReport {
    /// The recorded name/verdict pairs, in insertion order.
    pub entries: Vec<(String, Verdict)>,
}

impl TestReport {
    /// The report is well formed: no test name occurs twice.
    pub open spec fn wf(&self) -> bool {
        spec_names_unique(self.entries@)
    }

    /// An empty report.
    pub fn new() -> (r: Self)
        ensures
            r.wf(),
            r.entries@ == Seq::<(String, Verdict)>::empty(),
    {
        let r = TestReport { entries: Vec::new() };
        proof {
            assert(r.entries@ =~= Seq::<(String, Verdict)>::empty());
        }
        r
    }

    /// Whether the report already has an entry under `name`.
    pub fn contains_name(&self, name: &str) -> (r: bool)
        ensures
            r == spec_has_name(self.entries@, name@),
    {
        let mut i: usize = 0;
        while i < self.entries.len()
            invariant
                i <= self.entries.len(),
                forall|k: int| 0 <= k < i ==> #[trigger] self.entries@[k].0@ != name@,
            decreases self.entries.len() - i,
        {
            if strutil::str_eq(self.entries[i].0.as_str(), name) {
                return true;
            }
            i += 1;
        }
        false
    }

    /// Records the verdict of one test.
    pub fn insert(&mut self, name: String, verdict: Verdict)
        requires
            old(self).wf(),
            !spec_has_name(old(self).entries@, name@),
        ensures
            final(self).wf(),
            final(self).entries@ == old(self).entries@.push((name, verdict)),
    {
        let ghost olds = self.entries@;
        self.entries.push((name, verdict));
        proof {
            let news = self.entries@;
            assert forall|i: int, j: int| 0 <= i < j < news.len() implies news[i].0@
                != news[j].0@ by {
                if j < olds.len() {
                } else {
                    assert(news[j] == olds.push((name, verdict))[olds.len() as int]);
                    assert(news[i].0@ != name@);
                }
            }
        }
    }

    /// Whether every recorded verdict is a success.
    pub fn overall_success(&self) -> (r: bool)
        ensures
            r == spec_all_success(self.entries@),
    {
        let mut i: usize = 0;
        while i < self.entries.len()
            invariant
                i <= self.entries.len(),
                forall|k: int| 0 <= k < i ==> !spec_entry_failing(#[trigger] self.entries@[k]),
            decreases self.entries.len() - i,
        {
            match &self.entries[i].1 {
                Verdict::Success => {},
                _ => {
                    return false;
                },
            }
            i += 1;
        }
        true
    }

    /// The entries that are not successes, in recording order. Every failing
    /// test appears here; no failure hides another.
    pub fn failing(&self) -> (r: Vec<(String, Verdict)>)
        ensures
            r@ == spec_failing(self.entries@),
    {
        let ghost es = self.entries@;
        let mut res: Vec<(String, Verdict)> = Vec::new();
        let mut i: usize = 0;
        proof {
            assert(es.skip(0) =~= es);
            assert(Seq::<(String, Verdict)>::empty() + spec_failing(es) =~= spec_failing(es));
        }
        while i < self.entries.len()
            invariant
                es == self.entries@,
                i <= self.entries.len(),
                spec_failing(es) == res@ + spec_failing(es.skip(i as int)),
            decreases self.entries.len() - i,
        {
            let ghost rest = es.skip(i as int);
            let ghost prev = res@;
            proof {
                assert(rest[0] == es[i as int]);
                assert(rest.skip(1) =~= es.skip(i + 1));
            }
            let failing_entry = match &self.entries[i].1 {
                Verdict::Success => false,
                _ => true,
            };
            if failing_entry {
                let name = self.entries[i].0.clone();
                let verdict = self.entries[i].1;
                res.push((name, verdict));
                proof {
                    assert(res@ =~= prev + seq![es[i as int]]);
                    assert(prev + seq![es[i as int]] + spec_failing(es.skip(i + 1)) =~= prev + (
                    seq![es[i as int]] + spec_failing(es.skip(i + 1))));
                }
            } else {
                proof {
                    assert(prev + (Seq::<(String, Verdict)>::empty() + spec_failing(
                        es.skip(i + 1),
                    )) =~= prev + spec_failing(es.skip(i + 1)));
                }
            }
            i += 1;
        }
        proof {
            assert(es.skip(es.len() as int) =~= Seq::<(String, Verdict)>::empty());
            assert(res@ + Seq::<(String, Verdict)>::empty() =~= res@);
        }
        res
    }

    /// The suite's overall exit status: clean only when every test
    /// succeeded.
    pub fn exit_code(&self) -> (r: i32)
        ensures
            r == 0 <==> spec_all_success(self.entries@),
            r == 0 || r == 1,
    {
        if self.overall_success() {
            0
        } else {
            1
        }
    }
}

/// A suite succeeds exactly when it has no failing entry: enumerating the
/// failures and checking overall success agree with each other.
pub proof fn lemma_success_iff_no_failing(es: Seq<(String, Verdict)>)
    ensures
        spec_all_success(es) <==> spec_failing(es).len() == 0,
    decreases es.len(),
{
    if es.len() == 0 {
    } else {
        lemma_success_iff_no_failing(es.skip(1));
        assert(es.skip(1).len() == es.len() - 1);
        if spec_all_success(es) {
            assert(!spec_entry_failing(es[0]));
            assert forall|i: int| 0 <= i < es.skip(1).len() implies !spec_entry_failing(
                #[trigger] es.skip(1)[i],
            ) by {
                assert(es.skip(1)[i] == es[i + 1]);
            }
        }
        if spec_failing(es).len() == 0 {
            assert(!spec_entry_failing(es[0]));
            assert(spec_failing(es.skip(1)).len() == 0);
        }
        if spec_all_success(es.skip(1)) && !spec_entry_failing(es[0]) {
            assert forall|i: int| 0 <= i < es.len() implies !spec_entry_failing(
                #[trigger] es[i],
            ) by {
                if i > 0 {
                    assert(es.skip(1)[i - 1] == es[i]);
                }
            }
        }
    }
}

/// Classifies one suite test from the emulator's exit code and the test's
/// serial output. The guest reports through the debug-exit port: writing 0
/// terminates the host with code 1 and defers the outcome to the output
/// text, writing 2 (host code 5) is a clean success, writing 3 (host code
/// 7) is a failure; anything else does not follow the convention.
pub fn handle_exit_status(exit_code: Option<i32>, output: &str) -> (r: TestResult)
    ensures
        match exit_code {
            None => r is Invalid,
            Some(code) => if code == 1 {
                if spec_starts_with(output@, "ok\n"@) {
                    r is Passed
                } else if spec_starts_with(output@, "failed\n"@) {
                    r is Failed
                } else {
                    r is Invalid
                }
            } else if code == 5 {
                r is Passed
            } else if code == 7 {
                r is Failed
            } else {
                r is Invalid
            },
        },
{
    match exit_code {
        None => TestResult::Invalid,
        Some(code) => {
            if code == 1 {
                if strutil::starts_with(output, "ok\n") {
                    TestResult::Passed
                } else if strutil::starts_with(output, "failed\n") {
                    TestResult::Failed
                } else {
                    TestResult::Invalid
                }
            } else if code == 5 {
                TestResult::Passed
            } else if code == 7 {
                TestResult::Failed
            } else {
                TestResult::Invalid
            }
        },
    }
}

} // verus!
