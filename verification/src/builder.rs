//! Scanning the build driver's record stream for produced executables.
//!
//! When asked for machine-readable output, the external build driver emits
//! one JSON record per line. The pipeline reads only the `executable` field
//! of those records: the kernel build accepts any number of executables, the
//! bootloader build must produce exactly one.

use crate::builder::error::{BootloaderError, BuildKernelError, CreateBootimageError};
use vstd::prelude::*;

/// Derives the bootloader build configuration.
pub mod bootloader;
/// Block alignment for the produced disk image.
pub mod disk_image;
/// The error types returned by the build pipeline.
pub mod error;

verus! {

/// The `executable` field of one build record: what parsing `line` as JSON
/// and taking the string under its `executable` key yields. Nothing if the
/// line is not valid JSON; an inner nothing if the record has no string
/// there.
pub uninterp spec fn json_executable_field(line: Seq<char>) -> Option<Option<Seq<char>>>;

/// Relies on `json::parse` and `json::JsonValue::take_string`: parses one
/// line of the build driver's record stream and takes the string under its
/// `executable` key, if the record has one. Both results depend on the line
/// alone.
#[verifier::external_body]
fn executable_field(line: &str) -> (r: Option<Option<String>>)
    ensures
        r.deep_view() == json_executable_field(line@),
{
    match json::parse(line) {
        Ok(mut record) => Some(record["executable"].take_string()),
        Err(_) => None,
    }
}

/// The executables named by a record stream: the `executable` fields of all
/// its lines, in order; nothing if some line is not valid JSON.
pub open spec fn spec_executables(lines: Seq<Seq<char>>) -> Option<Seq<Seq<char>>>
    decreases lines.len(),
{
    if lines.len() == 0 {
        Some(Seq::empty())
    } else {
        match json_executable_field(lines[0]) {
            None => None,
            Some(None) => spec_executables(lines.skip(1)),
            Some(Some(e)) => match spec_executables(lines.skip(1)) {
                Some(rest) => Some(seq![e] + rest),
                None => None,
            },
        }
    }
}

/// Collects the executables named by the record stream `lines`; fails with
/// the offending line if one of them is not valid JSON.
pub fn executables_from_lines(lines: &Vec<String>) -> (r: Result<Vec<String>, String>)
    ensures
        match r {
            Ok(v) => spec_executables(lines.deep_view()) == Some(v.deep_view()),
            Err(_) => spec_executables(lines.deep_view()) is None,
        },
{
    let ghost ls = lines.deep_view();
    let mut executables: Vec<String> = Vec::new();
    let mut i: usize = 0;
    proof {
        assert(ls.skip(0) =~= ls);
    }
    while i < lines.len()
        invariant
            ls == lines.deep_view(),
            i <= lines.len(),
            spec_executables(ls) == match spec_executables(ls.skip(i as int)) {
                Some(rest) => Some(executables.deep_view() + rest),
                None => None::<Seq<Seq<char>>>,
            },
        decreases lines.len() - i,
    {
        let ghost rest = ls.skip(i as int);
        let ghost prev = executables.deep_view();
        proof {
            assert(rest[0] == ls[i as int]);
            assert(rest.skip(1) =~= ls.skip(i + 1));
        }
        match executable_field(lines[i].as_str()) {
            None => {
                return Err(lines[i].clone());
            },
            Some(None) => {},
            Some(Some(e)) => {
                let ghost ev = e@;
                executables.push(e);
                proof {
                    assert(executables.deep_view() =~~= prev.push(ev));
                    if spec_executables(ls.skip(i + 1)) is Some {
                        let r2 = spec_executables(ls.skip(i + 1))->Some_0;
                        assert(prev + (seq![ev] + r2) =~= prev.push(ev) + r2);
                    }
                }
            },
        }
        i += 1;
    }
    proof {
        assert(ls.skip(ls.len() as int) =~= Seq::<Seq<char>>::empty());
        assert(executables.deep_view() + Seq::<Seq<char>>::empty() =~= executables.deep_view());
    }
    Ok(executables)
}

/// Reduces a list of produced executables to the single artifact the
/// bootloader build must yield: zero or more than one executable is an
/// ambiguous build, not a choice to make silently.
pub fn single_executable(executables: Vec<String>) -> (r: Result<String, BootloaderError>)
    ensures
        match r {
            Ok(e) => executables.deep_view().len() == 1 && e@ == executables.deep_view()[0],
            Err(err) => match err {
                BootloaderError::BootloaderInvalid(m) => (executables.deep_view().len() == 0
                    && m@ == "bootloader has no executable"@) || (executables.deep_view().len() >= 2
                    && m@ == "bootloader has multiple executables"@),
                _ => false,
            },
        },
{
    let mut executables = executables;
    if executables.len() == 0 {
        Err(BootloaderError::BootloaderInvalid("bootloader has no executable".to_owned()))
    } else if executables.len() > 1 {
        Err(BootloaderError::BootloaderInvalid("bootloader has multiple executables".to_owned()))
    } else {
        let e = executables.remove(0);
        Ok(e)
    }
}

/// The executables a kernel build produced, or why the record stream is
/// unusable.
pub fn kernel_executables(lines: &Vec<String>) -> (r: Result<Vec<String>, BuildKernelError>)
    ensures
        match r {
            Ok(v) => spec_executables(lines.deep_view()) == Some(v.deep_view()),
            Err(e) => spec_executables(lines.deep_view()) is None && e is
                BuildJsonOutputInvalidJson,
        },
{
    match executables_from_lines(lines) {
        Ok(v) => Ok(v),
        Err(line) => Err(BuildKernelError::BuildJsonOutputInvalidJson(line)),
    }
}

/// The single executable a bootloader build produced, or why there is no
/// such single artifact.
pub fn bootloader_executable(lines: &Vec<String>) -> (r: Result<String, CreateBootimageError>)
    ensures
        match r {
            Ok(e) => spec_executables(lines.deep_view()) matches Some(es) && es.len() == 1 && e@
                == es[0],
            Err(err) => match err {
                CreateBootimageError::BuildJsonOutputInvalidJson(_) => spec_executables(
                    lines.deep_view(),
                ) is None,
                CreateBootimageError::Bootloader(b) => spec_executables(lines.deep_view())
                    matches Some(es) && match b {
                    BootloaderError::BootloaderInvalid(m) => (es.len() == 0 && m@
                        == "bootloader has no executable"@) || (es.len() >= 2 && m@
                        == "bootloader has multiple executables"@),
                    _ => false,
                },
                _ => false,
            },
        },
{
    let executables = match executables_from_lines(lines) {
        Ok(v) => v,
        Err(line) => {
            return Err(CreateBootimageError::BuildJsonOutputInvalidJson(line));
        },
    };
    match single_executable(executables) {
        Ok(e) => Ok(e),
        Err(b) => Err(CreateBootimageError::Bootloader(b)),
    }
}

} // verus!
