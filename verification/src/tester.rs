//! Building blocks for running one stand-alone integration test.
//!
//! A stand-alone test is compiled as a small generated crate whose manifest
//! wraps the test file, and its image is then run with placeholders for the
//! image path and the per-test output file substituted into the command.
//! Each test gets its own output file, so parallel runs never share one.

use crate::strutil;
use crate::strutil::spec_replace;
use vstd::prelude::*;

verus! {

/// The manifest text of the generated crate that wraps one test file:
/// `test_name` names the crate, `test_path` its single binary's source, and
/// `dependency_table` carries the kernel's dependencies plus the kernel
/// itself as serialised TOML.
pub fn tester_manifest_content(test_name: &str, test_path: &str, dependency_table: &str) -> (r:
    String)
    ensures
        r@ == "[package]\nauthors = [\"Bootimage Tester <bootimage@example.com>\"]\nname = \""@
            + test_name@ + "\"\nversion = \"0.0.0\"\nedition = \"2018\"\n\n[workspace]\n\n[[bin]]\nname = \"bootimage-tester-"@
            + test_name@ + "\"\npath = \""@ + test_path@ + "\"\n\n"@ + dependency_table@ + "\n"@,
{
    let mut content = "[package]\nauthors = [\"Bootimage Tester <bootimage@example.com>\"]\nname = \"".to_owned();
    content.append(test_name);
    content.append("\"\nversion = \"0.0.0\"\nedition = \"2018\"\n\n[workspace]\n\n[[bin]]\nname = \"bootimage-tester-");
    content.append(test_name);
    content.append("\"\npath = \"");
    content.append(test_path);
    content.append("\"\n\n");
    content.append(dependency_table);
    content.append("\n");
    content
}

/// One command token with the image path and the output file substituted
/// for their placeholders, in that order.
pub open spec fn spec_tester_substituted(
    arg: Seq<char>,
    bootimage: Seq<char>,
    output_file: Seq<char>,
) -> Seq<char> {
    spec_replace(spec_replace(arg, "{bootimage}"@, bootimage), "{output_file}"@, output_file)
}

/// The arguments of a stand-alone test run: each token of `run_cmd` with
/// the image path and the per-test output file substituted.
pub fn tester_command_args(run_cmd: &Vec<String>, bootimage: &str, output_file: &str) -> (r: Vec<
    String,
>)
    ensures
        r.deep_view() == Seq::new(
            run_cmd.deep_view().len(),
            |i: int| spec_tester_substituted(run_cmd.deep_view()[i], bootimage@, output_file@),
        ),
{
    let ghost expected = Seq::new(
        run_cmd.deep_view().len(),
        |i: int| spec_tester_substituted(run_cmd.deep_view()[i], bootimage@, output_file@),
    );
    let mut res: Vec<String> = Vec::new();
    let mut i: usize = 0;
    while i < run_cmd.len()
        invariant
            expected == Seq::new(
                run_cmd.deep_view().len(),
                |j: int| spec_tester_substituted(run_cmd.deep_view()[j], bootimage@, output_file@),
            ),
            i <= run_cmd.len(),
            res.deep_view() =~= expected.subrange(0, i as int),
        decreases run_cmd.len() - i,
    {
        let ghost prev = res.deep_view();
        proof {
            reveal_strlit("{bootimage}");
            reveal_strlit("{output_file}");
        }
        let first = strutil::replace_all(run_cmd[i].as_str(), "{bootimage}", bootimage);
        let second = strutil::replace_all(first.as_str(), "{output_file}", output_file);
        let ghost sv = second@;
        res.push(second);
        proof {
            assert(res.deep_view() =~~= prev.push(sv));
            assert(prev.push(sv) =~~= expected.subrange(0, i + 1));
        }
        i += 1;
    }
    proof {
        assert(res.deep_view() =~~= expected);
    }
    res
}

} // verus!
