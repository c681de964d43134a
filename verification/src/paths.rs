//! A plain-string model of file paths.
//!
//! The pipeline only ever reads three things from a path: the directory that
//! contains it, the file name's stem, and whether its last directory has a
//! given name. Paths are kept as strings with `/` separating components.

use crate::strutil;
use vstd::prelude::*;

verus! {

/// The position of the last `/` in `p`, if any.
pub open spec fn spec_last_slash(p: Seq<char>) -> Option<int> {
    if exists|i: int| 0 <= i < p.len() && p[i] == '/' {
        Some(choose|i: int|
            0 <= i < p.len() && p[i] == '/' && forall|k: int| i < k < p.len() ==> p[k] != '/')
    } else {
        None
    }
}

/// The directory part of `p`: everything before the last `/`.
/// A path without a separator has no parent.
pub open spec fn spec_parent(p: Seq<char>) -> Option<Seq<char>> {
    match spec_last_slash(p) {
        Some(i) => Some(p.subrange(0, i)),
        None => None,
    }
}

/// The last component of `p`: everything after the last `/`, or all of `p`
/// if it has no separator.
pub open spec fn spec_file_name(p: Seq<char>) -> Seq<char> {
    match spec_last_slash(p) {
        Some(i) => p.subrange(i + 1, p.len() as int),
        None => p,
    }
}

/// The stem of a file name: the part before the last `.`, unless that dot
/// is the first character or the name has no dot at all.
pub open spec fn spec_stem_of_name(name: Seq<char>) -> Seq<char> {
    if exists|i: int| 0 < i < name.len() && name[i] == '.' {
        name.subrange(
            0,
            choose|i: int|
                0 < i < name.len() && name[i] == '.' && forall|k: int|
                    i < k < name.len() ==> name[k] != '.',
        )
    } else {
        name
    }
}

/// The file stem of `p`: the stem of its last component, or nothing if that
/// component is empty.
pub open spec fn spec_file_stem(p: Seq<char>) -> Option<Seq<char>> {
    if spec_file_name(p).len() == 0 {
        None
    } else {
        Some(spec_stem_of_name(spec_file_name(p)))
    }
}

/// The directory part of `path`, if it has one.
pub fn parent(path: &str) -> (r: Option<String>)
    ensures
        match r {
            Some(d) => spec_parent(path@) == Some(d@),
            None => spec_parent(path@) is None,
        },
{
    match strutil::last_index_of_char(path, '/') {
        Some(i) => {
            let d = path.substring_char(0, i).to_owned();
            proof {
                assert(spec_last_slash(path@) matches Some(j) && path@[j] == '/');
                let j = spec_last_slash(path@)->Some_0;
                assert(path@[i as int] == '/');
                if j < i {
                    assert(path@[i as int] != '/');
                }
                if i < j {
                    assert(path@[j] != '/');
                }
                assert(j == i as int);
            }
            Some(d)
        },
        None => {
            proof {
                if spec_last_slash(path@) is Some {
                    let j = spec_last_slash(path@)->Some_0;
                    assert(path@[j] == '/');
                }
            }
            None
        },
    }
}

/// The last component of `path`.
pub fn file_name(path: &str) -> (r: String)
    ensures
        r@ == spec_file_name(path@),
{
    let len = path.unicode_len();
    match strutil::last_index_of_char(path, '/') {
        Some(i) => {
            let n = path.substring_char(i + 1, len).to_owned();
            proof {
                let j = spec_last_slash(path@)->Some_0;
                assert(path@[j] == '/');
                if j < i {
                    assert(path@[i as int] != '/');
                }
                if i < j {
                    assert(path@[j] != '/');
                }
                assert(j == i as int);
            }
            n
        },
        None => {
            proof {
                if spec_last_slash(path@) is Some {
                    let j = spec_last_slash(path@)->Some_0;
                    assert(path@[j] == '/');
                }
            }
            path.to_owned()
        },
    }
}

/// The stem of the file name `name`.
pub fn stem_of_name(name: &str) -> (r: String)
    ensures
        r@ == spec_stem_of_name(name@),
{
    match strutil::last_index_of_char(name, '.') {
        Some(i) if i > 0 => {
            let s = name.substring_char(0, i).to_owned();
            proof {
                let j = choose|j: int|
                    0 < j < name@.len() && name@[j] == '.' && forall|k: int|
                        j < k < name@.len() ==> name@[k] != '.';
                assert(name@[i as int] == '.');
                if j < i as int {
                    assert(name@[i as int] != '.');
                }
                if i < j {
                    assert(name@[j] != '.');
                }
                assert(j == i as int);
            }
            s
        },
        _ => {
            proof {
                if exists|j: int| 0 < j < name@.len() && name@[j] == '.' {
                    let j = choose|j: int| 0 < j < name@.len() && name@[j] == '.';
                    assert(name@[j] == '.');
                }
            }
            name.to_owned()
        },
    }
}

/// The file stem of `path`, if its last component is not empty.
pub fn file_stem(path: &str) -> (r: Option<String>)
    ensures
        match r {
            Some(s) => spec_file_stem(path@) == Some(s@),
            None => spec_file_stem(path@) is None,
        },
{
    let name = file_name(path);
    if name.as_str().unicode_len() == 0 {
        None
    } else {
        Some(stem_of_name(name.as_str()))
    }
}

/// `dir` with the component or relative path `rest` appended.
pub fn path_join(dir: &str, rest: &str) -> (r: String)
    ensures
        r@ == dir@ + "/"@ + rest@,
{
    strutil::concat3(dir, "/", rest)
}

/// Whether the last component of `path` is exactly `comp`: the path equals
/// `comp` or ends with `/` followed by `comp`.
pub fn ends_with_component(path: &str, comp: &str) -> (r: bool)
    ensures
        r == (path@ == comp@ || strutil::spec_ends_with(path@, "/"@ + comp@)),
{
    if strutil::str_eq(path, comp) {
        return true;
    }
    let slash_comp = strutil::concat2("/", comp);
    strutil::ends_with(path, slash_comp.as_str())
}

} // verus!
