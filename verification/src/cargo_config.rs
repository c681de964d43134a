//! The default compilation target named by a cargo configuration file.
//!
//! A project may set `build.target` in a cargo configuration file; the
//! caller walks the directory tree, finds that value, and hands it here. A
//! plain triple is used as it stands; a path to a target description file
//! is reduced to the file's stem, which is the triple the build tools see.

use crate::paths;
use crate::strutil;
use crate::toml_value::{spec_get, TomlValue};
use vstd::prelude::*;

verus! {

/// The `build.target` value of a parsed cargo configuration file, if it is
/// present and a string.
pub open spec fn spec_build_target(config: TomlValue) -> Option<Seq<char>> {
    match spec_get(config, "build"@) {
        Some(b) => match spec_get(b, "target"@) {
            Some(TomlValue::Str(s)) => Some(s@),
            _ => None,
        },
        None => None,
    }
}

/// The `build.target` string of a parsed cargo configuration file, if any.
pub fn build_target_of(config: &TomlValue) -> (r: Option<String>)
    ensures
        match r {
            Some(t) => spec_build_target(*config) == Some(t@),
            None => spec_build_target(*config) is None,
        },
{
    match config.get("build") {
        Some(b) => match b.get("target") {
            Some(v) => match v.as_str() {
                Some(s) => Some(s.clone()),
                None => None,
            },
            None => None,
        },
        None => None,
    }
}

/// Turns the `build.target` value found for the crate at `crate_root` into
/// a target triple: the value itself unless it names a target description
/// file, in which case the triple is that file's stem. A missing stem is an
/// error; no configured value yields nothing.
pub fn default_target_triple(crate_root: &str, build_target: Option<String>) -> (r: Result<
    Option<String>,
    String,
>)
    ensures
        match build_target {
            None => r matches Ok(None),
            Some(t) => if !strutil::spec_ends_with(t@, ".json"@) {
                r matches Ok(Some(u)) && u@ == t@
            } else {
                match paths::spec_file_stem(crate_root@ + "/"@ + t@) {
                    Some(stem) => r matches Ok(Some(u)) && u@ == stem,
                    None => r is Err,
                }
            },
        },
{
    let target = match build_target {
        Some(t) => t,
        None => {
            return Ok(None);
        },
    };
    if !strutil::ends_with(target.as_str(), ".json") {
        return Ok(Some(target));
    }
    let joined = paths::path_join(crate_root, target.as_str());
    match paths::file_stem(joined.as_str()) {
        Some(stem) => Ok(Some(stem)),
        None => Err("The target path specfied in `build.target` has no file stem".to_owned()),
    }
}

} // verus!
