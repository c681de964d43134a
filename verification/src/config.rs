//! The `package.metadata.bootimage` configuration table.
//!
//! A kernel's manifest may carry a `package.metadata.bootimage` table that
//! configures how the image is built and run. This module turns the parsed
//! manifest into a [`Config`], dispatching over a whitelist of recognised
//! keys; an unknown key, or a recognised key with a value of the wrong shape,
//! is a hard error.

use crate::ErrorMessage;
use crate::strutil;
use crate::toml_value::{spec_get, TomlValue};
use vstd::prelude::*;

verus! {

/// The parsed `package.metadata.bootimage` configuration.
#[derive(Clone, Debug)]
pub struct Config {
    /// The cargo subcommand (with its arguments) used to build the kernel.
    pub build_command: Vec<String>,
    /// The command that runs a disk image; one token contains a `{}`
    /// placeholder for the image path.
    pub run_command: Vec<String>,
    /// Extra arguments appended for non-test binaries.
    pub run_args: Option<Vec<String>>,
    /// Extra arguments appended for test binaries.
    pub test_args: Option<Vec<String>>,
    /// The timeout for test runs, in seconds.
    pub test_timeout: u32,
    /// A raw exit code that test executables may use to signal success.
    pub test_success_exit_code: Option<i32>,
    /// Whether test runs pass a no-reboot flag to the emulator.
    pub test_no_reboot: bool,
}

/// The not-yet-defaulted configuration: one optional slot per key.
pub struct ConfigBuilder {
    /// Value of the `build-command` key, if seen.
    pub build_command: Option<Vec<String>>,
    /// Value of the `run-command` key, if seen.
    pub run_command: Option<Vec<String>>,
    /// Value of the `run-args` key, if seen.
    pub run_args: Option<Vec<String>>,
    /// Value of the `test-args` key, if seen.
    pub test_args: Option<Vec<String>>,
    /// Value of the `test-timeout` key, if seen.
    pub test_timeout: Option<u32>,
    /// Value of the `test-success-exit-code` key, if seen.
    pub test_success_exit_code: Option<i32>,
    /// Value of the `test-no-reboot` key, if seen.
    pub test_no_reboot: Option<bool>,
}

/// The mathematical image of a [`ConfigBuilder`]: strings as sequences.
pub ghost struct ConfigModel {
    /// Model of the `build-command` slot.
    pub build_command: Option<Seq<Seq<char>>>,
    /// Model of the `run-command` slot.
    pub run_command: Option<Seq<Seq<char>>>,
    /// Model of the `run-args` slot.
    pub run_args: Option<Seq<Seq<char>>>,
    /// Model of the `test-args` slot.
    pub test_args: Option<Seq<Seq<char>>>,
    /// Model of the `test-timeout` slot.
    pub test_timeout: Option<u32>,
    /// Model of the `test-success-exit-code` slot.
    pub test_success_exit_code: Option<i32>,
    /// Model of the `test-no-reboot` slot.
    pub test_no_reboot: Option<bool>,
}

impl View for ConfigBuilder {
    type V = ConfigModel;

    open spec fn view(&self) -> ConfigModel {
        ConfigModel {
            build_command: self.build_command.deep_view(),
            run_command: self.run_command.deep_view(),
            run_args: self.run_args.deep_view(),
            test_args: self.test_args.deep_view(),
            test_timeout: self.test_timeout,
            test_success_exit_code: self.test_success_exit_code,
            test_no_reboot: self.test_no_reboot,
        }
    }
}

/// The strings of `vals`, if every element is a string.
pub open spec fn spec_string_array(vals: Seq<TomlValue>) -> Option<Seq<Seq<char>>>
    decreases vals.len(),
{
    if vals.len() == 0 {
        Some(Seq::empty())
    } else {
        match vals[0] {
            TomlValue::Str(s) => match spec_string_array(vals.skip(1)) {
                Some(rest) => Some(seq![s@] + rest),
                None => None,
            },
            _ => None,
        }
    }
}

/// What recording one configuration entry in `m` yields: the updated
/// model, or nothing if the key is unknown or its value malformed.
pub open spec fn spec_apply_entry(m: ConfigModel, key: Seq<char>, v: TomlValue) -> Option<
    ConfigModel,
> {
    if key == "test-timeout"@ {
        match v {
            TomlValue::Integer(t) => if 0 <= t <= 4294967295i64 {
                Some(ConfigModel { test_timeout: Some(t as u32), ..m })
            } else {
                None
            },
            _ => None,
        }
    } else if key == "test-success-exit-code"@ {
        match v {
            TomlValue::Integer(c) => if -2147483648i64 <= c <= 2147483647i64 {
                Some(ConfigModel { test_success_exit_code: Some(c as i32), ..m })
            } else {
                None
            },
            _ => None,
        }
    } else if key == "build-command"@ {
        match v {
            TomlValue::Array(a) => match spec_string_array(a@) {
                Some(ss) => Some(ConfigModel { build_command: Some(ss), ..m }),
                None => None,
            },
            _ => None,
        }
    } else if key == "run-command"@ {
        match v {
            TomlValue::Array(a) => match spec_string_array(a@) {
                Some(ss) => Some(ConfigModel { run_command: Some(ss), ..m }),
                None => None,
            },
            _ => None,
        }
    } else if key == "run-args"@ {
        match v {
            TomlValue::Array(a) => match spec_string_array(a@) {
                Some(ss) => Some(ConfigModel { run_args: Some(ss), ..m }),
                None => None,
            },
            _ => None,
        }
    } else if key == "test-args"@ {
        match v {
            TomlValue::Array(a) => match spec_string_array(a@) {
                Some(ss) => Some(ConfigModel { test_args: Some(ss), ..m }),
                None => None,
            },
            _ => None,
        }
    } else if key == "test-no-reboot"@ {
        match v {
            TomlValue::Boolean(no_reboot) => Some(
                ConfigModel { test_no_reboot: Some(no_reboot), ..m },
            ),
            _ => None,
        }
    } else {
        None
    }
}

/// Recording the entries of a table one by one, left to right.
pub open spec fn spec_fold_entries(m: ConfigModel, entries: Seq<(String, TomlValue)>) -> Option<
    ConfigModel,
>
    decreases entries.len(),
{
    if entries.len() == 0 {
        Some(m)
    } else {
        match spec_apply_entry(m, entries[0].0@, entries[0].1) {
            Some(m2) => spec_fold_entries(m2, entries.skip(1)),
            None => None,
        }
    }
}

/// The model with nothing recorded yet.
pub open spec fn spec_empty_model() -> ConfigModel {
    ConfigModel {
        build_command: None,
        run_command: None,
        run_args: None,
        test_args: None,
        test_timeout: None,
        test_success_exit_code: None,
        test_no_reboot: None,
    }
}

/// The `package.metadata.bootimage` value of a manifest, if present.
pub open spec fn spec_bootimage_table(manifest: TomlValue) -> Option<TomlValue> {
    match spec_get(manifest, "package"@) {
        Some(p) => match spec_get(p, "metadata"@) {
            Some(md) => spec_get(md, "bootimage"@),
            None => None,
        },
        None => None,
    }
}

/// What reading the configuration from `manifest` yields: the recorded
/// slots, or nothing if the configuration is invalid.
pub open spec fn spec_read_config(manifest: TomlValue) -> Option<ConfigModel> {
    match spec_bootimage_table(manifest) {
        None => Some(spec_empty_model()),
        Some(md) => match md {
            TomlValue::Table(entries) => spec_fold_entries(spec_empty_model(), entries@),
            _ => None,
        },
    }
}

/// The final build command: the recorded one, or `["build"]`.
pub open spec fn spec_final_build_command(m: ConfigModel) -> Seq<Seq<char>> {
    match m.build_command {
        Some(v) => v,
        None => seq!["build"@],
    }
}

/// The final run command: the recorded one, or the default emulator
/// invocation with a `{}` placeholder for the image path.
pub open spec fn spec_final_run_command(m: ConfigModel) -> Seq<Seq<char>> {
    match m.run_command {
        Some(v) => v,
        None => seq!["qemu-system-x86_64"@, "-drive"@, "format=raw,file={}"@],
    }
}

/// The final test timeout in seconds: the recorded one, or five minutes.
pub open spec fn spec_final_test_timeout(m: ConfigModel) -> u32 {
    match m.test_timeout {
        Some(t) => t,
        None => 300u32,
    }
}

/// The final no-reboot choice: the recorded one, or enabled.
pub open spec fn spec_final_test_no_reboot(m: ConfigModel) -> bool {
    match m.test_no_reboot {
        Some(b) => b,
        None => true,
    }
}

/// The configuration that the model `m` settles to after defaulting.
pub open spec fn spec_config_matches(c: Config, m: ConfigModel) -> bool {
    &&& c.build_command.deep_view() == spec_final_build_command(m)
    &&& c.run_command.deep_view() == spec_final_run_command(m)
    &&& c.run_args.deep_view() == m.run_args
    &&& c.test_args.deep_view() == m.test_args
    &&& c.test_timeout == spec_final_test_timeout(m)
    &&& c.test_success_exit_code == m.test_success_exit_code
    &&& c.test_no_reboot == spec_final_test_no_reboot(m)
}

/// Collects the strings of `array`; fails if any element is not a string.
fn parse_string_array(array: &Vec<TomlValue>, prop_name: &str) -> (r: Result<
    Vec<String>,
    ErrorMessage,
>)
    ensures
        match r {
            Ok(v) => spec_string_array(array@) == Some(v.deep_view()),
            Err(_) => spec_string_array(array@) is None,
        },
{
    let ghost vals = array@;
    let mut parsed: Vec<String> = Vec::new();
    let mut i: usize = 0;
    proof {
        assert(vals.skip(0) =~= vals);
    }
    while i < array.len()
        invariant
            vals == array@,
            i <= array.len(),
            spec_string_array(vals) == match spec_string_array(vals.skip(i as int)) {
                Some(rest) => Some(parsed.deep_view() + rest),
                None => None::<Seq<Seq<char>>>,
            },
        decreases array.len() - i,
    {
        let ghost rest = vals.skip(i as int);
        let ghost prev = parsed.deep_view();
        proof {
            assert(rest[0] == vals[i as int]);
            assert(rest.skip(1) =~= vals.skip(i + 1));
        }
        match &array[i] {
            TomlValue::Str(s) => {
                parsed.push(s.clone());
                proof {
                    assert(parsed.deep_view() =~~= prev.push(s@));
                    if spec_string_array(vals.skip(i + 1)) is Some {
                        let r2 = spec_string_array(vals.skip(i + 1))->Some_0;
                        assert(prev + (seq![s@] + r2) =~= prev.push(s@) + r2);
                    }
                }
            },
            _ => {
                let mut msg = prop_name.to_owned();
                msg.append(" must be a list of strings");
                return Err(ErrorMessage::new(msg));
            },
        }
        i += 1;
    }
    proof {
        assert(vals.skip(vals.len() as int) =~= Seq::<TomlValue>::empty());
        assert(parsed.deep_view() + Seq::<Seq<char>>::empty() =~= parsed.deep_view());
    }
    Ok(parsed)
}

impl ConfigBuilder {
    /// A builder with nothing recorded.
    pub fn new() -> (r: Self)
        ensures
            r@ == spec_empty_model(),
    {
        ConfigBuilder {
            build_command: None,
            run_command: None,
            run_args: None,
            test_args: None,
            test_timeout: None,
            test_success_exit_code: None,
            test_no_reboot: None,
        }
    }

    /// Records one configuration entry, or reports why it is invalid.
    fn apply_entry(self, key: &String, value: &TomlValue) -> (r: Result<Self, ErrorMessage>)
        ensures
            match r {
                Ok(b2) => spec_apply_entry(self@, key@, *value) == Some(b2@),
                Err(_) => spec_apply_entry(self@, key@, *value) is None,
            },
    {
        if strutil::str_eq(key.as_str(), "test-timeout") {
            match value {
                TomlValue::Integer(t) => {
                    if *t < 0 {
                        Err(ErrorMessage::new("test-timeout must not be negative".to_owned()))
                    } else if *t > 4294967295i64 {
                        Err(
                            ErrorMessage::new(
                                "test-timeout does not fit in 32 bits".to_owned(),
                            ),
                        )
                    } else {
                        Ok(ConfigBuilder { test_timeout: Some(*t as u32), ..self })
                    }
                },
                _ => Err(Self::unexpected(key)),
            }
        } else if strutil::str_eq(key.as_str(), "test-success-exit-code") {
            match value {
                TomlValue::Integer(c) => {
                    if *c < -2147483648i64 || *c > 2147483647i64 {
                        Err(
                            ErrorMessage::new(
                                "test-success-exit-code does not fit in 32 bits".to_owned(),
                            ),
                        )
                    } else {
                        Ok(ConfigBuilder { test_success_exit_code: Some(*c as i32), ..self })
                    }
                },
                _ => Err(Self::unexpected(key)),
            }
        } else if strutil::str_eq(key.as_str(), "build-command") {
            match value {
                TomlValue::Array(a) => {
                    let parsed = parse_string_array(a, "build-command")?;
                    Ok(ConfigBuilder { build_command: Some(parsed), ..self })
                },
                _ => Err(Self::unexpected(key)),
            }
        } else if strutil::str_eq(key.as_str(), "run-command") {
            match value {
                TomlValue::Array(a) => {
                    let parsed = parse_string_array(a, "run-command")?;
                    Ok(ConfigBuilder { run_command: Some(parsed), ..self })
                },
                _ => Err(Self::unexpected(key)),
            }
        } else if strutil::str_eq(key.as_str(), "run-args") {
            match value {
                TomlValue::Array(a) => {
                    let parsed = parse_string_array(a, "run-args")?;
                    Ok(ConfigBuilder { run_args: Some(parsed), ..self })
                },
                _ => Err(Self::unexpected(key)),
            }
        } else if strutil::str_eq(key.as_str(), "test-args") {
            match value {
                TomlValue::Array(a) => {
                    let parsed = parse_string_array(a, "test-args")?;
                    Ok(ConfigBuilder { test_args: Some(parsed), ..self })
                },
                _ => Err(Self::unexpected(key)),
            }
        } else if strutil::str_eq(key.as_str(), "test-no-reboot") {
            match value {
                TomlValue::Boolean(no_reboot) => {
                    Ok(ConfigBuilder { test_no_reboot: Some(*no_reboot), ..self })
                },
                _ => Err(Self::unexpected(key)),
            }
        } else {
            Err(Self::unexpected(key))
        }
    }

    /// The error for an unknown or ill-typed configuration entry.
    fn unexpected(key: &String) -> (r: ErrorMessage) {
        let mut msg = "unexpected `package.metadata.bootimage` key `".to_owned();
        msg.append(key.as_str());
        msg.append("`");
        ErrorMessage::new(msg)
    }

    /// Fills the unset slots with their defaults.
    pub fn build(self) -> (r: Config)
        ensures
            spec_config_matches(r, self@),
    {
        let build_command = match self.build_command {
            Some(v) => v,
            None => {
                let mut v: Vec<String> = Vec::new();
                v.push("build".to_owned());
                proof {
                    assert(v.deep_view() =~~= seq!["build"@]);
                }
                v
            },
        };
        let run_command = match self.run_command {
            Some(v) => v,
            None => {
                let mut v: Vec<String> = Vec::new();
                v.push("qemu-system-x86_64".to_owned());
                v.push("-drive".to_owned());
                v.push("format=raw,file={}".to_owned());
                proof {
                    assert(v.deep_view() =~~= seq![
                        "qemu-system-x86_64"@,
                        "-drive"@,
                        "format=raw,file={}"@,
                    ]);
                }
                v
            },
        };
        let test_timeout = match self.test_timeout {
            Some(t) => t,
            None => 300,
        };
        let test_no_reboot = match self.test_no_reboot {
            Some(b) => b,
            None => true,
        };
        Config {
            build_command,
            run_command,
            run_args: self.run_args,
            test_args: self.test_args,
            test_timeout,
            test_success_exit_code: self.test_success_exit_code,
            test_no_reboot,
        }
    }
}

/// Reads the `package.metadata.bootimage` configuration from a parsed kernel
/// manifest. A manifest without that table yields the default configuration;
/// a table entry with an unknown key or an ill-shaped value is an error.
pub fn read_config(manifest: &TomlValue) -> (r: Result<Config, ErrorMessage>)
    ensures
        match r {
            Ok(c) => spec_read_config(*manifest) matches Some(m) && spec_config_matches(c, m),
            Err(_) => spec_read_config(*manifest) is None,
        },
{
    let metadata = match manifest.get("package") {
        Some(p) => match p.get("metadata") {
            Some(md) => md.get("bootimage"),
            None => None,
        },
        None => None,
    };
    let table = match metadata {
        None => {
            return Ok(ConfigBuilder::new().build());
        },
        Some(md) => match md.as_table() {
            Some(t) => t,
            None => {
                return Err(
                    ErrorMessage::new(
                        "package.metadata.bootimage configuration invalid".to_owned(),
                    ),
                );
            },
        },
    };
    let ghost es = table@;
    let mut builder = ConfigBuilder::new();
    let mut i: usize = 0;
    proof {
        assert(es.skip(0) =~= es);
    }
    while i < table.len()
        invariant
            spec_read_config(*manifest) == spec_fold_entries(spec_empty_model(), es),
            es == table@,
            i <= table.len(),
            spec_fold_entries(spec_empty_model(), es) == spec_fold_entries(
                builder@,
                es.skip(i as int),
            ),
        decreases table.len() - i,
    {
        let ghost rest = es.skip(i as int);
        proof {
            assert(rest[0] == es[i as int]);
            assert(rest.skip(1) =~= es.skip(i + 1));
        }
        builder = match builder.apply_entry(&table[i].0, &table[i].1) {
            Ok(b) => b,
            Err(e) => {
                return Err(e);
            },
        };
        i += 1;
    }
    proof {
        assert(es.skip(es.len() as int) =~= Seq::<(String, TomlValue)>::empty());
    }
    Ok(builder.build())
}

} // verus!
