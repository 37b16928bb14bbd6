//! What the command line and the configuration file hold, as plain values.

use vstd::prelude::*;
use vstd::string::StringExecFns;
use crate::codec::{CostParams, MEMORY_COST};
use crate::stdlib::lowercased;
use crate::text::str_eq;

verus! {

/// The operation that a command asks for.
#[derive(Debug, Clone, Copy, PartialEq, Eq, Structural)]
pub enum Ops {
    Add,
    Remove,
    Edit,
    Print,
    Interactive,
}

impl Default for Ops {
    fn default() -> (r: Ops)
        ensures
            r == Ops::Print,
    {
        Ops::Print
    }
}

/// The operation that a word in lower case names: its full name or its first letter.
pub open spec fn operation_named(word: Seq<char>) -> Option<Ops> {
    if word == "a"@ || word == "add"@ {
        Some(Ops::Add)
    } else if word == "r"@ || word == "remove"@ {
        Some(Ops::Remove)
    } else if word == "p"@ || word == "print"@ {
        Some(Ops::Print)
    } else if word == "e"@ || word == "edit"@ {
        Some(Ops::Edit)
    } else if word == "i"@ || word == "interactive"@ {
        Some(Ops::Interactive)
    } else {
        None
    }
}

/// The operation that a word in lower case names, if it names one.
pub fn operation_of(word: &str) -> (r: Option<Ops>)
    ensures
        r == operation_named(word@),
{
    if str_eq(word, "a") || str_eq(word, "add") {
        Some(Ops::Add)
    } else if str_eq(word, "r") || str_eq(word, "remove") {
        Some(Ops::Remove)
    } else if str_eq(word, "p") || str_eq(word, "print") {
        Some(Ops::Print)
    } else if str_eq(word, "e") || str_eq(word, "edit") {
        Some(Ops::Edit)
    } else if str_eq(word, "i") || str_eq(word, "interactive") {
        Some(Ops::Interactive)
    } else {
        None
    }
}

/// What reading the word `s` gives: the operation that it names in lower
/// case, or a message that quotes it.
pub open spec fn reads_as(s: Seq<char>, r: Result<Ops, String>) -> bool {
    match r {
        Ok(op) => operation_named(lowercased(s)) == Some(op),
        Err(message) => operation_named(lowercased(s)) is None && message@ == s
            + " is not a valid operation"@,
    }
}

impl Ops {
    /// Reads an operation from a word, whatever its case. A word that names
    /// none is answered with a message that quotes it.
    pub fn parse(s: &str) -> (r: Result<Ops, String>)
        ensures
            reads_as(s@, r),
    {
        let lower = s.to_lowercase();
        match operation_of(lower.as_str()) {
            Some(op) => Ok(op),
            None => Err(s.to_owned().concat(" is not a valid operation")),
        }
    }
}

impl std::str::FromStr for Ops {
    type Err = String;

    fn from_str(s: &str) -> (r: Result<Ops, String>)
        ensures
            reads_as(s@, r),
    {
        Ops::parse(s)
    }
}

/// The arguments of one command. An option that takes an optional value has
/// three states: absent, present without a value, and present with one.
#[derive(Debug)]
pub struct Args {
    pub operation: Option<Ops>,
    pub account: Option<String>,
    pub field: Option<String>,
    pub value: Option<Option<String>>,
    /// Characters that generated values must not hold.
    pub disallow: Option<String>,
    /// The length of a generated value; present means that one is generated.
    pub gen: Option<Option<usize>>,
    /// Whether listings leave the values out.
    pub hide: bool,
    /// A path to use in place of the configured one.
    pub path: Option<std::path::PathBuf>,
    pub pass: Option<String>,
    pub all_fields: bool,
    pub force: bool,
    pub new_password: Option<Option<String>>,
    pub quiet: bool,
}

impl Default for Args {
    fn default() -> (r: Args)
        ensures
            r.operation is None,
            r.account is None,
            r.field is None,
            r.value is None,
            r.disallow is None,
            r.gen is None,
            !r.hide,
            r.path is None,
            r.pass is None,
            !r.all_fields,
            !r.force,
            r.new_password is None,
            !r.quiet,
    {
        Args {
            operation: None,
            account: None,
            field: None,
            value: None,
            disallow: None,
            gen: None,
            hide: false,
            path: None,
            pass: None,
            all_fields: false,
            force: false,
            new_password: None,
            quiet: false,
        }
    }
}

/// How much is logged.
#[derive(Debug, Clone, Copy, PartialEq, Eq, Structural)]
pub enum LevelFilterConf {
    Off,
    Info,
    Warn,
    Debug,
    Trace,
}

/// The length of generated values where none is asked for.
pub const DEFAULT_GEN: usize = 16;

/// The iteration count of the key derivation where none is configured.
pub const DEFAULT_KDF_ITERATIONS: u32 = 3;

/// The configuration.
#[derive(Debug)]
pub struct PassConfig {
    /// The master password, where it is not to be asked for.
    pub default_pass: Option<String>,
    /// The file of the store.
    pub default_path: Option<std::path::PathBuf>,
    /// The length of generated values.
    pub default_gen: usize,
    /// The exclusions for generated values.
    pub default_disallow: String,
    /// The field that a command is about where it names none.
    pub default_field: String,
    pub log_level: LevelFilterConf,
    /// Kept in the file. Commands go by their own `hide` flag.
    pub default_hide: bool,
    /// Kept in the file. Commands go by their own `force` flag.
    pub default_force: bool,
    /// The iteration count of the key derivation: a tunable, low for
    /// interactive speed. The key derivation refuses a count below 3.
    pub kdf_iterations: u32,
}

impl Default for PassConfig {
    fn default() -> (r: PassConfig)
        ensures
            r.default_pass is None,
            r.default_path is None,
            r.default_gen == DEFAULT_GEN,
            r.default_disallow@ == Seq::<char>::empty(),
            r.default_field@ == "pass"@,
            r.log_level == LevelFilterConf::Info,
            !r.default_hide,
            !r.default_force,
            r.kdf_iterations == DEFAULT_KDF_ITERATIONS,
    {
        PassConfig {
            default_pass: None,
            default_path: None,
            default_gen: DEFAULT_GEN,
            default_disallow: String::new(),
            default_field: "pass".to_owned(),
            log_level: LevelFilterConf::Info,
            default_hide: false,
            default_force: false,
            kdf_iterations: DEFAULT_KDF_ITERATIONS,
        }
    }
}

impl PassConfig {
    /// The cost of the key derivation under this configuration.
    pub fn cost_params(&self) -> (r: CostParams)
        ensures
            r.iterations == self.kdf_iterations,
            r.memory == MEMORY_COST,
    {
        CostParams::new(self.kdf_iterations)
    }
}

} // verus!
