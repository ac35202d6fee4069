//! The boundary to the flag-parsing collaborator.
//!
//! The core describes each field as a plain [`FlagDef`] descriptor; the two
//! functions below carry a descriptor into the parser's builder and read a
//! parsed value back out as a plain optional string.

use vstd::prelude::*;

verus! {

/// A plain descriptor of one command-line flag: its name, its description,
/// and whether the parser itself must insist on it. Required-ness is
/// enforced by the `Required` validator at extraction time, never at the
/// flag level, so `required` is always false on descriptors built by a
/// field.
#[derive(Clone, Debug, PartialEq, Eq)]
pub struct FlagDef {
    pub name: String,
    pub help: String,
    pub required: bool,
}

#[verifier::external_type_specification]
#[verifier::external_body]
pub struct ExArg(clap::Arg);

#[verifier::external_type_specification]
#[verifier::external_body]
pub struct ExArgMatches(clap::ArgMatches);

/// Relies on clap's `Arg::new`, `Arg::long` and `Arg::help`: builds an
/// optional flag that is written `--<name> <value>` and described by `help`.
/// Nothing is stated of the opaque result; what the parser hands back for it
/// is revalidated by the verified extraction path.
#[verifier::external_body]
pub fn flag_def_to_arg(def: &FlagDef) -> clap::Arg {
    clap::Arg::new(def.name.clone()).long(def.name.clone()).help(def.help.clone())
}

/// Relies on clap's `ArgMatches::try_get_one::<String>`: returns the value
/// parsed for the flag `name`, or `None` when the flag was absent or is not
/// known to the matches. The result depends on the opaque matches value, so
/// nothing is stated of it; callers validate whatever comes back.
#[verifier::external_body]
pub fn matches_value_of(matches: &clap::ArgMatches, name: &str) -> Option<String> {
    match matches.try_get_one::<String>(name) {
        Ok(Some(v)) => Some(v.clone()),
        _ => None,
    }
}

} // verus!
