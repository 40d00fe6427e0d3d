//! The build helper's command line, parsed through an outside option
//! parser behind trusted declarations.
//!
//! The option set, the parse, and the accessors on the parse result are
//! calls into the `getopts` crate; each stands behind a trusted item
//! that states no more than its source shows.  Registration admits only
//! option names of the shape getopts validates without aborting, which
//! also keeps the parse clear of the panic on a nameless option group.
//! The accessors panic on a name that the parse never defined, so each
//! is guarded by the non-panicking definedness test.  Every decision
//! taken on the extracted plain values is the verified logic of
//! [`crate::build_plan`].

use vstd::prelude::*;
use vstd::string::StringSliceAdditionalSpecFns;
use crate::build_plan::Config;
use crate::build_plan::PlanError;
use crate::build_plan::config_from_parts;

verus! {

broadcast use vstd::string::is_ascii_spec_bytes;

#[verifier::external_type_specification]
#[verifier::external_body]
pub struct ExOptions(getopts::Options);

#[verifier::external_type_specification]
#[verifier::external_body]
pub struct ExMatches(getopts::Matches);

/// The option names a parse result answers for: those the option set
/// defined, under the short and long spellings its lookup accepts.
pub uninterp spec fn spec_defined_names(m: getopts::Matches) -> Set<Seq<char>>;

/// The names getopts registers without aborting and parses without
/// panicking: a short name of at most one byte, a long name never of
/// exactly one byte, and not both empty.
pub open spec fn spec_valid_names(short: &str, long: &str) -> bool {
    &&& short.spec_bytes().len() <= 1
    &&& long.spec_bytes().len() != 1
    &&& short.spec_bytes().len() + long.spec_bytes().len() > 0
}

/// Relies on getopts::Options::new: a blank set of options.
#[verifier::external_body]
fn new_options() -> getopts::Options {
    getopts::Options::new()
}

/// Relies on getopts::Options::optflag: registers an optional option
/// without an argument.  Asserts on names outside the valid shape, and
/// a group with both names empty makes a later parse panic; the
/// requires excludes both.
#[verifier::external_body]
fn add_flag(opts: &mut getopts::Options, short: &str, long: &str, desc: &str)
    requires
        spec_valid_names(short, long),
{
    opts.optflag(short, long, desc);
}

/// Relies on getopts::Options::optopt: registers an optional option
/// taking one argument.  Asserts on names outside the valid shape, and
/// a group with both names empty makes a later parse panic; the
/// requires excludes both.
#[verifier::external_body]
fn add_opt(opts: &mut getopts::Options, short: &str, long: &str, desc: &str, hint: &str)
    requires
        spec_valid_names(short, long),
{
    opts.optopt(short, long, desc, hint);
}

/// Relies on getopts::Options::optmulti: registers a repeatable option
/// taking one argument each time.  Asserts on names outside the valid
/// shape, and a group with both names empty makes a later parse panic;
/// the requires excludes both.
#[verifier::external_body]
fn add_multi(opts: &mut getopts::Options, short: &str, long: &str, desc: &str, hint: &str)
    requires
        spec_valid_names(short, long),
{
    opts.optmulti(short, long, desc, hint);
}

/// Relies on getopts::Options::parse: matches the words against the
/// registered options; the failure is rendered to its message.  Parse
/// panics on an option group with both names empty, which the
/// registration wrappers' requires keep out of every option set a
/// verified caller can build.
#[verifier::external_body]
fn parse_args(opts: &getopts::Options, args: &Vec<String>) -> Result<getopts::Matches, String> {
    match opts.parse(args) {
        Ok(m) => Ok(m),
        Err(e) => Err(format!("{}", e)),
    }
}

/// Relies on getopts::Matches::opt_defined: whether the name is among
/// the defined options; never panics, and depends on the parse result
/// and the name alone.
#[verifier::external_body]
fn opt_defined(m: &getopts::Matches, name: &str) -> (r: bool)
    ensures
        r == spec_defined_names(*m).contains(name@),
{
    m.opt_defined(name)
}

/// Relies on getopts::Matches::opt_present: whether a defined option
/// was given.  Panics on an undefined name, which the requires excludes.
#[verifier::external_body]
fn opt_present(m: &getopts::Matches, name: &str) -> bool
    requires
        spec_defined_names(*m).contains(name@),
{
    m.opt_present(name)
}

/// Relies on getopts::Matches::opt_str: the argument of the first match
/// of a defined option.  Panics on an undefined name, which the
/// requires excludes.
#[verifier::external_body]
fn opt_str(m: &getopts::Matches, name: &str) -> Option<String>
    requires
        spec_defined_names(*m).contains(name@),
{
    m.opt_str(name)
}

/// Relies on getopts::Matches::opt_strs: the arguments of every match
/// of a defined option, in order.  Panics on an undefined name, which
/// the requires excludes.
#[verifier::external_body]
fn opt_strs(m: &getopts::Matches, name: &str) -> Vec<String>
    requires
        spec_defined_names(*m).contains(name@),
{
    m.opt_strs(name)
}

/// Whether a defined option was given; an undefined name reads as not
/// given rather than reaching the panicking accessor.
fn flag_given(m: &getopts::Matches, name: &str) -> bool {
    if opt_defined(m, name) {
        opt_present(m, name)
    } else {
        false
    }
}

/// The argument of a defined option, absent for an undefined name.
fn value_given(m: &getopts::Matches, name: &str) -> Option<String> {
    if opt_defined(m, name) {
        opt_str(m, name)
    } else {
        None
    }
}

/// The arguments of every match of a defined option, empty for an
/// undefined name.
fn values_given(m: &getopts::Matches, name: &str) -> Vec<String> {
    if opt_defined(m, name) {
        opt_strs(m, name)
    } else {
        Vec::new()
    }
}

/// The helper's option set: projects to build, the all/release flags,
/// the target triple and artifact directory, and the help flag.
pub fn build_cli_options() -> getopts::Options {
    proof {
        reveal_strlit("");
        reveal_strlit("p");
        reveal_strlit("project");
        reveal_strlit("all");
        reveal_strlit("release");
        reveal_strlit("target");
        reveal_strlit("target-dir");
        reveal_strlit("h");
        reveal_strlit("help");
        assert(vstd::string::is_ascii(""));
        assert(vstd::string::is_ascii("p"));
        assert(vstd::string::is_ascii("project"));
        assert(vstd::string::is_ascii("all"));
        assert(vstd::string::is_ascii("release"));
        assert(vstd::string::is_ascii("target"));
        assert(vstd::string::is_ascii("target-dir"));
        assert(vstd::string::is_ascii("h"));
        assert(vstd::string::is_ascii("help"));
    }
    let mut opts = new_options();
    add_multi(&mut opts, "p", "project", "project to build", "NAME");
    add_flag(&mut opts, "", "all", "build all projects");
    add_flag(&mut opts, "", "release", "build in release mode, with optimization");
    add_opt(&mut opts, "", "target", "build for the target triple", "TRIPLE");
    add_opt(
        &mut opts,
        "",
        "target-dir",
        "directory for all generated artifacts",
        "DIRECTORY",
    );
    add_flag(&mut opts, "h", "help", "print this help menu");
    opts
}

/// Why no configuration came out of the command line.
#[derive(Debug, PartialEq, Eq)]
pub enum CliError {
    /// The option parser refused the words; its message.
    Parse(String),
    /// The words parsed, but the plan could not be assembled.
    Plan(PlanError),
}

/// Parse the helper's option words and settle the whole configuration.
///
/// The caller hands in the subcommand word, the option words that
/// followed it, the three environment fallbacks, and the known package
/// names.  What comes back for each parse outcome is fixed by
/// [`config_from_parts`], which takes the extracted plain values and
/// carries the exact contract; whatever the parse returned, the
/// subcommand word passes into the configuration untouched.
pub fn config_from_cli(
    subcommand: String,
    opts_args: &Vec<String>,
    env_build_target: Option<String>,
    env_target_dir: Option<String>,
    env_build_target_dir: Option<String>,
    known: &Vec<String>,
) -> (r: Result<Config, CliError>)
    ensures
        r matches Result::Ok(c) ==> c.subcommand@ == subcommand@,
{
    let opts = build_cli_options();
    let matches = match parse_args(&opts, opts_args) {
        Result::Ok(m) => m,
        Result::Err(e) => {
            return Result::Err(CliError::Parse(e));
        },
    };
    let requested = values_given(&matches, "p");
    let parts = config_from_parts(
        subcommand,
        value_given(&matches, "target"),
        env_build_target,
        value_given(&matches, "target-dir"),
        env_target_dir,
        env_build_target_dir,
        flag_given(&matches, "release"),
        flag_given(&matches, "all"),
        &requested,
        known,
    );
    match parts {
        Result::Ok(c) => Result::Ok(c),
        Result::Err(e) => Result::Err(CliError::Plan(e)),
    }
}

} // verus!
