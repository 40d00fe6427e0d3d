//! Verified decision logic of the build helper that packages components.
//!
//! The helper itself reads the command line and environment, runs the
//! build tool and copies files; none of that belongs here.  What is here
//! is every decision it takes on plain values: which subcommand to run,
//! how the target and output directories are resolved from their
//! fallbacks, which packages are selected, which platform naming a
//! library file gets, and the exact argument list handed to the build
//! tool.

use vstd::prelude::*;
use vstd::string::StringSliceAdditionalSpecFns;
use vstd::string::StringExecFns;
use vstd::utf8::encode_utf8;
use vstd::utf8::encode_scalar;
use crate::textops::contains_sub;
use crate::textops::spec_contains_sub;

verus! {

/// A UTF-8 encoding is empty exactly when the text is: every scalar
/// encodes to at least one byte.
pub proof fn lemma_encode_utf8_empty(chars: Seq<char>)
    ensures
        (encode_utf8(chars).len() == 0) <==> (chars.len() == 0),
{
    if chars.len() > 0 {
        assert(encode_scalar(chars[0] as u32).len() >= 1);
    }
}

/// What the tool does for a subcommand word.
#[derive(Clone, Copy, Debug, PartialEq, Eq, Structural)]
pub enum ToolAction {
    /// Build the selected packages and run their packaging steps.
    Build,
    /// Print the build-relevant environment.
    Debug,
    /// Print the usage text.
    Help,
}

/// The dispatch decision: known subcommands by exact match, anything
/// else gets the usage text.
pub open spec fn spec_dispatch(subcommand: Seq<char>) -> ToolAction {
    if subcommand == "build"@ {
        ToolAction::Build
    } else if subcommand == "debug"@ {
        ToolAction::Debug
    } else {
        ToolAction::Help
    }
}

/// Decide which action the tool takes for the given subcommand word.
/// The caller performs the action; this settles only the choice.
pub fn try_main(subcommand: &String) -> (a: ToolAction)
    ensures
        a == spec_dispatch(subcommand@),
{
    let build_word = String::from_str("build");
    let debug_word = String::from_str("debug");
    if *subcommand == build_word {
        ToolAction::Build
    } else if *subcommand == debug_word {
        ToolAction::Debug
    } else {
        ToolAction::Help
    }
}

/// Why a build plan could not be assembled.
#[derive(Debug, PartialEq, Eq)]
pub enum PlanError {
    /// A requested project name matches no known package.
    UnknownProject(String),
}

/// The settled build configuration: every decision the helper needs,
/// as plain values.
#[derive(Debug, PartialEq, Eq)]
pub struct Config {
    /// The subcommand word the tool was invoked with.
    pub subcommand: String,
    /// The target triple, empty for the host.
    pub target: String,
    /// The directory for all generated artifacts.
    pub target_dir: String,
    /// Whether to build with optimizations.
    pub release: bool,
    /// The packages to build, in order.
    pub packages: Vec<String>,
}

/// The char views of a list of strings.
pub open spec fn spec_views(v: Seq<String>) -> Seq<Seq<char>> {
    v.map_values(|s: String| s@)
}

/// The view of an optional string.
pub open spec fn spec_opt_view(o: Option<String>) -> Option<Seq<char>> {
    match o {
        Option::Some(s) => Option::Some(s@),
        Option::None => Option::None,
    }
}

/// The target triple: the command-line choice, else the environment's
/// build target, else empty (the host).
pub open spec fn spec_resolve_target(
    cli: Option<Seq<char>>,
    env: Option<Seq<char>>,
) -> Seq<char> {
    if cli is Some {
        cli.unwrap()
    } else if env is Some {
        env.unwrap()
    } else {
        Seq::<char>::empty()
    }
}

/// Resolve the target triple from its fallback chain.
pub fn resolve_target(cli: Option<String>, env: Option<String>) -> (r: String)
    ensures
        r@ == spec_resolve_target(spec_opt_view(cli), spec_opt_view(env)),
{
    match cli {
        Option::Some(s) => s,
        Option::None => match env {
            Option::Some(s) => s,
            Option::None => String::new(),
        },
    }
}

/// The artifact directory: the command-line choice, else either target
/// directory from the environment, else the conventional name.
pub open spec fn spec_resolve_target_dir(
    cli: Option<Seq<char>>,
    env_a: Option<Seq<char>>,
    env_b: Option<Seq<char>>,
) -> Seq<char> {
    if cli is Some {
        cli.unwrap()
    } else if env_a is Some {
        env_a.unwrap()
    } else if env_b is Some {
        env_b.unwrap()
    } else {
        "target"@
    }
}

/// Resolve the artifact directory from its fallback chain.
pub fn resolve_target_dir(
    cli: Option<String>,
    env_a: Option<String>,
    env_b: Option<String>,
) -> (r: String)
    ensures
        r@ == spec_resolve_target_dir(
            spec_opt_view(cli),
            spec_opt_view(env_a),
            spec_opt_view(env_b),
        ),
{
    match cli {
        Option::Some(s) => s,
        Option::None => match env_a {
            Option::Some(s) => s,
            Option::None => match env_b {
                Option::Some(s) => s,
                Option::None => String::from_str("target"),
            },
        },
    }
}

/// The build-tool executable to invoke: the environment's choice, else
/// the conventional name.
pub open spec fn spec_resolve_cargo(env_cargo: Option<Seq<char>>) -> Seq<char> {
    if env_cargo is Some {
        env_cargo.unwrap()
    } else {
        "cargo"@
    }
}

/// Resolve the build-tool executable from its fallback.
pub fn resolve_cargo(env_cargo: Option<String>) -> (r: String)
    ensures
        r@ == spec_resolve_cargo(spec_opt_view(env_cargo)),
{
    match env_cargo {
        Option::Some(s) => s,
        Option::None => String::from_str("cargo"),
    }
}

/// The first requested project that names no known package, scanning in
/// request order.
pub open spec fn spec_first_unknown(
    requested: Seq<Seq<char>>,
    known: Seq<Seq<char>>,
) -> Option<Seq<char>>
    decreases requested.len(),
{
    if requested.len() == 0 {
        Option::None
    } else if known.contains(requested.first()) {
        spec_first_unknown(requested.drop_first(), known)
    } else {
        Option::Some(requested.first())
    }
}

/// Which packages a run builds: all known ones when everything or
/// nothing in particular was asked for, else exactly the requested ones —
/// unless one of them is unknown, which is the error, reported for the
/// first offender.
pub open spec fn spec_select_packages(
    requested: Seq<Seq<char>>,
    all: bool,
    known: Seq<Seq<char>>,
) -> Result<Seq<Seq<char>>, Seq<char>> {
    if all || requested.len() == 0 {
        Result::Ok(known)
    } else {
        match spec_first_unknown(requested, known) {
            Option::None => Result::Ok(requested),
            Option::Some(p) => Result::Err(p),
        }
    }
}

/// Whether the list holds this exact string.
fn contains_string(v: &Vec<String>, s: &String) -> (r: bool)
    ensures
        r == spec_views(v@).contains(s@),
{
    let mut i: usize = 0;
    while i < v.len()
        invariant
            0 <= i <= v@.len(),
            forall|k: int| 0 <= k < i ==> spec_views(v@)[k] != s@,
        decreases v@.len() - i,
    {
        if v[i] == *s {
            proof {
                assert(spec_views(v@)[i as int] == s@);
            }
            return true;
        }
        i += 1;
    }
    proof {
        assert(forall|k: int| 0 <= k < spec_views(v@).len() ==> spec_views(v@)[k] != s@);
    }
    false
}

/// Copy a list of strings.
fn clone_strings(v: &Vec<String>) -> (r: Vec<String>)
    ensures
        spec_views(r@) == spec_views(v@),
{
    let mut r: Vec<String> = Vec::new();
    let mut i: usize = 0;
    while i < v.len()
        invariant
            0 <= i <= v@.len(),
            r@.len() == i,
            forall|k: int| 0 <= k < i ==> spec_views(r@)[k] == spec_views(v@)[k],
        decreases v@.len() - i,
    {
        r.push(v[i].clone());
        i += 1;
    }
    proof {
        assert(spec_views(r@) =~= spec_views(v@));
    }
    r
}

/// Select the packages to build, or report the first unknown project.
pub fn select_packages(requested: &Vec<String>, all: bool, known: &Vec<String>) -> (r: Result<
    Vec<String>,
    PlanError,
>)
    ensures
        match r {
            Result::Ok(sel) => spec_select_packages(
                spec_views(requested@),
                all,
                spec_views(known@),
            ) == Result::<Seq<Seq<char>>, Seq<char>>::Ok(spec_views(sel@)),
            Result::Err(e) => {
                &&& e matches PlanError::UnknownProject(p) && spec_select_packages(
                    spec_views(requested@),
                    all,
                    spec_views(known@),
                ) == Result::<Seq<Seq<char>>, Seq<char>>::Err(p@)
            },
        },
{
    let ghost rv = spec_views(requested@);
    let ghost kv = spec_views(known@);
    if all || requested.len() == 0 {
        return Result::Ok(clone_strings(known));
    }
    let mut i: usize = 0;
    proof {
        assert(rv.skip(0) =~= rv);
    }
    while i < requested.len()
        invariant
            0 <= i <= requested@.len(),
            rv == spec_views(requested@),
            kv == spec_views(known@),
            rv.len() > 0,
            !all,
            spec_first_unknown(rv, kv) == spec_first_unknown(rv.skip(i as int), kv),
            forall|k: int| 0 <= k < i ==> kv.contains(rv[k]),
        decreases requested@.len() - i,
    {
        proof {
            assert(rv.skip(i as int).first() == rv[i as int]);
            assert(rv.skip(i as int).drop_first() =~= rv.skip(i as int + 1));
        }
        if !contains_string(known, &requested[i]) {
            proof {
                assert(spec_views(requested@)[i as int] == requested@[i as int]@);
                assert(spec_first_unknown(rv.skip(i as int), kv) == Option::<Seq<char>>::Some(
                    rv[i as int],
                ));
                assert(spec_select_packages(rv, all, kv) == Result::<
                    Seq<Seq<char>>,
                    Seq<char>,
                >::Err(rv[i as int]));
            }
            let offender = requested[i].clone();
            proof {
                assert(offender@ == rv[i as int]);
            }
            return Result::Err(PlanError::UnknownProject(offender));
        }
        i += 1;
    }
    proof {
        assert(rv.skip(rv.len() as int) =~= Seq::<Seq<char>>::empty());
    }
    Result::Ok(clone_strings(requested))
}

/// Assemble the build configuration from the parts the unverified edge
/// collected: the subcommand word, each option with its environment
/// fallbacks, and the requested project names against the known ones.
pub fn config_from_parts(
    subcommand: String,
    cli_target: Option<String>,
    env_build_target: Option<String>,
    cli_target_dir: Option<String>,
    env_target_dir: Option<String>,
    env_build_target_dir: Option<String>,
    release: bool,
    all: bool,
    requested: &Vec<String>,
    known: &Vec<String>,
) -> (r: Result<Config, PlanError>)
    ensures
        match r {
            Result::Ok(c) => {
                &&& c.subcommand@ == subcommand@
                &&& c.target@ == spec_resolve_target(
                    spec_opt_view(cli_target),
                    spec_opt_view(env_build_target),
                )
                &&& c.target_dir@ == spec_resolve_target_dir(
                    spec_opt_view(cli_target_dir),
                    spec_opt_view(env_target_dir),
                    spec_opt_view(env_build_target_dir),
                )
                &&& c.release == release
                &&& spec_select_packages(spec_views(requested@), all, spec_views(known@))
                    == Result::<Seq<Seq<char>>, Seq<char>>::Ok(spec_views(c.packages@))
            },
            Result::Err(e) => {
                &&& e matches PlanError::UnknownProject(p) && spec_select_packages(
                    spec_views(requested@),
                    all,
                    spec_views(known@),
                ) == Result::<Seq<Seq<char>>, Seq<char>>::Err(p@)
            },
        },
{
    let packages = match select_packages(requested, all, known) {
        Result::Ok(sel) => sel,
        Result::Err(e) => {
            return Result::Err(e);
        },
    };
    let target = resolve_target(cli_target, env_build_target);
    let target_dir = resolve_target_dir(cli_target_dir, env_target_dir, env_build_target_dir);
    Result::Ok(Config { subcommand, target, target_dir, release, packages })
}

/// The help screen: the option summary the parser rendered, followed by
/// the subcommand list.
pub fn help_text(usage: String) -> (r: String)
    ensures
        r@ == usage@ + "
     Subcomands are:
         build   build lv2 project(s)

"@,
{
    let mut r = usage;
    r.append(
        "
     Subcomands are:
         build   build lv2 project(s)

",
    );
    r
}

/// The profile directory under the artifact directory.
pub fn profile_dir(release: bool) -> (r: &'static str)
    ensures
        release ==> r@ == "release"@,
        !release ==> r@ == "debug"@,
{
    if release {
        "release"
    } else {
        "debug"
    }
}

/// The platform naming convention for a built library file.
#[derive(Clone, Copy, Debug, PartialEq, Eq, Structural)]
pub enum LibKind {
    /// `lib` prefix, `.so` suffix.
    Unix,
    /// `lib` prefix, `.dylib` suffix.
    Apple,
    /// no prefix, `.dll` suffix.
    Windows,
}

/// Which naming convention a build uses: decided by the target triple's
/// marker when one is given, by the host otherwise.
pub open spec fn spec_lib_kind(
    target_bytes: Seq<u8>,
    host_apple: bool,
    host_windows: bool,
) -> LibKind {
    if spec_contains_sub(target_bytes, ("apple").spec_bytes()) {
        LibKind::Apple
    } else if spec_contains_sub(target_bytes, ("windows").spec_bytes()) {
        LibKind::Windows
    } else if host_apple {
        LibKind::Apple
    } else if host_windows {
        LibKind::Windows
    } else {
        LibKind::Unix
    }
}

impl LibKind {
    /// The file-name prefix of this convention.
    pub open spec fn spec_prefix(self) -> Seq<char> {
        match self {
            LibKind::Windows => ""@,
            _ => "lib"@,
        }
    }

    /// The file-name suffix of this convention.
    pub open spec fn spec_suffix(self) -> Seq<char> {
        match self {
            LibKind::Unix => ".so"@,
            LibKind::Apple => ".dylib"@,
            LibKind::Windows => ".dll"@,
        }
    }
}

/// Decide the naming convention for the given target triple, with the
/// host's convention (as two flags) as the fallback.
pub fn lib_kind(target: &str, host_apple: bool, host_windows: bool) -> (k: LibKind)
    ensures
        k == spec_lib_kind(target.spec_bytes(), host_apple, host_windows),
{
    if contains_sub(target.as_bytes(), "apple".as_bytes()) {
        LibKind::Apple
    } else if contains_sub(target.as_bytes(), "windows".as_bytes()) {
        LibKind::Windows
    } else if host_apple {
        LibKind::Apple
    } else if host_windows {
        LibKind::Windows
    } else {
        LibKind::Unix
    }
}

/// The library file-name prefix for a target triple, host convention as
/// fallback.
pub fn lib_prefix(target: &str, host_apple: bool, host_windows: bool) -> (r: &'static str)
    ensures
        r@ == spec_lib_kind(target.spec_bytes(), host_apple, host_windows).spec_prefix(),
{
    match lib_kind(target, host_apple, host_windows) {
        LibKind::Windows => "",
        _ => "lib",
    }
}

/// The library file-name suffix for a target triple, host convention as
/// fallback.
pub fn lib_suffix(target: &str, host_apple: bool, host_windows: bool) -> (r: &'static str)
    ensures
        r@ == spec_lib_kind(target.spec_bytes(), host_apple, host_windows).spec_suffix(),
{
    match lib_kind(target, host_apple, host_windows) {
        LibKind::Unix => ".so",
        LibKind::Apple => ".dylib",
        LibKind::Windows => ".dll",
    }
}

/// The file name of a built library: prefix, stem, suffix concatenated.
pub fn lib_file_name(prefix: &str, stem: &str, suffix: &str) -> (r: String)
    ensures
        r@ == prefix@ + stem@ + suffix@,
{
    let mut r = String::from_str(prefix);
    r.append(stem);
    r.append(suffix);
    r
}

/// The `-p NAME` pairs for the selected packages, in order.
pub open spec fn spec_package_args(packages: Seq<Seq<char>>) -> Seq<Seq<char>>
    decreases packages.len(),
{
    if packages.len() == 0 {
        Seq::<Seq<char>>::empty()
    } else {
        seq!["-p"@, packages.first()] + spec_package_args(packages.drop_first())
    }
}

/// Selecting one more package appends its `-p NAME` pair at the end.
proof fn lemma_package_args_push(packages: Seq<Seq<char>>, p: Seq<char>)
    ensures
        spec_package_args(packages.push(p)) == spec_package_args(packages) + seq!["-p"@, p],
    decreases packages.len(),
{
    if packages.len() == 0 {
        assert(packages.push(p).drop_first() =~= Seq::<Seq<char>>::empty());
        assert(packages.push(p).first() == p);
        assert(spec_package_args(Seq::<Seq<char>>::empty()) == Seq::<Seq<char>>::empty());
        assert(spec_package_args(packages.push(p)) == seq!["-p"@, p]
            + Seq::<Seq<char>>::empty());
        assert(seq!["-p"@, p] + Seq::<Seq<char>>::empty() =~= spec_package_args(packages) + seq![
            "-p"@,
            p,
        ]);
    } else {
        let tail = packages.drop_first();
        assert(packages.push(p).first() == packages.first());
        assert(packages.push(p).drop_first() =~= tail.push(p));
        lemma_package_args_push(tail, p);
        assert(spec_package_args(packages.push(p)) == seq!["-p"@, packages.first()] + (
        spec_package_args(tail) + seq!["-p"@, p]));
        assert(seq!["-p"@, packages.first()] + (spec_package_args(tail) + seq!["-p"@, p]) =~= (
        seq!["-p"@, packages.first()] + spec_package_args(tail)) + seq!["-p"@, p]);
    }
}

/// The exact argument list handed to the build tool for a build run:
/// the optimization flag if requested, the target pair when a triple is
/// given, the artifact-directory pair, then one `-p NAME` pair per
/// selected package.
pub open spec fn spec_cargo_build_args(
    release: bool,
    target: Seq<char>,
    target_dir: Seq<char>,
    packages: Seq<Seq<char>>,
) -> Seq<Seq<char>> {
    (if release {
        seq!["--release"@]
    } else {
        Seq::<Seq<char>>::empty()
    }) + (if target.len() > 0 {
        seq!["--target"@, target]
    } else {
        Seq::<Seq<char>>::empty()
    }) + seq!["--target-dir"@, target_dir] + spec_package_args(packages)
}

/// Build the argument list for a build run.
pub fn cargo_build_args(
    release: bool,
    target: &String,
    target_dir: &String,
    packages: &Vec<String>,
) -> (r: Vec<String>)
    ensures
        spec_views(r@) == spec_cargo_build_args(
            release,
            target@,
            target_dir@,
            spec_views(packages@),
        ),
{
    let ghost expected_base = (if release {
        seq!["--release"@]
    } else {
        Seq::<Seq<char>>::empty()
    }) + (if target@.len() > 0 {
        seq!["--target"@, target@]
    } else {
        Seq::<Seq<char>>::empty()
    }) + seq!["--target-dir"@, target_dir@];
    let mut args: Vec<String> = Vec::new();
    if release {
        args.push(String::from_str("--release"));
    }
    if !target.as_str().is_empty() {
        proof {
            lemma_encode_utf8_empty(target@);
        }
        args.push(String::from_str("--target"));
        args.push(target.clone());
    } else {
        proof {
            lemma_encode_utf8_empty(target@);
        }
    }
    args.push(String::from_str("--target-dir"));
    args.push(target_dir.clone());
    proof {
        assert(spec_views(args@) =~= expected_base);
    }
    let ghost pv = spec_views(packages@);
    let mut i: usize = 0;
    proof {
        assert(pv.take(0) =~= Seq::<Seq<char>>::empty());
        assert(expected_base + spec_package_args(pv.take(0)) =~= expected_base);
    }
    while i < packages.len()
        invariant
            0 <= i <= packages@.len(),
            pv == spec_views(packages@),
            spec_views(args@) == expected_base + spec_package_args(pv.take(i as int)),
        decreases packages@.len() - i,
    {
        let ghost pre = spec_views(args@);
        args.push(String::from_str("-p"));
        args.push(packages[i].clone());
        i += 1;
        proof {
            assert(spec_views(args@) =~= pre + seq!["-p"@, pv[i - 1]]);
            lemma_package_args_push(pv.take(i - 1), pv[i - 1]);
            assert(pv.take(i - 1).push(pv[i - 1]) =~= pv.take(i as int));
            assert(expected_base + (spec_package_args(pv.take(i - 1)) + seq!["-p"@, pv[i - 1]])
                =~= (expected_base + spec_package_args(pv.take(i - 1))) + seq!["-p"@, pv[i - 1]]);
        }
    }
    proof {
        assert(pv.take(pv.len() as int) =~= pv);
        assert(spec_cargo_build_args(release, target@, target_dir@, pv) == expected_base
            + spec_package_args(pv));
    }
    args
}

} // verus!
