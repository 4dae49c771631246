use crate::error::SemverError;
use crate::lane::{lane_tag, BuildLane};
use crate::plan::ResolvedArtifact;
use vstd::prelude::*;

verus! {

/// What the analysis process is told out of band, through its environment.
#[derive(Clone, Debug)]
pub struct AnalysisConfig {
    /// The stable package's version, for report headers.
    pub stable_version: String,
    pub explain: bool,
    pub compact: bool,
    pub json: bool,
    /// Report only what the API guidelines count as breaking.
    pub api_guidelines: bool,
}

pub open spec fn strings_view(v: Seq<String>) -> Seq<Seq<char>> {
    v.map_values(|s: String| s@)
}

pub open spec fn pairs_view(v: Seq<(String, String)>) -> Seq<(Seq<char>, Seq<char>)> {
    v.map_values(|p: (String, String)| (p.0@, p.1@))
}

/// The arguments that bind a lane's artifact under the lane's tag.
pub open spec fn binding_args(lane: BuildLane, a: ResolvedArtifact) -> Seq<Seq<char>> {
    seq!["--extern"@, lane_tag(lane) + "="@ + a.library_path@, "-L"@ + a.dependency_search_path@]
}

pub open spec fn target_args(target: Option<Seq<char>>) -> Seq<Seq<char>> {
    match target {
        Some(t) => seq!["--target"@, t],
        None => Seq::empty(),
    }
}

/// The command line of a comparison: library-checking mode, `old` bound to
/// the stable artifact, then `new` to the current one, the optional target,
/// and source read from standard input.
pub open spec fn comparison_args_of(
    old: ResolvedArtifact,
    new: ResolvedArtifact,
    target: Option<Seq<char>>,
) -> Seq<Seq<char>> {
    seq!["--crate-type=lib"@] + binding_args(BuildLane::Stable, old) + binding_args(
        BuildLane::Current,
        new,
    ) + target_args(target) + seq!["-"@]
}

/// The command line that shows one crate's public surface.
pub open spec fn public_args_of(new: ResolvedArtifact, target: Option<Seq<char>>) -> Seq<
    Seq<char>,
> {
    seq!["--crate-type=lib"@] + binding_args(BuildLane::Current, new) + target_args(target)
        + seq!["-"@]
}

/// One declaration of the synthetic stub.
pub open spec fn extern_decl(name: Seq<char>) -> Seq<char> {
    "#[allow(unused_extern_crates)] extern crate "@ + name + ";"@
}

/// The stub fed to a comparison: `old` declared first, `new` second.
pub open spec fn comparison_stub_of() -> Seq<char> {
    extern_decl(lane_tag(BuildLane::Stable)) + " "@ + extern_decl(lane_tag(BuildLane::Current))
}

pub open spec fn bool_text(b: bool) -> Seq<char> {
    if b {
        "true"@
    } else {
        "false"@
    }
}

/// The five environment channels of the analysis process.
pub open spec fn analysis_env_of(c: AnalysisConfig) -> Seq<(Seq<char>, Seq<char>)> {
    seq![
        ("RUST_SEMVER_CRATE_VERSION"@, c.stable_version@),
        ("RUST_SEMVER_VERBOSE"@, bool_text(c.explain)),
        ("RUST_SEMVER_COMPACT"@, bool_text(c.compact)),
        ("RUST_SEMVER_JSON"@, bool_text(c.json)),
        ("RUST_SEMVER_API_GUIDELINES"@, bool_text(c.api_guidelines)),
    ]
}

/// The line printed instead of running the analysis, for debugging.
pub open spec fn debug_line_of(old: ResolvedArtifact, new: ResolvedArtifact) -> Seq<char> {
    "--extern old="@ + old.library_path@ + " -L"@ + old.dependency_search_path@
        + " --extern new="@ + new.library_path@ + " -L"@ + new.dependency_search_path@
}

fn push_binding(args: &mut Vec<String>, lane: BuildLane, a: &ResolvedArtifact)
    ensures
        strings_view(final(args)@) == strings_view(old(args)@) + binding_args(lane, *a),
{
    let ghost before = args@;
    args.push(String::from_str("--extern"));
    args.push(String::from_str(lane.tag()).concat("=").concat(a.library_path.as_str()));
    args.push(String::from_str("-L").concat(a.dependency_search_path.as_str()));
    assert(strings_view(args@) =~= strings_view(before) + binding_args(lane, *a));
}

fn push_target_and_stdin(args: &mut Vec<String>, target: &Option<String>)
    ensures
        strings_view(final(args)@) == strings_view(old(args)@) + target_args(
            match target {
                Some(t) => Some(t@),
                None => None,
            },
        ) + seq!["-"@],
{
    let ghost before = args@;
    match target {
        Some(t) => {
            args.push(String::from_str("--target"));
            args.push(t.clone());
        },
        None => {},
    }
    args.push(String::from_str("-"));
    assert(strings_view(args@) =~= strings_view(before) + target_args(
        match target {
            Some(t) => Some(t@),
            None => None,
        },
    ) + seq!["-"@]);
}

/// The analysis process's arguments for comparing `old` (stable) with `new`
/// (current).
pub fn comparison_args(old: &ResolvedArtifact, new: &ResolvedArtifact, target: &Option<String>) -> (r:
    Vec<String>)
    ensures
        strings_view(r@) == comparison_args_of(
            *old,
            *new,
            match target {
                Some(t) => Some(t@),
                None => None,
            },
        ),
{
    let mut args: Vec<String> = Vec::new();
    args.push(String::from_str("--crate-type=lib"));
    push_binding(&mut args, BuildLane::Stable, old);
    push_binding(&mut args, BuildLane::Current, new);
    push_target_and_stdin(&mut args, target);
    assert(strings_view(args@) =~= comparison_args_of(
        *old,
        *new,
        match target {
            Some(t) => Some(t@),
            None => None,
        },
    ));
    args
}

/// The arguments for showing the public surface of `new` alone.
pub fn public_args(new: &ResolvedArtifact, target: &Option<String>) -> (r: Vec<String>)
    ensures
        strings_view(r@) == public_args_of(
            *new,
            match target {
                Some(t) => Some(t@),
                None => None,
            },
        ),
{
    let mut args: Vec<String> = Vec::new();
    args.push(String::from_str("--crate-type=lib"));
    push_binding(&mut args, BuildLane::Current, new);
    push_target_and_stdin(&mut args, target);
    assert(strings_view(args@) =~= public_args_of(
        *new,
        match target {
            Some(t) => Some(t@),
            None => None,
        },
    ));
    args
}

/// One stub declaration that makes the crate `name` visible.
pub fn extern_declaration(name: &str) -> (r: String)
    ensures
        r@ == extern_decl(name@),
{
    String::from_str("#[allow(unused_extern_crates)] extern crate ").concat(name).concat(";")
}

/// The stub fed to a comparison's standard input.
pub fn comparison_stub() -> (r: String)
    ensures
        r@ == comparison_stub_of(),
{
    extern_declaration(BuildLane::Stable.tag()).concat(" ").concat(
        extern_declaration(BuildLane::Current.tag()).as_str(),
    )
}

/// The stub fed to a public-surface run.
pub fn public_stub() -> (r: String)
    ensures
        r@ == extern_decl(lane_tag(BuildLane::Current)),
{
    extern_declaration(BuildLane::Current.tag())
}

pub fn bool_value(b: bool) -> (r: &'static str)
    ensures
        r@ == bool_text(b),
{
    if b {
        "true"
    } else {
        "false"
    }
}

fn env_pair(key: &str, value: &str) -> (r: (String, String))
    ensures
        r.0@ == key@,
        r.1@ == value@,
{
    (key.to_owned(), value.to_owned())
}

/// The environment channels of the analysis process, in order.
pub fn analysis_env(config: &AnalysisConfig) -> (r: Vec<(String, String)>)
    ensures
        pairs_view(r@) == analysis_env_of(*config),
{
    let mut env: Vec<(String, String)> = Vec::new();
    env.push(env_pair("RUST_SEMVER_CRATE_VERSION", config.stable_version.as_str()));
    env.push(env_pair("RUST_SEMVER_VERBOSE", bool_value(config.explain)));
    env.push(env_pair("RUST_SEMVER_COMPACT", bool_value(config.compact)));
    env.push(env_pair("RUST_SEMVER_JSON", bool_value(config.json)));
    env.push(env_pair("RUST_SEMVER_API_GUIDELINES", bool_value(config.api_guidelines)));
    assert(pairs_view(env@) =~= analysis_env_of(*config));
    env
}

/// The bindings a comparison would use, as one line.
pub fn debug_line(old: &ResolvedArtifact, new: &ResolvedArtifact) -> (r: String)
    ensures
        r@ == debug_line_of(*old, *new),
{
    String::from_str("--extern old=").concat(old.library_path.as_str()).concat(" -L").concat(
        old.dependency_search_path.as_str(),
    ).concat(" --extern new=").concat(new.library_path.as_str()).concat(" -L").concat(
        new.dependency_search_path.as_str(),
    )
}

/// The stub declares the two crates in the order in which the command line
/// binds them: the stable artifact's name first, the current one's second.
/// The analysis process recovers which is which from that order alone.
pub proof fn lemma_stub_order_matches_bindings(
    old: ResolvedArtifact,
    new: ResolvedArtifact,
    target: Option<Seq<char>>,
)
    ensures
        comparison_args_of(old, new, target)[1] == "--extern"@,
        comparison_args_of(old, new, target)[2] == lane_tag(BuildLane::Stable) + "="@
            + old.library_path@,
        comparison_args_of(old, new, target)[4] == "--extern"@,
        comparison_args_of(old, new, target)[5] == lane_tag(BuildLane::Current) + "="@
            + new.library_path@,
        comparison_stub_of() == extern_decl(lane_tag(BuildLane::Stable)) + " "@ + extern_decl(
            lane_tag(BuildLane::Current),
        ),
{
}

/// The arguments a compiler driver keeps: a second argument naming `rustc`
/// (as a wrapper invocation passes it) is dropped.
pub open spec fn driver_kept_args(orig: Seq<Seq<char>>, second_is_rustc: bool) -> Seq<Seq<char>> {
    if second_is_rustc {
        seq![orig[0]] + orig.subrange(2, orig.len() as int)
    } else {
        orig
    }
}

/// The driver's arguments: the kept ones, with `--sysroot <root>` added
/// where no `--sysroot` is among them.
pub open spec fn driver_args_of(orig: Seq<Seq<char>>, second_is_rustc: bool, sys_root: Seq<char>) -> Seq<
    Seq<char>,
> {
    let kept = driver_kept_args(orig, second_is_rustc);
    if kept.contains("--sysroot"@) {
        kept
    } else {
        kept + seq!["--sysroot"@, sys_root]
    }
}

/// The arguments an analysis driver hands to the compiler, from its own
/// command line `orig` (program name first). `None` where there is nothing
/// but the program name: the driver then exits with failure.
pub fn driver_args(orig: &Vec<String>, second_is_rustc: bool, sys_root: &String) -> (r: Option<
    Vec<String>,
>)
    ensures
        r is None <==> orig@.len() <= 1,
        r matches Some(v) ==> strings_view(v@) == driver_args_of(
            strings_view(orig@),
            second_is_rustc,
            sys_root@,
        ),
{
    let len = orig.len();
    if len <= 1 {
        return None;
    }
    let ghost ov = strings_view(orig@);
    let start: usize = if second_is_rustc {
        2
    } else {
        1
    };
    let mut out: Vec<String> = Vec::new();
    out.push(orig[0].clone());
    let mut j: usize = start;
    while j < len
        invariant
            len == orig@.len(),
            ov == strings_view(orig@),
            start <= j <= len,
            strings_view(out@) == seq![ov[0]] + ov.subrange(start as int, j as int),
        decreases len - j,
    {
        let ghost before = out@;
        out.push(orig[j].clone());
        proof {
            assert(ov[j as int] == orig@[j as int]@);
            assert(strings_view(out@) =~= strings_view(before).push(ov[j as int]));
            assert(ov.subrange(start as int, j + 1) =~= ov.subrange(start as int, j as int).push(
                ov[j as int],
            ));
            assert(strings_view(out@) =~= seq![ov[0]] + ov.subrange(start as int, j + 1));
        }
        j = j + 1;
    }
    let ghost kept = strings_view(out@);
    proof {
        if second_is_rustc {
            assert(kept =~= driver_kept_args(ov, second_is_rustc));
        } else {
            assert(ov =~= seq![ov[0]] + ov.subrange(1, len as int));
            assert(kept =~= driver_kept_args(ov, second_is_rustc));
        }
    }
    let flag = String::from_str("--sysroot");
    let mut found = false;
    let mut k: usize = 0;
    while k < out.len()
        invariant
            kept == strings_view(out@),
            flag@ == "--sysroot"@,
            k <= out@.len(),
            found <==> exists|m: int| 0 <= m < k && kept[m] == "--sysroot"@,
        decreases out.len() - k,
    {
        assert(kept[k as int] == out@[k as int]@);
        if out[k] == flag {
            found = true;
        }
        k = k + 1;
    }
    proof {
        if found {
            let m = choose|m: int| 0 <= m < k && kept[m] == "--sysroot"@;
            assert(kept.contains("--sysroot"@));
        } else {
            assert(!kept.contains("--sysroot"@));
        }
    }
    if !found {
        out.push(flag);
        out.push(sys_root.clone());
        assert(strings_view(out@) =~= kept + seq!["--sysroot"@, sys_root@]);
    }
    Some(out)
}

/// A run succeeds exactly when the analysis process exits successfully.
pub fn analysis_outcome(exited_successfully: bool) -> (r: Result<(), SemverError>)
    ensures
        r is Ok <==> exited_successfully,
        r is Err ==> r == Err::<(), SemverError>(SemverError::AnalysisFailed),
{
    if exited_successfully {
        Ok(())
    } else {
        Err(SemverError::AnalysisFailed)
    }
}

} // verus!
