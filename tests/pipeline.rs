use semver_lanes::capture::VecWrite;
use semver_lanes::error::SemverError;
use semver_lanes::json::Json;
use semver_lanes::identity::{resolve_old_and_new, resolve_public, ExternCrateRef};
use semver_lanes::lane::BuildLane;
use semver_lanes::launch::{
    analysis_env, analysis_outcome, driver_args, comparison_args, comparison_stub, debug_line, public_args,
    public_stub, AnalysisConfig,
};
use semver_lanes::orchestrate::{split_features, LaneBuild};
use semver_lanes::package::PackageNameAndVersion;
use semver_lanes::plan::{is_library_kind, BuildPlan, Invocation, ResolvedArtifact};
use semver_lanes::registry::{conclude_download, find_exact_match, plan_remote_fetch, CrateSummary};
use semver_lanes::sources::{PackageSource, SourceArgs};

fn inv(name: &str, kinds: &[&str], outputs: &[&str]) -> Invocation {
    Invocation {
        package_name: name.to_string(),
        target_kind: kinds.iter().map(|k| k.to_string()).collect(),
        outputs: outputs.iter().map(|o| o.to_string()).collect(),
    }
}

fn artifact(lib: &str, deps: &str) -> ResolvedArtifact {
    ResolvedArtifact {
        library_path: lib.to_string(),
        dependency_search_path: deps.to_string(),
    }
}

fn strings(v: &[&str]) -> Vec<String> {
    v.iter().map(|s| s.to_string()).collect()
}

const PLAN: &str = r#"{"invocations": [
  {"package_name": "serde", "target_kind": ["lib"], "outputs": ["/t/deps/libserde.rmeta"], "args": []},
  {"package_name": "foo", "target_kind": ["custom-build"], "outputs": ["/t/build/foo/build-script"]},
  {"package_name": "foo", "target_kind": ["lib"], "outputs": ["/t/deps/libfoo-new.rmeta", "/t/deps/other"]},
  {"package_name": "foo", "target_kind": ["rlib"], "outputs": ["/t/deps/second.rmeta"]}
]}"#;

#[test]
fn parse_splits_name_and_version() {
    let p = PackageNameAndVersion::parse("foo:1.2.0").unwrap();
    assert_eq!(p.name, "foo");
    assert_eq!(p.version, "1.2.0");
}

#[test]
fn parse_allows_empty_parts() {
    let p = PackageNameAndVersion::parse(":").unwrap();
    assert_eq!(p.name, "");
    assert_eq!(p.version, "");
    let q = PackageNameAndVersion::parse("foo:").unwrap();
    assert_eq!(q.name, "foo");
    assert_eq!(q.version, "");
}

#[test]
fn parse_rejects_missing_or_extra_colons() {
    assert_eq!(PackageNameAndVersion::parse("foo").unwrap_err(), SemverError::InvalidPackageSpec);
    assert_eq!(PackageNameAndVersion::parse("").unwrap_err(), SemverError::InvalidPackageSpec);
    assert_eq!(
        PackageNameAndVersion::parse("foo:1:2").unwrap_err(),
        SemverError::InvalidPackageSpec
    );
}

#[test]
fn lane_tags_always_differ() {
    assert_eq!(BuildLane::Current.tag(), "new");
    assert_eq!(BuildLane::Stable.tag(), "old");
    assert_ne!(BuildLane::Current.tag(), BuildLane::Stable.tag());
    assert_eq!(BuildLane::Current.rustflags(), "-C metadata=new");
    assert_eq!(BuildLane::Stable.rustflags(), "-C metadata=old");
}

#[test]
fn missing_library_target_fails_before_building() {
    let r = LaneBuild::start("foo", BuildLane::Current, &vec![false, false]);
    assert_eq!(r.unwrap_err(), SemverError::MissingLibraryTarget);
    let r = LaneBuild::start("foo", BuildLane::Current, &vec![]);
    assert_eq!(r.unwrap_err(), SemverError::MissingLibraryTarget);
    let b = LaneBuild::start("foo", BuildLane::Stable, &vec![false, true]).unwrap();
    assert_eq!(b.name, "foo");
    assert_eq!(b.rustflags(), "-C metadata=old");
}

#[test]
fn empty_capture_is_unreadable() {
    assert_eq!(BuildPlan::decode(b"").unwrap_err(), SemverError::BuildPlanUnreadable);
    let capture = VecWrite::new();
    assert_eq!(capture.decode_plan().unwrap_err(), SemverError::BuildPlanUnreadable);
    let b = LaneBuild::start("foo", BuildLane::Current, &vec![true]).unwrap();
    assert_eq!(b.finish(&capture, "/t/deps".to_string()).unwrap_err(), SemverError::BuildPlanUnreadable);
}

#[test]
fn truncated_capture_is_unreadable() {
    for cut in [1, 10, PLAN.len() / 2, PLAN.len() - 1] {
        let bytes = &PLAN.as_bytes()[..cut];
        assert_eq!(BuildPlan::decode(bytes).unwrap_err(), SemverError::BuildPlanUnreadable);
    }
}

#[test]
fn plan_without_invocations_is_unreadable() {
    assert_eq!(BuildPlan::decode(b"{}").unwrap_err(), SemverError::BuildPlanUnreadable);
    assert_eq!(
        BuildPlan::decode(br#"{"invocations": [{"package_name": "foo"}]}"#).unwrap_err(),
        SemverError::BuildPlanUnreadable
    );
    assert_eq!(BuildPlan::decode(b"not json").unwrap_err(), SemverError::BuildPlanUnreadable);
}

#[test]
fn decode_reads_every_invocation() {
    let plan = BuildPlan::decode(PLAN.as_bytes()).unwrap();
    assert_eq!(plan.invocations.len(), 4);
    assert_eq!(plan.invocations[2].package_name, "foo");
    assert_eq!(plan.invocations[2].target_kind, strings(&["lib"]));
    assert_eq!(plan.invocations[2].outputs, strings(&["/t/deps/libfoo-new.rmeta", "/t/deps/other"]));
}

#[test]
fn library_kinds() {
    assert!(is_library_kind("lib"));
    assert!(is_library_kind("rlib"));
    assert!(is_library_kind("cdylib"));
    assert!(!is_library_kind("bin"));
    assert!(!is_library_kind("proc-macro"));
    assert!(!is_library_kind("li"));
    assert!(!is_library_kind(""));
}

#[test]
fn scan_returns_first_library_match() {
    let plan = BuildPlan::decode(PLAN.as_bytes()).unwrap();
    assert_eq!(plan.find_library_invocation("foo"), Some(2));
    assert_eq!(plan.library_output("foo").unwrap(), "/t/deps/libfoo-new.rmeta");
    assert_eq!(plan.library_output("serde").unwrap(), "/t/deps/libserde.rmeta");
    let a = plan.select_artifact("foo", "/t/deps".to_string()).unwrap();
    assert_eq!(a.library_path, "/t/deps/libfoo-new.rmeta");
    assert_eq!(a.dependency_search_path, "/t/deps");
    // the same plan gives the same answer again
    assert_eq!(plan.library_output("foo").unwrap(), "/t/deps/libfoo-new.rmeta");
}

#[test]
fn scan_reads_every_kind() {
    let plan = BuildPlan {
        invocations: vec![inv("foo", &["bin", "lib"], &["/t/a"]), inv("foo", &["lib"], &["/t/b"])],
    };
    assert_eq!(plan.library_output("foo").unwrap(), "/t/a");
    let only = BuildPlan { invocations: vec![inv("foo", &["bin", "lib"], &["x"])] };
    assert_eq!(only.library_output("foo").unwrap(), "x");
}

#[test]
fn scan_without_match_is_artifact_not_found() {
    let plan = BuildPlan { invocations: vec![inv("foo_renamed", &["lib"], &["/t/a"])] };
    assert_eq!(plan.find_library_invocation("foo"), None);
    assert_eq!(plan.library_output("foo").unwrap_err(), SemverError::ArtifactNotFound);
    let empty = BuildPlan { invocations: vec![] };
    assert_eq!(empty.library_output("foo").unwrap_err(), SemverError::ArtifactNotFound);
    let no_output = BuildPlan {
        invocations: vec![inv("foo", &["lib"], &[]), inv("foo", &["lib"], &["/t/b"])],
    };
    assert_eq!(no_output.library_output("foo").unwrap_err(), SemverError::ArtifactNotFound);
}

#[test]
fn capture_collects_writes() {
    let mut capture = VecWrite::new();
    assert_eq!(capture.read(), b"");
    assert_eq!(capture.write(b"{\"invocations\""), 14);
    assert_eq!(capture.write(b": []}"), 5);
    assert_eq!(capture.read(), b"{\"invocations\": []}");
    assert_eq!(capture.decode_plan().unwrap().invocations.len(), 0);
}

#[test]
fn lane_finish_selects_artifact() {
    let mut capture = VecWrite::new();
    capture.write(PLAN.as_bytes());
    let b = LaneBuild::start("foo", BuildLane::Current, &vec![true]).unwrap();
    let a = b.finish(&capture, "/t/deps".to_string()).unwrap();
    assert_eq!(a.library_path, "/t/deps/libfoo-new.rmeta");
    assert_eq!(a.dependency_search_path, "/t/deps");
    let other = LaneBuild::start("bar", BuildLane::Current, &vec![true]).unwrap();
    assert_eq!(other.finish(&capture, "/t/deps".to_string()).unwrap_err(), SemverError::ArtifactNotFound);
}

#[test]
fn identity_skips_transitive_and_injected() {
    let refs = vec![
        ExternCrateRef { is_direct: false, span_lo: 5 },
        ExternCrateRef { is_direct: true, span_lo: 0 },
        ExternCrateRef { is_direct: true, span_lo: 31 },
        ExternCrateRef { is_direct: true, span_lo: 79 },
    ];
    assert_eq!(resolve_old_and_new(&refs).unwrap(), (2, 3));
    assert_eq!(resolve_public(&refs).unwrap(), 2);
}

#[test]
fn identity_with_too_few_direct_refs() {
    let one = vec![ExternCrateRef { is_direct: false, span_lo: 3 }, ExternCrateRef { is_direct: true, span_lo: 31 }];
    assert_eq!(resolve_old_and_new(&one).unwrap_err(), SemverError::CrateNotFound);
    assert_eq!(resolve_public(&one).unwrap(), 1);
    let none = vec![ExternCrateRef { is_direct: false, span_lo: 3 }];
    assert_eq!(resolve_public(&none).unwrap_err(), SemverError::CrateNotFound);
    assert_eq!(resolve_old_and_new(&vec![]).unwrap_err(), SemverError::CrateNotFound);
}

#[test]
fn end_to_end_local_current_remote_stable() {
    let args = SourceArgs {
        stable_path: vec![],
        stable_pkg: strings(&["foo:1.2.0"]),
        current_path: strings(&["P"]),
        current_pkg: vec![],
    };
    args.validate_args().unwrap();
    match args.current_source().unwrap() {
        PackageSource::Local(p) => assert_eq!(p, "P"),
        other => panic!("unexpected {:?}", other),
    }
    match args.stable_source().unwrap() {
        PackageSource::Remote(p) => {
            assert_eq!(p.name, "foo");
            assert_eq!(p.version, "1.2.0");
        }
        other => panic!("unexpected {:?}", other),
    }
    let mut new_capture = VecWrite::new();
    new_capture.write(br#"{"invocations":[{"package_name":"foo","target_kind":["lib"],"outputs":["/n/libfoo.rmeta"]}]}"#);
    let mut old_capture = VecWrite::new();
    old_capture.write(br#"{"invocations":[{"package_name":"foo","target_kind":["lib"],"outputs":["/o/libfoo.rmeta"]}]}"#);
    let current = LaneBuild::start("foo", BuildLane::Current, &vec![true]).unwrap();
    let stable = LaneBuild::start("foo", BuildLane::Stable, &vec![true]).unwrap();
    let new = current.finish(&new_capture, "/n/deps".to_string()).unwrap();
    let old = stable.finish(&old_capture, "/o/deps".to_string()).unwrap();
    assert_eq!(
        comparison_args(&old, &new, &None),
        strings(&[
            "--crate-type=lib",
            "--extern",
            "old=/o/libfoo.rmeta",
            "-L/o/deps",
            "--extern",
            "new=/n/libfoo.rmeta",
            "-L/n/deps",
            "-"
        ])
    );
    assert_eq!(
        comparison_stub(),
        "#[allow(unused_extern_crates)] extern crate old; #[allow(unused_extern_crates)] extern crate new;"
    );
}

#[test]
fn comparison_args_with_target() {
    let old = artifact("/o/l", "/o/d");
    let new = artifact("/n/l", "/n/d");
    let args = comparison_args(&old, &new, &Some("x86_64-unknown-linux-gnu".to_string()));
    assert_eq!(args[7], "--target");
    assert_eq!(args[8], "x86_64-unknown-linux-gnu");
    assert_eq!(args[9], "-");
    assert_eq!(args.len(), 10);
    assert_eq!(debug_line(&old, &new), "--extern old=/o/l -L/o/d --extern new=/n/l -L/n/d");
}

#[test]
fn public_surface_protocol() {
    let new = artifact("/n/l", "/n/d");
    assert_eq!(public_args(&new, &None), strings(&["--crate-type=lib", "--extern", "new=/n/l", "-L/n/d", "-"]));
    assert_eq!(public_stub(), "#[allow(unused_extern_crates)] extern crate new;");
}

#[test]
fn environment_channels() {
    let config = AnalysisConfig {
        stable_version: "1.2.0".to_string(),
        explain: true,
        compact: false,
        json: false,
        api_guidelines: true,
    };
    let env = analysis_env(&config);
    let expected: Vec<(String, String)> = vec![
        ("RUST_SEMVER_CRATE_VERSION".to_string(), "1.2.0".to_string()),
        ("RUST_SEMVER_VERBOSE".to_string(), "true".to_string()),
        ("RUST_SEMVER_COMPACT".to_string(), "false".to_string()),
        ("RUST_SEMVER_JSON".to_string(), "false".to_string()),
        ("RUST_SEMVER_API_GUIDELINES".to_string(), "true".to_string()),
    ];
    assert_eq!(env, expected);
}

#[test]
fn analysis_exit_status() {
    assert_eq!(analysis_outcome(true), Ok(()));
    assert_eq!(analysis_outcome(false), Err(SemverError::AnalysisFailed));
}

#[test]
fn offline_fetch_never_uses_stale_cache() {
    assert!(!plan_remote_fetch(true).refresh_index);
    assert!(plan_remote_fetch(false).refresh_index);
    assert_eq!(conclude_download(true, false), Err(SemverError::RegistryUnavailable));
    assert_eq!(conclude_download(false, false), Err(SemverError::PackageNotFound));
    assert_eq!(conclude_download(true, true), Ok(()));
}

#[test]
fn registry_requires_exact_name() {
    let found = vec![
        CrateSummary { name: "foo-bar".to_string(), max_version: "0.3.0".to_string() },
        CrateSummary { name: "foo".to_string(), max_version: "1.2.0".to_string() },
        CrateSummary { name: "foo".to_string(), max_version: "9.9.9".to_string() },
    ];
    let c = find_exact_match(&found, "foo").unwrap();
    assert_eq!(c.max_version, "1.2.0");
    assert_eq!(find_exact_match(&found, "fo").unwrap_err(), SemverError::NoMatch);
    assert_eq!(find_exact_match(&vec![], "foo").unwrap_err(), SemverError::NoMatch);
}

#[test]
fn conflicting_sources_are_refused() {
    let mut args = SourceArgs {
        stable_path: strings(&["a"]),
        stable_pkg: strings(&["foo:1.0.0"]),
        current_path: strings(&["b", "c"]),
        current_pkg: vec![],
    };
    assert_eq!(args.validate_args(), Err(SemverError::ConflictingStableSource));
    args.stable_pkg.clear();
    assert_eq!(args.validate_args(), Err(SemverError::ConflictingCurrentSource));
    args.current_path.pop();
    assert_eq!(args.validate_args(), Ok(()));
}

#[test]
fn default_sources() {
    let args = SourceArgs { stable_path: vec![], stable_pkg: vec![], current_path: vec![], current_pkg: vec![] };
    assert!(matches!(args.current_source().unwrap(), PackageSource::WorkingDirectory));
    assert!(matches!(args.stable_source().unwrap(), PackageSource::LatestPublished));
    let bad = SourceArgs { stable_path: vec![], stable_pkg: strings(&["foo"]), current_path: vec![], current_pkg: vec![] };
    assert_eq!(bad.stable_source().unwrap_err(), SemverError::InvalidPackageSpec);
}

#[test]
fn features_split_at_spaces() {
    assert_eq!(split_features("serde derive"), strings(&["serde", "derive"]));
    assert_eq!(split_features("std"), strings(&["std"]));
    assert_eq!(split_features(""), strings(&[""]));
    assert_eq!(split_features("a  b"), strings(&["a", "", "b"]));
}

#[test]
fn identity_follows_source_offsets() {
    let refs = vec![
        ExternCrateRef { is_direct: true, span_lo: 79 },
        ExternCrateRef { is_direct: false, span_lo: 5 },
        ExternCrateRef { is_direct: true, span_lo: 31 },
    ];
    assert_eq!(resolve_old_and_new(&refs).unwrap(), (2, 0));
    assert_eq!(resolve_public(&refs).unwrap(), 2);
}

fn jstr(s: &str) -> Json {
    Json::Str(s.to_string())
}

fn jarr(items: &[&str]) -> Json {
    Json::Array(items.iter().map(|s| jstr(s)).collect())
}

#[test]
fn plan_from_json_document() {
    let invocation = Json::Object(vec![
        ("args".to_string(), Json::Array(vec![])),
        ("outputs".to_string(), jarr(&["/t/libfoo.rmeta"])),
        ("package_name".to_string(), jstr("foo")),
        ("target_kind".to_string(), jarr(&["bin", "lib"])),
    ]);
    let doc = Json::Object(vec![("invocations".to_string(), Json::Array(vec![invocation]))]);
    let plan = BuildPlan::from_json(&doc).unwrap();
    assert_eq!(plan.invocations.len(), 1);
    assert_eq!(plan.invocations[0].package_name, "foo");
    assert_eq!(plan.invocations[0].target_kind, strings(&["bin", "lib"]));
    assert_eq!(plan.library_output("foo").unwrap(), "/t/libfoo.rmeta");
}

#[test]
fn plan_from_json_refuses_other_shapes() {
    assert_eq!(BuildPlan::from_json(&Json::Null).unwrap_err(), SemverError::BuildPlanUnreadable);
    let not_array = Json::Object(vec![("invocations".to_string(), jstr("x"))]);
    assert_eq!(BuildPlan::from_json(&not_array).unwrap_err(), SemverError::BuildPlanUnreadable);
    let bad_kind = Json::Object(vec![(
        "invocations".to_string(),
        Json::Array(vec![Json::Object(vec![
            ("package_name".to_string(), jstr("foo")),
            ("target_kind".to_string(), Json::Array(vec![Json::Number("1".to_string())])),
            ("outputs".to_string(), jarr(&[])),
        ])]),
    )]);
    assert_eq!(BuildPlan::from_json(&bad_kind).unwrap_err(), SemverError::BuildPlanUnreadable);
    let empty = Json::Object(vec![("invocations".to_string(), Json::Array(vec![]))]);
    assert_eq!(BuildPlan::from_json(&empty).unwrap().invocations.len(), 0);
}

#[test]
fn one_byte_capture_is_unreadable() {
    assert_eq!(BuildPlan::decode(b"{").unwrap_err(), SemverError::BuildPlanUnreadable);
}

#[test]
fn driver_arguments() {
    let root = "/sys".to_string();
    assert_eq!(driver_args(&strings(&["drv"]), false, &root), None);
    assert_eq!(
        driver_args(&strings(&["drv", "/bin/rustc", "-", "--crate-type=lib"]), true, &root).unwrap(),
        strings(&["drv", "-", "--crate-type=lib", "--sysroot", "/sys"])
    );
    assert_eq!(
        driver_args(&strings(&["drv", "--sysroot", "/mine"]), false, &root).unwrap(),
        strings(&["drv", "--sysroot", "/mine"])
    );
    assert_eq!(
        driver_args(&strings(&["drv", "rustc"]), true, &root).unwrap(),
        strings(&["drv", "--sysroot", "/sys"])
    );
}
