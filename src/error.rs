use vstd::prelude::*;

verus! {

/// Every way in which one comparison run can fail. Each failure is terminal.
#[derive(Clone, Copy, Debug, PartialEq, Eq, Structural)]
pub enum SemverError {
    /// A package reference is not of the form `name:version`.
    InvalidPackageSpec,
    /// Both a stable path and a stable package were given, or one of them twice.
    ConflictingStableSource,
    /// Both a current path and a current package were given, or one of them twice.
    ConflictingCurrentSource,
    ManifestNotFound,
    ManifestInvalid,
    RegistryUnavailable,
    PackageNotFound,
    PackageIdInvalid,
    /// The registry search returned no candidate with exactly the requested name.
    NoMatch,
    MissingLibraryTarget,
    BuildFailed,
    ArtifactNotFound,
    BuildPlanUnreadable,
    SpawnFailed,
    PipeUnavailable,
    AnalysisFailed,
    ChildWaitFailed,
    /// The analysis process found no directly declared crate to bind.
    CrateNotFound,
}

} // verus!
