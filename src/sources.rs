use crate::error::SemverError;
use crate::package::{splits_as, is_name_version, PackageNameAndVersion};
use vstd::prelude::*;

verus! {

/// Where the two revisions come from, as given on the command line: every
/// occurrence of each of the four options, in order.
#[derive(Clone, Debug)]
pub struct SourceArgs {
    pub stable_path: Vec<String>,
    pub stable_pkg: Vec<String>,
    pub current_path: Vec<String>,
    pub current_pkg: Vec<String>,
}

/// Where one revision of the package is taken from.
#[derive(Clone, Debug)]
pub enum PackageSource {
    /// A `name:version` fetched from the registry.
    Remote(PackageNameAndVersion),
    /// A local manifest path.
    Local(String),
    /// The workspace around the working directory.
    WorkingDirectory,
    /// The latest version the registry publishes under the current name.
    LatestPublished,
}

/// A path and a package given together, or either given twice.
pub open spec fn conflicting(paths: int, pkgs: int) -> bool {
    (paths > 0 && pkgs > 0) || paths > 1 || pkgs > 1
}

/// `r` is what `pkgs` and `paths` select: the package if any, else the path
/// if any, else `fallback`.
pub open spec fn selects(
    r: Result<PackageSource, SemverError>,
    paths: Seq<String>,
    pkgs: Seq<String>,
    fallback: PackageSource,
) -> bool {
    if pkgs.len() > 0 {
        if is_name_version(pkgs[0]@) {
            r matches Ok(PackageSource::Remote(p)) && splits_as(pkgs[0]@, p.name@, p.version@)
        } else {
            r == Err::<PackageSource, SemverError>(SemverError::InvalidPackageSpec)
        }
    } else if paths.len() > 0 {
        r matches Ok(PackageSource::Local(p)) && p@ == paths[0]@
    } else {
        r == Ok::<PackageSource, SemverError>(fallback)
    }
}

fn select(paths: &Vec<String>, pkgs: &Vec<String>, fallback: PackageSource) -> (r: Result<
    PackageSource,
    SemverError,
>)
    ensures
        selects(r, paths@, pkgs@, fallback),
{
    if pkgs.len() > 0 {
        match PackageNameAndVersion::parse(pkgs[0].as_str()) {
            Ok(p) => Ok(PackageSource::Remote(p)),
            Err(e) => Err(e),
        }
    } else if paths.len() > 0 {
        Ok(PackageSource::Local(paths[0].clone()))
    } else {
        Ok(fallback)
    }
}

impl SourceArgs {
    /// At most one of the stable path and package may be given, once; likewise
    /// for the current ones. The stable side is checked first.
    pub fn validate_args(&self) -> (r: Result<(), SemverError>)
        ensures
            conflicting(self.stable_path@.len() as int, self.stable_pkg@.len() as int) ==> r
                == Err::<(), SemverError>(SemverError::ConflictingStableSource),
            !conflicting(self.stable_path@.len() as int, self.stable_pkg@.len() as int)
                && conflicting(self.current_path@.len() as int, self.current_pkg@.len() as int)
                ==> r == Err::<(), SemverError>(SemverError::ConflictingCurrentSource),
            r is Ok <==> !conflicting(self.stable_path@.len() as int, self.stable_pkg@.len() as int)
                && !conflicting(self.current_path@.len() as int, self.current_pkg@.len() as int),
    {
        let sp = self.stable_path.len();
        let sk = self.stable_pkg.len();
        let cp = self.current_path.len();
        let ck = self.current_pkg.len();
        if (sp > 0 && sk > 0) || sp > 1 || sk > 1 {
            Err(SemverError::ConflictingStableSource)
        } else if (cp > 0 && ck > 0) || cp > 1 || ck > 1 {
            Err(SemverError::ConflictingCurrentSource)
        } else {
            Ok(())
        }
    }

    /// The current revision: the given package, else the given path, else the
    /// working directory's workspace.
    pub fn current_source(&self) -> (r: Result<PackageSource, SemverError>)
        ensures
            selects(r, self.current_path@, self.current_pkg@, PackageSource::WorkingDirectory),
    {
        select(&self.current_path, &self.current_pkg, PackageSource::WorkingDirectory)
    }

    /// The stable revision: the given package, else the given path, else the
    /// latest version published under the current package's name.
    pub fn stable_source(&self) -> (r: Result<PackageSource, SemverError>)
        ensures
            selects(r, self.stable_path@, self.stable_pkg@, PackageSource::LatestPublished),
    {
        select(&self.stable_path, &self.stable_pkg, PackageSource::LatestPublished)
    }
}

} // verus!
