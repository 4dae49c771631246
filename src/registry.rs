use crate::error::SemverError;
use vstd::prelude::*;

verus! {

/// How many search results are asked of the registry.
pub const SEARCH_WINDOW: u32 = 1;

/// A registry search result: a crate's name and its greatest published version.
#[derive(Clone, Debug)]
pub struct CrateSummary {
    pub name: String,
    pub max_version: String,
}

/// Picks the first candidate named exactly `name`; a partial match counts as
/// none and fails with `NoMatch`.
pub fn find_exact_match(candidates: &Vec<CrateSummary>, name: &str) -> (r: Result<
    CrateSummary,
    SemverError,
>)
    ensures
        r matches Ok(c) ==> exists|i: int|
            0 <= i < candidates@.len() && candidates@[i].name@ == name@ && c.name@ == name@
                && c.max_version@ == candidates@[i].max_version@ && forall|j: int|
                0 <= j < i ==> #[trigger] candidates@[j].name@ != name@,
        r is Err ==> r == Err::<CrateSummary, SemverError>(SemverError::NoMatch) && forall|i: int|
            0 <= i < candidates@.len() ==> #[trigger] candidates@[i].name@ != name@,
{
    let wanted = name.to_owned();
    let mut i: usize = 0;
    while i < candidates.len()
        invariant
            wanted@ == name@,
            forall|j: int| 0 <= j < i ==> #[trigger] candidates@[j].name@ != name@,
        decreases candidates.len() - i,
    {
        if candidates[i].name == wanted {
            return Ok(
                CrateSummary {
                    name: candidates[i].name.clone(),
                    max_version: candidates[i].max_version.clone(),
                },
            );
        }
        i = i + 1;
    }
    Err(SemverError::NoMatch)
}

/// What a remote resolution does before it downloads.
#[derive(Clone, Copy, Debug, PartialEq, Eq, Structural)]
pub struct RemoteFetch {
    /// Take the package-cache lock and refresh the registry index.
    pub refresh_index: bool,
}

/// Online, the index is refreshed under the cache lock; offline it is not.
pub fn plan_remote_fetch(offline: bool) -> (r: RemoteFetch)
    ensures
        r.refresh_index == !offline,
{
    RemoteFetch { refresh_index: !offline }
}

/// The outcome of downloading a pinned package. Offline, a package that the
/// local cache does not hold fails with `RegistryUnavailable`, never with a
/// stale substitute; online, one the registry does not hold fails with
/// `PackageNotFound`.
pub fn conclude_download(offline: bool, obtained: bool) -> (r: Result<(), SemverError>)
    ensures
        r is Ok <==> obtained,
        !obtained && offline ==> r == Err::<(), SemverError>(SemverError::RegistryUnavailable),
        !obtained && !offline ==> r == Err::<(), SemverError>(SemverError::PackageNotFound),
{
    if obtained {
        Ok(())
    } else if offline {
        Err(SemverError::RegistryUnavailable)
    } else {
        Err(SemverError::PackageNotFound)
    }
}

} // verus!
