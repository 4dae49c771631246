use crate::error::SemverError;
use vstd::prelude::*;

verus! {

/// A package's name and version, as given by a `name:version` reference.
#[derive(Clone, Debug)]
pub struct PackageNameAndVersion {
    /// The crate's name.
    pub name: String,
    /// The package's version, as a semver string.
    pub version: String,
}

pub open spec fn has_no_colon(x: Seq<char>) -> bool {
    forall|i: int| 0 <= i < x.len() ==> x[i] != ':'
}

/// `s` reads `name:version`, with no other colon in it.
pub open spec fn splits_as(s: Seq<char>, name: Seq<char>, version: Seq<char>) -> bool {
    s == name + seq![':'] + version && has_no_colon(name) && has_no_colon(version)
}

/// `s` holds exactly one colon.
pub open spec fn is_name_version(s: Seq<char>) -> bool {
    exists|name: Seq<char>, version: Seq<char>| splits_as(s, name, version)
}

proof fn lemma_split_unique(s: Seq<char>, name: Seq<char>, version: Seq<char>, k: int)
    requires
        splits_as(s, name, version),
        0 <= k < s.len(),
        s[k] == ':',
    ensures
        k == name.len(),
{
    if k < name.len() {
        assert(name[k] == s[k]);
    } else if k > name.len() {
        assert(version[k - name.len() - 1] == s[k]);
    }
}

impl PackageNameAndVersion {
    /// Parses the string `name:version`. Either part may be empty; any other
    /// number of colons than one is refused.
    pub fn parse(s: &str) -> (r: Result<PackageNameAndVersion, SemverError>)
        ensures
            r is Ok <==> is_name_version(s@),
            r matches Ok(p) ==> splits_as(s@, p.name@, p.version@),
            r matches Err(e) ==> e == SemverError::InvalidPackageSpec,
    {
        let len = s.unicode_len();
        let mut first: Option<usize> = None;
        let mut second: Option<usize> = None;
        let mut i: usize = 0;
        while i < len
            invariant_except_break
                second is None,
            invariant
                len == s@.len(),
                i <= len,
                first is None ==> forall|j: int| 0 <= j < i ==> s@[j] != ':',
                first matches Some(k) ==> k < i && s@[k as int] == ':' && (forall|j: int|
                    0 <= j < i && j != k ==> s@[j] != ':'),
            ensures
                second is None ==> i == len,
                second matches Some(j) ==> (first matches Some(k) && k < j < len && s@[j as int]
                    == ':'),
            decreases len - i,
        {
            if s.get_char(i) == ':' {
                if first.is_none() {
                    first = Some(i);
                } else {
                    second = Some(i);
                    break;
                }
            }
            i = i + 1;
        }
        match (first, second) {
            (Some(k), None) => {
                let name = s.substring_char(0, k).to_owned();
                let version = s.substring_char(k + 1, len).to_owned();
                proof {
                    assert(s@ =~= name@ + seq![':'] + version@);
                    assert(has_no_colon(name@)) by {
                        assert forall|j: int| 0 <= j < name@.len() implies name@[j] != ':' by {
                            assert(name@[j] == s@[j]);
                        }
                    }
                    assert(has_no_colon(version@)) by {
                        assert forall|j: int| 0 <= j < version@.len() implies version@[j]
                            != ':' by {
                            assert(version@[j] == s@[j + k + 1]);
                        }
                    }
                    assert(splits_as(s@, name@, version@));
                }
                Ok(PackageNameAndVersion { name, version })
            },
            (Some(k), Some(j)) => {
                proof {
                    if is_name_version(s@) {
                        let (n, v) = choose|n: Seq<char>, v: Seq<char>| splits_as(s@, n, v);
                        lemma_split_unique(s@, n, v, k as int);
                        lemma_split_unique(s@, n, v, j as int);
                    }
                }
                Err(SemverError::InvalidPackageSpec)
            },
            _ => {
                proof {
                    if is_name_version(s@) {
                        let (n, v) = choose|n: Seq<char>, v: Seq<char>| splits_as(s@, n, v);
                        assert(s@[n.len() as int] == ':');
                    }
                }
                Err(SemverError::InvalidPackageSpec)
            },
        }
    }
}

} // verus!
