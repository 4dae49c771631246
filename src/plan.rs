use crate::error::SemverError;
use crate::json::{find_member, member, parse_json, parsed_json, Json};
use vstd::prelude::*;

verus! {

/// One compiler invocation of a build plan.
#[derive(Clone, Debug)]
pub struct Invocation {
    pub package_name: String,
    pub target_kind: Vec<String>,
    pub outputs: Vec<String>,
}

/// The compiler invocations that one build pass performs, in order.
#[derive(Clone, Debug)]
pub struct BuildPlan {
    pub invocations: Vec<Invocation>,
}

/// The final output of a lane: the library artifact and the directory its
/// dependencies were compiled into.
#[derive(Clone, Debug)]
pub struct ResolvedArtifact {
    pub library_path: String,
    pub dependency_search_path: String,
}

/// A target kind is library-like when `lib` occurs in it: `lib`, `rlib` and
/// `cdylib` are; `proc-macro` is not.
pub open spec fn is_lib_kind(k: Seq<char>) -> bool {
    exists|i: int| lib_at(k, i)
}

/// `lib` starts at position `i` of `k`.
pub open spec fn lib_at(k: Seq<char>, i: int) -> bool {
    0 <= i && i + 3 <= k.len() && k[i] == 'l' && k[i + 1] == 'i' && k[i + 2] == 'b'
}

/// Some kind in `kinds` is library-like.
pub open spec fn has_lib_kind(kinds: Seq<String>) -> bool {
    exists|j: int| 0 <= j < kinds.len() && is_lib_kind(#[trigger] kinds[j]@)
}

/// The invocation builds a library of the package `name`: one of its target
/// kinds is library-like.
pub open spec fn builds_library_of(inv: Invocation, name: Seq<char>) -> bool {
    &&& has_lib_kind(inv.target_kind@)
    &&& inv.package_name@ == name
}

/// Invocation `i` is the first in plan order that builds the library of `name`.
pub open spec fn is_first_library(invs: Seq<Invocation>, name: Seq<char>, i: int) -> bool {
    &&& 0 <= i < invs.len()
    &&& builds_library_of(invs[i], name)
    &&& forall|j: int| 0 <= j < i ==> !builds_library_of(#[trigger] invs[j], name)
}

/// Scanning is deterministic: a fixed plan has at most one first library
/// invocation for a package name, so every scan of it returns the same one.
pub proof fn lemma_first_library_unique(invs: Seq<Invocation>, name: Seq<char>, i: int, j: int)
    requires
        is_first_library(invs, name, i),
        is_first_library(invs, name, j),
    ensures
        i == j,
{
    if i < j {
        assert(!builds_library_of(invs[i], name));
    } else if j < i {
        assert(!builds_library_of(invs[j], name));
    }
}

/// Whether `lib` occurs in a target kind.
pub fn is_library_kind(k: &str) -> (r: bool)
    ensures
        r == is_lib_kind(k@),
{
    let len = k.unicode_len();
    let mut i: usize = 0;
    while i < len && len - i >= 3
        invariant
            len == k@.len(),
            i <= len,
            forall|j: int| 0 <= j < i ==> !#[trigger] lib_at(k@, j),
        decreases len - i,
    {
        if k.get_char(i) == 'l' && k.get_char(i + 1) == 'i' && k.get_char(i + 2) == 'b' {
            assert(lib_at(k@, i as int));
            return true;
        }
        i = i + 1;
    }
    assert forall|j: int| !#[trigger] lib_at(k@, j) by {
        if 0 <= j && j + 3 <= len {
            assert(j < i);
        }
    }
    false
}

/// Whether any of `kinds` is library-like.
pub fn has_library_kind(kinds: &Vec<String>) -> (r: bool)
    ensures
        r == has_lib_kind(kinds@),
{
    let mut j: usize = 0;
    while j < kinds.len()
        invariant
            forall|k: int| 0 <= k < j ==> !is_lib_kind(#[trigger] kinds@[k]@),
        decreases kinds.len() - j,
    {
        if is_library_kind(kinds[j].as_str()) {
            return true;
        }
        j = j + 1;
    }
    false
}

impl BuildPlan {
    /// The index of the first invocation that builds the library of `name`.
    pub fn find_library_invocation(&self, name: &str) -> (r: Option<usize>)
        ensures
            r matches Some(i) ==> is_first_library(self.invocations@, name@, i as int),
            r is None ==> forall|j: int|
                0 <= j < self.invocations@.len() ==> !builds_library_of(
                    #[trigger] self.invocations@[j],
                    name@,
                ),
    {
        let wanted = name.to_owned();
        let mut i: usize = 0;
        while i < self.invocations.len()
            invariant
                wanted@ == name@,
                forall|j: int| 0 <= j < i ==> !builds_library_of(#[trigger] self.invocations@[j], name@),
            decreases self.invocations.len() - i,
        {
            let inv = &self.invocations[i];
            if has_library_kind(&inv.target_kind) && inv.package_name == wanted {
                return Some(i);
            }
            i = i + 1;
        }
        None
    }

    /// The first declared output of the first invocation that builds the
    /// library of `name`. Fails with `ArtifactNotFound` where no invocation
    /// does, or where that invocation declares no output.
    pub fn library_output(&self, name: &str) -> (r: Result<String, SemverError>)
        ensures
            r matches Ok(p) ==> exists|i: int|
                is_first_library(self.invocations@, name@, i) && self.invocations@[i].outputs@.len()
                    > 0 && p@ == self.invocations@[i].outputs@[0]@,
            r is Err ==> r == Err::<String, SemverError>(SemverError::ArtifactNotFound) && forall|i: int|
                is_first_library(self.invocations@, name@, i)
                    ==> self.invocations@[i].outputs@.len() == 0,
    {
        match self.find_library_invocation(name) {
            Some(i) => {
                let inv = &self.invocations[i];
                proof {
                    assert forall|k: int| is_first_library(self.invocations@, name@, k) implies k
                        == i by {
                        lemma_first_library_unique(self.invocations@, name@, k, i as int);
                    }
                }
                if inv.outputs.len() > 0 {
                    Ok(inv.outputs[0].clone())
                } else {
                    Err(SemverError::ArtifactNotFound)
                }
            },
            None => Err(SemverError::ArtifactNotFound),
        }
    }
}


/// `j` is an array of strings.
pub open spec fn is_string_array(j: Json) -> bool {
    j matches Json::Array(items) && forall|i: int| 0 <= i < items@.len() ==> #[trigger] items@[i] is Str
}

/// `j` is an array of strings whose texts are `v`, in order.
pub open spec fn strings_of(j: Json, v: Seq<String>) -> bool {
    j matches Json::Array(items) && items@.len() == v.len() && forall|i: int|
        0 <= i < v.len() ==> #[trigger] items@[i] == Json::Str(v[i])
}

/// `j` is an object with a string `package_name` and string arrays
/// `target_kind` and `outputs`; other members do not matter.
pub open spec fn is_invocation_json(j: Json) -> bool {
    j matches Json::Object(fields) && (member(fields@, "package_name"@) matches Some(Json::Str(_)))
        && (member(fields@, "target_kind"@) matches Some(k) && is_string_array(k)) && (member(
        fields@,
        "outputs"@,
    ) matches Some(o) && is_string_array(o))
}

/// `inv` holds exactly the three members of the invocation object `j`.
pub open spec fn invocation_of(j: Json, inv: Invocation) -> bool {
    j matches Json::Object(fields) && member(fields@, "package_name"@) == Some(
        Json::Str(inv.package_name),
    ) && (member(fields@, "target_kind"@) matches Some(k) && strings_of(k, inv.target_kind@))
        && (member(fields@, "outputs"@) matches Some(o) && strings_of(o, inv.outputs@))
}

/// The items of the document's `invocations` array, if it is an object with one.
pub open spec fn invocation_items(doc: Json) -> Option<Seq<Json>> {
    match doc {
        Json::Object(fields) => match member(fields@, "invocations"@) {
            Some(Json::Array(items)) => Some(items@),
            _ => None,
        },
        _ => None,
    }
}

/// `doc` is a build plan: an `invocations` array of invocation objects.
pub open spec fn is_plan_json(doc: Json) -> bool {
    invocation_items(doc) matches Some(items) && forall|i: int|
        0 <= i < items.len() ==> is_invocation_json(#[trigger] items[i])
}

/// `plan` holds exactly the invocations of `doc`, in order.
pub open spec fn plan_of(doc: Json, plan: BuildPlan) -> bool {
    invocation_items(doc) matches Some(items) && items.len() == plan.invocations@.len() && forall|
        i: int,
    | 0 <= i < items.len() ==> invocation_of(#[trigger] items[i], plan.invocations@[i])
}

/// `r` is what decoding the parse result `doc` gives: the plan it holds, or
/// `BuildPlanUnreadable` where it is no document or no build plan.
pub open spec fn decodes(doc: Option<Json>, r: Result<BuildPlan, SemverError>) -> bool {
    match doc {
        Some(d) => if is_plan_json(d) {
            r matches Ok(p) && plan_of(d, p)
        } else {
            r == Err::<BuildPlan, SemverError>(SemverError::BuildPlanUnreadable)
        },
        None => r == Err::<BuildPlan, SemverError>(SemverError::BuildPlanUnreadable),
    }
}

/// `r` is the artifact that `plan` gives for `name`: the first library
/// output of the package, with the dependency directory.
pub open spec fn selects_artifact(
    plan: BuildPlan,
    name: Seq<char>,
    deps: Seq<char>,
    r: Result<ResolvedArtifact, SemverError>,
) -> bool {
    &&& r matches Ok(a) ==> a.dependency_search_path@ == deps && exists|i: int|
        is_first_library(plan.invocations@, name, i) && plan.invocations@[i].outputs@.len() > 0
            && a.library_path@ == plan.invocations@[i].outputs@[0]@
    &&& r is Err ==> r == Err::<ResolvedArtifact, SemverError>(SemverError::ArtifactNotFound)
        && forall|i: int|
        is_first_library(plan.invocations@, name, i) ==> plan.invocations@[i].outputs@.len() == 0
}

/// The strings of a JSON array of strings; `None` for anything else.
pub fn decode_strings(j: &Json) -> (r: Option<Vec<String>>)
    ensures
        r is Some <==> is_string_array(*j),
        r matches Some(v) ==> strings_of(*j, v@),
{
    match j {
        Json::Array(items) => {
            let mut out: Vec<String> = Vec::new();
            let mut i: usize = 0;
            assert(*j is Array && j->Array_0@ == items@);
            while i < items.len()
                invariant
                    *j is Array && j->Array_0@ == items@,
                    i <= items@.len(),
                    out@.len() == i,
                    forall|k: int| 0 <= k < i ==> #[trigger] items@[k] == Json::Str(out@[k]),
                decreases items.len() - i,
            {
                match &items[i] {
                    Json::Str(s) => out.push(s.clone()),
                    _ => {
                        assert(!((*j)->Array_0@[i as int] is Str));
                        return None;
                    },
                }
                i = i + 1;
            }
            Some(out)
        },
        _ => None,
    }
}

/// One invocation object; members other than the three read here are ignored.
pub fn decode_invocation(j: &Json) -> (r: Option<Invocation>)
    ensures
        r is Some <==> is_invocation_json(*j),
        r matches Some(inv) ==> invocation_of(*j, inv),
{
    let fields = match j {
        Json::Object(fields) => fields,
        _ => return None,
    };
    let package_name = match find_member(fields, "package_name") {
        Some(Json::Str(s)) => s.clone(),
        _ => return None,
    };
    let target_kind = match find_member(fields, "target_kind") {
        Some(m) => match decode_strings(m) {
            Some(ks) => ks,
            None => return None,
        },
        None => return None,
    };
    let outputs = match find_member(fields, "outputs") {
        Some(m) => match decode_strings(m) {
            Some(os) => os,
            None => return None,
        },
        None => return None,
    };
    Some(Invocation { package_name, target_kind, outputs })
}

impl BuildPlan {
    /// The build plan a JSON document holds: `{"invocations": [...]}`, each
    /// invocation with `package_name`, `target_kind` and `outputs`. Anything
    /// else fails with `BuildPlanUnreadable`.
    pub fn from_json(doc: &Json) -> (r: Result<BuildPlan, SemverError>)
        ensures
            decodes(Some(*doc), r),
    {
        let items = match doc {
            Json::Object(fields) => match find_member(fields, "invocations") {
                Some(Json::Array(items)) => items,
                _ => return Err(SemverError::BuildPlanUnreadable),
            },
            _ => return Err(SemverError::BuildPlanUnreadable),
        };
        let mut invocations: Vec<Invocation> = Vec::new();
        let mut i: usize = 0;
        while i < items.len()
            invariant
                invocation_items(*doc) == Some(items@),
                i <= items@.len(),
                invocations@.len() == i,
                forall|k: int| 0 <= k < i ==> is_invocation_json(#[trigger] items@[k]),
                forall|k: int| 0 <= k < i ==> invocation_of(#[trigger] items@[k], invocations@[k]),
            decreases items.len() - i,
        {
            match decode_invocation(&items[i]) {
                Some(inv) => invocations.push(inv),
                None => {
                    assert(!is_invocation_json(invocation_items(*doc)->0[i as int]));
                    return Err(SemverError::BuildPlanUnreadable);
                },
            }
            i = i + 1;
        }
        Ok(BuildPlan { invocations })
    }

    /// Decodes a captured build plan. Bytes that are no JSON document, or a
    /// document that is no build plan, fail with `BuildPlanUnreadable`; an
    /// empty capture always does. No partial plan is ever returned.
    pub fn decode(bytes: &[u8]) -> (r: Result<BuildPlan, SemverError>)
        ensures
            decodes(parsed_json(bytes@), r),
            bytes@.len() == 0 ==> r == Err::<BuildPlan, SemverError>(SemverError::BuildPlanUnreadable),
    {
        match parse_json(bytes) {
            Some(doc) => BuildPlan::from_json(&doc),
            None => Err(SemverError::BuildPlanUnreadable),
        }
    }

    /// The lane's artifact: the library output of `name` paired with the
    /// dependency directory of the build's target platform.
    pub fn select_artifact(&self, name: &str, dependency_search_path: String) -> (r: Result<
        ResolvedArtifact,
        SemverError,
    >)
        ensures
            selects_artifact(*self, name@, dependency_search_path@, r),
    {
        match self.library_output(name) {
            Ok(library_path) => Ok(ResolvedArtifact { library_path, dependency_search_path }),
            Err(e) => Err(e),
        }
    }
}

} // verus!
