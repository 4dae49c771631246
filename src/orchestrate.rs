use crate::capture::VecWrite;
use crate::error::SemverError;
use crate::lane::{lane_rustflags, BuildLane};
use crate::json::{parsed_json, Json};
use crate::plan::{is_plan_json, plan_of, selects_artifact, BuildPlan, ResolvedArtifact};
use vstd::prelude::*;

verus! {

/// One lane's compilation of a resolved package, past its up-front check.
#[derive(Clone, Debug)]
pub struct LaneBuild {
    /// The package whose library is looked for in the build plan.
    pub name: String,
    pub lane: BuildLane,
}

/// Whether any declared target is a library.
pub open spec fn declares_library(targets_are_lib: Seq<bool>) -> bool {
    exists|i: int| 0 <= i < targets_are_lib.len() && targets_are_lib[i]
}

/// `r` is what a lane concludes from the parsed capture `doc`: the artifact
/// that the plan it holds gives for `name`, or `BuildPlanUnreadable` where
/// it holds none.
pub open spec fn concludes(
    doc: Option<Json>,
    name: Seq<char>,
    deps: Seq<char>,
    r: Result<ResolvedArtifact, SemverError>,
) -> bool {
    match doc {
        Some(d) => if is_plan_json(d) {
            exists|p: BuildPlan| plan_of(d, p) && selects_artifact(p, name, deps, r)
        } else {
            r == Err::<ResolvedArtifact, SemverError>(SemverError::BuildPlanUnreadable)
        },
        None => r == Err::<ResolvedArtifact, SemverError>(SemverError::BuildPlanUnreadable),
    }
}

impl LaneBuild {
    /// Starts a lane. A package that declares no library target fails with
    /// `MissingLibraryTarget` here, before anything is compiled: no build step
    /// can be reached without a `LaneBuild`.
    pub fn start(name: &str, lane: BuildLane, targets_are_lib: &Vec<bool>) -> (r: Result<
        LaneBuild,
        SemverError,
    >)
        ensures
            r is Ok <==> declares_library(targets_are_lib@),
            r matches Ok(b) ==> b.name@ == name@ && b.lane == lane,
            r is Err ==> r == Err::<LaneBuild, SemverError>(SemverError::MissingLibraryTarget),
    {
        let mut i: usize = 0;
        while i < targets_are_lib.len()
            invariant
                forall|j: int| 0 <= j < i ==> !targets_are_lib@[j],
            decreases targets_are_lib.len() - i,
        {
            if targets_are_lib[i] {
                return Ok(LaneBuild { name: name.to_owned(), lane });
            }
            i = i + 1;
        }
        Err(SemverError::MissingLibraryTarget)
    }

    /// The `RUSTFLAGS` value that both build passes of this lane run under.
    pub fn rustflags(&self) -> (r: String)
        ensures
            r@ == lane_rustflags(self.lane),
    {
        self.lane.rustflags()
    }

    /// Concludes the lane from the planning pass's capture and the dependency
    /// directory of the real pass. An empty or undecodable capture fails with
    /// `BuildPlanUnreadable`; a plan without the package's library fails with
    /// `ArtifactNotFound`.
    pub fn finish(&self, capture: &VecWrite, dependency_search_path: String) -> (r: Result<
        ResolvedArtifact,
        SemverError,
    >)
        ensures
            capture@.len() == 0 ==> r == Err::<ResolvedArtifact, SemverError>(
                SemverError::BuildPlanUnreadable,
            ),
            concludes(parsed_json(capture@), self.name@, dependency_search_path@, r),
    {
        match capture.decode_plan() {
            Ok(plan) => plan.select_artifact(self.name.as_str(), dependency_search_path),
            Err(e) => Err(e),
        }
    }
}

/// `pieces` joined with single spaces.
pub open spec fn join_spaced(pieces: Seq<Seq<char>>) -> Seq<char>
    decreases pieces.len(),
{
    if pieces.len() <= 1 {
        if pieces.len() == 1 {
            pieces[0]
        } else {
            Seq::empty()
        }
    } else {
        join_spaced(pieces.drop_last()) + seq![' '] + pieces.last()
    }
}

pub open spec fn has_no_space(x: Seq<char>) -> bool {
    forall|i: int| 0 <= i < x.len() ==> x[i] != ' '
}

proof fn lemma_join_extend_last(pieces: Seq<Seq<char>>, last: Seq<char>, c: char)
    ensures
        join_spaced(pieces.push(last.push(c))) == join_spaced(pieces.push(last)).push(c),
{
    assert(pieces.push(last.push(c)).drop_last() =~= pieces);
    assert(pieces.push(last).drop_last() =~= pieces);
    if pieces.len() == 0 {
    } else {
        assert(join_spaced(pieces.push(last.push(c))) == join_spaced(pieces) + seq![' '] + last.push(
            c,
        ));
        assert(join_spaced(pieces.push(last)) == join_spaced(pieces) + seq![' '] + last);
        assert(join_spaced(pieces) + seq![' '] + last.push(c) =~= (join_spaced(pieces) + seq![' ']
            + last).push(c));
    }
}

proof fn lemma_join_new_piece(pieces: Seq<Seq<char>>, last: Seq<char>)
    ensures
        join_spaced(pieces.push(last).push(Seq::empty())) == join_spaced(pieces.push(last)).push(
            ' ',
        ),
{
    let ps = pieces.push(last);
    assert(ps.push(Seq::<char>::empty()).drop_last() =~= ps);
    assert(join_spaced(ps) + seq![' '] + Seq::<char>::empty() =~= join_spaced(ps).push(' '));
}

/// The requested features: `list` cut at every space. Consecutive spaces give
/// empty names, as the build system's own splitting does.
pub fn split_features(list: &str) -> (r: Vec<String>)
    ensures
        r@.len() >= 1,
        join_spaced(r@.map_values(|s: String| s@)) == list@,
        forall|i: int| 0 <= i < r@.len() ==> has_no_space(#[trigger] r@[i]@),
{
    let len = list.unicode_len();
    let mut done: Vec<String> = Vec::new();
    let mut start: usize = 0;
    let mut i: usize = 0;
    while i < len
        invariant
            len == list@.len(),
            start <= i <= len,
            join_spaced(done@.map_values(|s: String| s@).push(list@.subrange(start as int, i as int)))
                == list@.subrange(0, i as int),
            forall|k: int| 0 <= k < done@.len() ==> has_no_space(#[trigger] done@[k]@),
            has_no_space(list@.subrange(start as int, i as int)),
        decreases len - i,
    {
        let c = list.get_char(i);
        let ghost words = done@.map_values(|s: String| s@);
        let ghost old_piece = list@.subrange(start as int, i as int);
        if c == ' ' {
            done.push(list.substring_char(start, i).to_owned());
            start = i + 1;
            proof {
                lemma_join_new_piece(words, old_piece);
                assert(done@.map_values(|s: String| s@) =~= words.push(old_piece));
                assert(list@.subrange(start as int, i + 1) =~= Seq::<char>::empty());
            }
        } else {
            proof {
                assert(list@.subrange(start as int, i + 1) =~= old_piece.push(c));
                lemma_join_extend_last(words, old_piece, c);
            }
        }
        proof {
            assert(list@.subrange(0, i + 1) =~= list@.subrange(0, i as int).push(c));
        }
        i = i + 1;
    }
    let ghost words = done@.map_values(|s: String| s@);
    let ghost last = list@.subrange(start as int, len as int);
    done.push(list.substring_char(start, len).to_owned());
    proof {
        assert(done@.map_values(|s: String| s@) =~= words.push(last));
        assert(list@.subrange(0, len as int) =~= list@);
    }
    done
}

} // verus!
