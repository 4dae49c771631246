use crate::error::SemverError;
use vstd::prelude::*;

verus! {

/// An external crate as the analysis process sees it after elaboration.
#[derive(Clone, Copy, Debug, PartialEq, Eq, Structural)]
pub struct ExternCrateRef {
    /// Declared by the compiled source itself rather than pulled in by a
    /// dependency.
    pub is_direct: bool,
    /// Source offset of the declaration; zero for references the compiler
    /// injected without a textual location.
    pub span_lo: u64,
}

/// A reference that the synthetic stub introduced.
pub open spec fn is_stub_declared(r: ExternCrateRef) -> bool {
    r.is_direct && r.span_lo > 0
}

/// Reference `a` comes before reference `b` in source order; equal offsets
/// keep the order of the list.
pub open spec fn precedes(refs: Seq<ExternCrateRef>, a: int, b: int) -> bool {
    refs[a].span_lo < refs[b].span_lo || (refs[a].span_lo == refs[b].span_lo && a < b)
}

/// `o` is the first stub-declared reference in source order.
pub open spec fn is_first_declared(refs: Seq<ExternCrateRef>, o: int) -> bool {
    &&& 0 <= o < refs.len()
    &&& is_stub_declared(refs[o])
    &&& forall|k: int|
        0 <= k < refs.len() && k != o && is_stub_declared(#[trigger] refs[k]) ==> precedes(
            refs,
            o,
            k,
        )
}

/// `n` is the second stub-declared reference in source order, after `o`.
pub open spec fn is_second_declared(refs: Seq<ExternCrateRef>, o: int, n: int) -> bool {
    &&& 0 <= n < refs.len()
    &&& n != o
    &&& is_stub_declared(refs[n])
    &&& forall|k: int|
        0 <= k < refs.len() && k != o && k != n && is_stub_declared(#[trigger] refs[k])
            ==> precedes(refs, n, k)
}

/// The first and the second stub-declared reference in source order, if
/// there are that many.
fn earliest_two(refs: &Vec<ExternCrateRef>) -> (r: (Option<usize>, Option<usize>))
    ensures
        r.0 matches Some(o) ==> is_first_declared(refs@, o as int),
        r.0 is None ==> forall|k: int|
            0 <= k < refs@.len() ==> !is_stub_declared(#[trigger] refs@[k]),
        r.1 matches Some(n) ==> (r.0 matches Some(o) && is_second_declared(
            refs@,
            o as int,
            n as int,
        )),
        r.1 is None ==> (r.0 matches Some(o) ==> forall|k: int|
            0 <= k < refs@.len() && k != o ==> !is_stub_declared(#[trigger] refs@[k])),
{
    let mut best: Option<usize> = None;
    let mut second: Option<usize> = None;
    let mut i: usize = 0;
    while i < refs.len()
        invariant
            i <= refs@.len(),
            best is None ==> second is None && forall|k: int|
                0 <= k < i ==> !is_stub_declared(#[trigger] refs@[k]),
            best matches Some(b) ==> b < i && is_stub_declared(refs@[b as int]) && forall|k: int|
                0 <= k < i && k != b && is_stub_declared(#[trigger] refs@[k]) ==> precedes(
                    refs@,
                    b as int,
                    k,
                ),
            second is None ==> (best matches Some(b) ==> forall|k: int|
                0 <= k < i && k != b ==> !is_stub_declared(#[trigger] refs@[k])),
            second matches Some(s) ==> (best matches Some(b) && s < i && s != b
                && is_stub_declared(refs@[s as int]) && forall|k: int|
                0 <= k < i && k != b && k != s && is_stub_declared(#[trigger] refs@[k])
                    ==> precedes(refs@, s as int, k)),
        decreases refs.len() - i,
    {
        let r = refs[i];
        if r.is_direct && r.span_lo > 0 {
            match best {
                None => {
                    best = Some(i);
                },
                Some(b) => {
                    if r.span_lo < refs[b].span_lo {
                        second = Some(b);
                        best = Some(i);
                    } else {
                        match second {
                            None => {
                                second = Some(i);
                            },
                            Some(s) => {
                                if r.span_lo < refs[s].span_lo {
                                    second = Some(i);
                                }
                            },
                        }
                    }
                },
            }
        }
        i = i + 1;
    }
    (best, second)
}

/// Binds `old` and `new`: the first and the second reference that the stub
/// introduced, in source order. Transitive and compiler-injected references
/// are skipped. Fails with `CrateNotFound` where there are fewer than two.
pub fn resolve_old_and_new(refs: &Vec<ExternCrateRef>) -> (r: Result<(usize, usize), SemverError>)
    ensures
        r matches Ok((o, n)) ==> is_first_declared(refs@, o as int) && is_second_declared(
            refs@,
            o as int,
            n as int,
        ),
        r is Err ==> r == Err::<(usize, usize), SemverError>(SemverError::CrateNotFound)
            && forall|a: int, b: int|
            0 <= a < b < refs@.len() ==> !(is_stub_declared(#[trigger] refs@[a])
                && is_stub_declared(#[trigger] refs@[b])),
{
    match earliest_two(refs) {
        (Some(o), Some(n)) => Ok((o, n)),
        (first, _) => {
            proof {
                assert forall|a: int, b: int| 0 <= a < b < refs@.len() implies !(is_stub_declared(
                    #[trigger] refs@[a],
                ) && is_stub_declared(#[trigger] refs@[b])) by {
                    if first is None {
                        assert(!is_stub_declared(refs@[a]));
                    } else if a != first->0 {
                        assert(!is_stub_declared(refs@[a]));
                    } else {
                        assert(!is_stub_declared(refs@[b]));
                    }
                }
            }
            Err(SemverError::CrateNotFound)
        },
    }
}

/// Binds `new` for a public-surface run: the first reference that the stub
/// introduced, in source order. Fails with `CrateNotFound` where there is none.
pub fn resolve_public(refs: &Vec<ExternCrateRef>) -> (r: Result<usize, SemverError>)
    ensures
        r matches Ok(i) ==> is_first_declared(refs@, i as int),
        r is Err ==> r == Err::<usize, SemverError>(SemverError::CrateNotFound) && forall|k: int|
            0 <= k < refs@.len() ==> !is_stub_declared(#[trigger] refs@[k]),
{
    match earliest_two(refs).0 {
        Some(i) => Ok(i),
        None => Err(SemverError::CrateNotFound),
    }
}

} // verus!
