use vstd::prelude::*;

verus! {

/// One of the two isolated build passes whose outputs are compared.
#[derive(Clone, Copy, Debug, PartialEq, Eq, Structural)]
pub enum BuildLane {
    /// The revision being checked for breaking changes.
    Current,
    /// The published revision it is compared against.
    Stable,
}

/// The build-identity tag of a lane. It is also the name under which the
/// lane's artifact is bound in the analysis process.
pub open spec fn lane_tag(lane: BuildLane) -> Seq<char> {
    match lane {
        BuildLane::Current => "new"@,
        BuildLane::Stable => "old"@,
    }
}

/// The compiler flags that carry a lane's build-identity tag.
pub open spec fn lane_rustflags(lane: BuildLane) -> Seq<char> {
    "-C metadata="@ + lane_tag(lane)
}

impl BuildLane {
    /// The lane's build-identity tag: `new` or `old`.
    pub fn tag(&self) -> (r: &'static str)
        ensures
            r@ == lane_tag(*self),
    {
        match self {
            BuildLane::Current => "new",
            BuildLane::Stable => "old",
        }
    }

    /// The value of `RUSTFLAGS` under which the lane is compiled.
    pub fn rustflags(&self) -> (r: String)
        ensures
            r@ == lane_rustflags(*self),
    {
        String::from_str("-C metadata=").concat(self.tag())
    }
}

/// Two different lanes never share a build-identity tag, so their compiled
/// artifacts cannot collide even when they are built from the same source:
/// the tag depends on the lane alone.
pub proof fn lemma_lane_tags_distinct(a: BuildLane, b: BuildLane)
    requires
        a != b,
    ensures
        lane_tag(a) != lane_tag(b),
        lane_rustflags(a) != lane_rustflags(b),
{
    reveal_strlit("new");
    reveal_strlit("old");
    assert(lane_tag(a)[0] != lane_tag(b)[0]);
    let p = "-C metadata="@;
    assert(lane_rustflags(a)[p.len() as int] == lane_tag(a)[0]);
    assert(lane_rustflags(b)[p.len() as int] == lane_tag(b)[0]);
}

} // verus!
