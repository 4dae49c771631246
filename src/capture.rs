use crate::error::SemverError;
use crate::json::parsed_json;
use crate::plan::{decodes, BuildPlan};
use vstd::prelude::*;

verus! {

/// An in-memory output sink that collects what the build system writes during
/// a planning pass. It is an owned value, handed by reference to whatever
/// writes into it.
#[derive(Clone, Debug)]
pub struct VecWrite {
    buf: Vec<u8>,
}

impl View for VecWrite {
    type V = Seq<u8>;

    closed spec fn view(&self) -> Seq<u8> {
        self.buf@
    }
}

impl VecWrite {
    /// An empty capture buffer.
    pub fn new() -> (r: VecWrite)
        ensures
            r@ == Seq::<u8>::empty(),
    {
        VecWrite { buf: Vec::new() }
    }

    /// Everything written so far.
    pub fn read(&self) -> (r: &[u8])
        ensures
            r@ == self@,
    {
        self.buf.as_slice()
    }

    /// Appends `data` and reports that all of it was taken.
    pub fn write(&mut self, data: &[u8]) -> (n: usize)
        ensures
            final(self)@ == old(self)@ + data@,
            n == data@.len(),
    {
        let mut i: usize = 0;
        while i < data.len()
            invariant
                i <= data@.len(),
                self@ == old(self)@ + data@.subrange(0, i as int),
            decreases data.len() - i,
        {
            self.buf.push(data[i]);
            i = i + 1;
            proof {
                assert(data@.subrange(0, i as int) =~= data@.subrange(0, i - 1) + seq![data@[i - 1]]);
            }
        }
        proof {
            assert(data@.subrange(0, i as int) =~= data@);
        }
        data.len()
    }

    /// Decodes what was captured as a build plan.
    pub fn decode_plan(&self) -> (r: Result<BuildPlan, SemverError>)
        ensures
            decodes(parsed_json(self@), r),
            self@.len() == 0 ==> r == Err::<BuildPlan, SemverError>(SemverError::BuildPlanUnreadable),
    {
        BuildPlan::decode(self.read())
    }
}

} // verus!
