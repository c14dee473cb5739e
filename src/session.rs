//! The decisions of a device session that do not touch the port: which query
//! the polling cycle sends next, and when a cycle ends.
use vstd::prelude::*;

use crate::frame::{query_frame, write_code};
use crate::registry::{poll_order, spec_poll_order, ResponseKind};

verus! {

/// Where the polling cycle stands: the entry whose query goes out next.
pub struct PollCycle {
    order: Vec<ResponseKind>,
    position: usize,
}

impl PollCycle {
    #[verifier::type_invariant]
    spec fn well_formed(self) -> bool {
        &&& self.order@ == spec_poll_order()
        &&& self.position < self.order@.len()
    }

    /// Index, in the polling order, of the entry queried next.
    pub closed spec fn position(self) -> int {
        self.position as int
    }

    /// A cycle that starts with the first entry of the polling order.
    pub fn new() -> (r: PollCycle)
        ensures
            r.position() == 0,
    {
        PollCycle { order: poll_order(), position: 0 }
    }

    /// The query frame to send now, and whether it is the last of its cycle;
    /// after the last one the cycle starts over.
    pub fn next_query(&mut self) -> (r: (Vec<u8>, bool))
        ensures
            0 <= old(self).position() < spec_poll_order().len(),
            r.0@ == query_frame(spec_poll_order()[old(self).position()].code_bytes()),
            r.1 == (old(self).position() + 1 == spec_poll_order().len()),
            final(self).position() == (old(self).position() + 1) % (spec_poll_order().len() as int),
    {
        proof {
            use_type_invariant(&*self);
        }
        let code = self.order[self.position].code();
        let mut frame: Vec<u8> = Vec::new();
        write_code(&mut frame, code.as_slice());
        assert(frame@ =~= query_frame(code@));
        let last = self.position + 1 == self.order.len();
        if last {
            self.position = 0;
        } else {
            self.position = self.position + 1;
        }
        (frame, last)
    }
}

} // verus!
