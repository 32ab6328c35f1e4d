//! The relay engine's bookkeeping: which half of which stream to shut
//! down when one copy direction ends, and when the whole session is
//! complete. The byte copying itself is I/O and happens outside; the
//! decisions here are what make the half-close correct.

use vstd::prelude::*;

verus! {

/// The socket halves an ended direction asks the relay loop to close.
#[derive(Clone, Copy, PartialEq, Eq, Structural, Debug)]
pub struct ShutdownPlan {
    pub close_client_read: bool,
    pub close_client_write: bool,
    pub close_dest_read: bool,
    pub close_dest_write: bool,
}

/// The open/closed state of the four stream halves of one session, and
/// which of the two copy directions have ended. Both directions run
/// concurrently; each owns a disjoint read-half/write-half pair, and
/// these flags are the only thing they share.
#[derive(Clone, Copy, PartialEq, Eq, Structural, Debug)]
pub struct RelayState {
    pub client_read_open: bool,
    pub client_write_open: bool,
    pub dest_read_open: bool,
    pub dest_write_open: bool,
    /// The client-to-destination direction has seen end-of-stream or failed.
    pub forward_done: bool,
    /// The destination-to-client direction has seen end-of-stream or failed.
    pub backward_done: bool,
}

/// The transition taken when the client-to-destination direction ends:
/// its own pair (client read, destination write) closes, the other
/// direction's pair is untouched.
pub open spec fn forward_end_transition(pre: RelayState, post: RelayState) -> bool {
    &&& post.forward_done
    &&& !post.client_read_open
    &&& !post.dest_write_open
    &&& post.client_write_open == pre.client_write_open
    &&& post.dest_read_open == pre.dest_read_open
    &&& post.backward_done == pre.backward_done
}

/// The transition taken when the destination-to-client direction ends:
/// its own pair (destination read, client write) closes, the other
/// direction's pair is untouched.
pub open spec fn backward_end_transition(pre: RelayState, post: RelayState) -> bool {
    &&& post.backward_done
    &&& !post.dest_read_open
    &&& !post.client_write_open
    &&& post.client_read_open == pre.client_read_open
    &&& post.dest_write_open == pre.dest_write_open
    &&& post.forward_done == pre.forward_done
}

impl RelayState {
    /// The relay invariant: a direction that has ended has closed its
    /// own read half and write half.
    pub open spec fn wf(self) -> bool {
        &&& (self.forward_done ==> !self.client_read_open && !self.dest_write_open)
        &&& (self.backward_done ==> !self.dest_read_open && !self.client_write_open)
    }

    /// A freshly established relay: all four halves open, neither
    /// direction ended.
    pub fn start() -> (r: RelayState)
        ensures
            r.client_read_open && r.client_write_open,
            r.dest_read_open && r.dest_write_open,
            !r.forward_done && !r.backward_done,
            r.wf(),
    {
        RelayState {
            client_read_open: true,
            client_write_open: true,
            dest_read_open: true,
            dest_write_open: true,
            forward_done: false,
            backward_done: false,
        }
    }

    /// The client stopped sending (end-of-stream, or an I/O failure in
    /// that direction): close the client's read half and the
    /// destination's write half, so the destination sees end-of-stream,
    /// and leave the other direction draining.
    pub fn on_forward_end(&mut self) -> (plan: ShutdownPlan)
        ensures
            forward_end_transition(*old(self), *final(self)),
            old(self).wf() ==> final(self).wf(),
            plan.close_client_read && plan.close_dest_write,
            !plan.close_client_write && !plan.close_dest_read,
    {
        self.forward_done = true;
        self.client_read_open = false;
        self.dest_write_open = false;
        ShutdownPlan {
            close_client_read: true,
            close_client_write: false,
            close_dest_read: false,
            close_dest_write: true,
        }
    }

    /// The destination stopped sending: close the destination's read
    /// half and the client's write half, and leave the client-to-
    /// destination direction draining.
    pub fn on_backward_end(&mut self) -> (plan: ShutdownPlan)
        ensures
            backward_end_transition(*old(self), *final(self)),
            old(self).wf() ==> final(self).wf(),
            plan.close_dest_read && plan.close_client_write,
            !plan.close_client_read && !plan.close_dest_write,
    {
        self.backward_done = true;
        self.dest_read_open = false;
        self.client_write_open = false;
        ShutdownPlan {
            close_client_read: false,
            close_client_write: true,
            close_dest_read: true,
            close_dest_write: false,
        }
    }

    /// The session is over once both directions have ended.
    pub open spec fn complete(self) -> bool {
        self.forward_done && self.backward_done
    }

    /// True once both directions have ended.
    pub fn is_complete(&self) -> (r: bool)
        ensures
            r == self.complete(),
    {
        self.forward_done && self.backward_done
    }
}

} // verus!
