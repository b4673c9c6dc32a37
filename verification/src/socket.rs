use vstd::prelude::*;

verus! {

/// What polling a socket future comes to.
#[derive(Debug, Clone, Copy, PartialEq, Eq, Structural)]
pub enum SocketStep {
    /// The future is complete.
    Ready,
    /// The future hands its socket to the poller, to be scheduled again once
    /// the socket is ready, and is pending.
    Reschedule,
}

/// The outcome of polling a reading future: a full read completes it; a
/// failed read hands the socket to the poller when the future may be
/// rescheduled, and completes it otherwise.
pub fn read_step(read_ok: bool, reshed: bool) -> (s: SocketStep)
    ensures
        s == (if !read_ok && reshed { SocketStep::Reschedule } else { SocketStep::Ready }),
{
    if read_ok {
        SocketStep::Ready
    } else if reshed {
        SocketStep::Reschedule
    } else {
        SocketStep::Ready
    }
}

/// The outcome of polling a writing future: a full write completes it; a
/// failed write hands the socket and its data to the poller.
pub fn write_step(write_ok: bool) -> (s: SocketStep)
    ensures
        s == (if write_ok { SocketStep::Ready } else { SocketStep::Reschedule }),
{
    if write_ok {
        SocketStep::Ready
    } else {
        SocketStep::Reschedule
    }
}

} // verus!
