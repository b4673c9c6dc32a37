use vstd::prelude::*;
use std::collections::HashMap;

verus! {

/// What one non-blocking receive on a channel of new streams gave.
#[derive(Debug, Clone, Copy, PartialEq, Eq, Structural)]
pub enum Received {
    /// A stream arrived.
    Stream,
    /// Nothing is waiting.
    Empty,
    /// Every sender is gone.
    Disconnected,
}

/// What the poller does after one receive.
#[derive(Debug, Clone, Copy, PartialEq, Eq, Structural)]
pub enum Intake {
    /// Register the stream that arrived, then go on to the next step.
    Register,
    /// Go on to the next step.
    Skip,
    /// Stop polling for good.
    Exit,
}

/// The poller takes at most one new stream per channel and round, and stops
/// when a channel is disconnected.
pub fn intake(r: Received) -> (i: Intake)
    ensures
        i == match r {
            Received::Stream => Intake::Register,
            Received::Empty => Intake::Skip,
            Received::Disconnected => Intake::Exit,
        },
{
    match r {
        Received::Stream => Intake::Register,
        Received::Empty => Intake::Skip,
        Received::Disconnected => Intake::Exit,
    }
}

/// The streams a poller watches, by token: read streams, and write requests
/// (a stream with the data still to be written).
///
/// A read stream gets as token the number of read streams registered before
/// it, so read tokens are `0, 1, 2, ...` without gaps. A write request gets as
/// token the number of read streams too; a later write request with the same
/// token replaces an earlier one.
pub struct StreamRegistry<R, W> {
    streams: HashMap<usize, R>,
    w_streams: HashMap<usize, W>,
}

impl<R, W> StreamRegistry<R, W> {
    /// The read streams by token.
    pub closed spec fn read_streams(&self) -> Map<usize, R> {
        self.streams@
    }

    /// The write requests by token.
    pub closed spec fn write_streams(&self) -> Map<usize, W> {
        self.w_streams@
    }

    /// The read tokens are exactly `0 .. n` for `n` read streams.
    pub open spec fn wf(&self) -> bool {
        forall|t: usize|
            #[trigger] self.read_streams().contains_key(t) <==> t < self.read_streams().len()
    }

    /// Nothing registered.
    pub fn new() -> (r: Self)
        ensures
            r.wf(),
            r.read_streams() == Map::<usize, R>::empty(),
            r.write_streams() == Map::<usize, W>::empty(),
    {
        StreamRegistry { streams: HashMap::new(), w_streams: HashMap::new() }
    }

    /// Registers a read stream under the next read token, which it returns.
    pub fn add_read_stream(&mut self, stream: R) -> (token: usize)
        requires
            old(self).wf(),
        ensures
            final(self).wf(),
            token == old(self).read_streams().len(),
            !old(self).read_streams().contains_key(token),
            final(self).read_streams() == old(self).read_streams().insert(token, stream),
            final(self).write_streams() == old(self).write_streams(),
    {
        let token = self.streams.len();
        proof {
            assert(!self.read_streams().contains_key(token));
        }
        self.streams.insert(token, stream);
        proof {
            let m = self.read_streams();
            assert(m.dom() == old(self).read_streams().dom().insert(token));
            assert(m.len() == old(self).read_streams().len() + 1);
            assert forall|t: usize| #[trigger] m.contains_key(t) <==> t < m.len() by {
                if t == token {
                } else {
                    assert(m.contains_key(t) == old(self).read_streams().contains_key(t));
                }
            }
        }
        token
    }

    /// Registers a write request under the number of read streams, which it
    /// returns.
    pub fn add_write_stream(&mut self, info: W) -> (token: usize)
        requires
            old(self).wf(),
        ensures
            final(self).wf(),
            token == old(self).read_streams().len(),
            final(self).write_streams() == old(self).write_streams().insert(token, info),
            final(self).read_streams() == old(self).read_streams(),
    {
        let token = self.streams.len();
        self.w_streams.insert(token, info);
        assert(self.read_streams() == old(self).read_streams());
        token
    }

    /// For one readiness event on `token`: the read stream to schedule again
    /// when the event says readable and not read-closed, and the write request
    /// to schedule again when it says writable and not write-closed.
    ///
    /// An event that asks for a stream under a token that holds none is a
    /// caller error.
    pub fn on_event(
        &self,
        token: usize,
        readable: bool,
        read_closed: bool,
        writable: bool,
        write_closed: bool,
    ) -> (r: (Option<&R>, Option<&W>))
        requires
            readable && !read_closed ==> self.read_streams().contains_key(token),
            writable && !write_closed ==> self.write_streams().contains_key(token),
        ensures
            r.0 is Some <==> readable && !read_closed,
            r.0 matches Some(s) ==> *s == self.read_streams()[token],
            r.1 is Some <==> writable && !write_closed,
            r.1 matches Some(w) ==> *w == self.write_streams()[token],
    {
        let read = if readable && !read_closed {
            self.streams.get(&token)
        } else {
            None
        };
        let write = if writable && !write_closed {
            self.w_streams.get(&token)
        } else {
            None
        };
        (read, write)
    }

    /// Whether a read stream is registered under `token`.
    pub fn has_read_stream(&self, token: usize) -> (b: bool)
        ensures
            b == self.read_streams().contains_key(token),
    {
        self.streams.contains_key(&token)
    }

    /// Whether a write request is registered under `token`.
    pub fn has_write_stream(&self, token: usize) -> (b: bool)
        ensures
            b == self.write_streams().contains_key(token),
    {
        self.w_streams.contains_key(&token)
    }
}

} // verus!
