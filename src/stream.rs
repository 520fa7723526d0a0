//! Streams of device work, and events that order work across streams.
use vstd::prelude::*;

verus! {

/// Stream creation flag: the stream synchronises with the default stream.
pub const STREAM_DEFAULT: u32 = 0;

/// Stream creation flag: the stream does not synchronise with the default stream.
pub const STREAM_NON_BLOCKING: u32 = 1;

/// A queue of device work.
#[derive(Debug)]
pub struct Stream {
    handle: u64,
    non_blocking: bool,
}

/// A marker in a stream's work. Until it is first recorded, waiting on it
/// orders nothing.
#[derive(Debug)]
pub struct Event {
    handle: u64,
    flags: u32,
    recorded_on: Option<u64>,
}

/// The creation flags of a stream.
pub open spec fn stream_flags_of(non_blocking: bool) -> u32 {
    if non_blocking { STREAM_NON_BLOCKING } else { STREAM_DEFAULT }
}

impl Stream {
    /// The native handle.
    pub closed spec fn handle(&self) -> u64 {
        self.handle
    }

    /// Whether the stream was created non-blocking.
    pub closed spec fn is_non_blocking(&self) -> bool {
        self.non_blocking
    }

    /// The flags with which to ask the driver for a stream.
    pub fn creation_flags(non_blocking: bool) -> (r: u32)
        ensures
            r == stream_flags_of(non_blocking),
    {
        if non_blocking { STREAM_NON_BLOCKING } else { STREAM_DEFAULT }
    }

    /// The blocking stream `handle`, created with `STREAM_DEFAULT`.
    pub fn blocking(handle: u64) -> (r: Stream)
        ensures
            r.handle() == handle,
            !r.is_non_blocking(),
    {
        Stream { handle, non_blocking: false }
    }

    /// The non-blocking stream `handle`, created with `STREAM_NON_BLOCKING`.
    pub fn non_blocking(handle: u64) -> (r: Stream)
        ensures
            r.handle() == handle,
            r.is_non_blocking(),
    {
        Stream { handle, non_blocking: true }
    }

    /// The native handle.
    pub fn get_ptr(&self) -> (r: u64)
        ensures
            r == self.handle(),
    {
        self.handle
    }

    /// The flags that this stream was created with.
    pub fn flags(&self) -> (r: u32)
        ensures
            r == stream_flags_of(self.is_non_blocking()),
    {
        Self::creation_flags(self.non_blocking)
    }

    /// Makes work enqueued on this stream from now on wait for `event`: the
    /// result is the stream whose work up to the event's last record it waits
    /// for, or `None` where the event was never recorded.
    pub fn wait(&self, event: &Event) -> (r: Option<u64>)
        ensures
            r == event.recorded_on(),
    {
        event.recorded_on
    }
}

impl Event {
    /// The native handle.
    pub closed spec fn handle(&self) -> u64 {
        self.handle
    }

    /// The creation flags.
    pub closed spec fn spec_flags(&self) -> u32 {
        self.flags
    }

    /// The stream on which the event was last recorded.
    pub closed spec fn recorded_on(&self) -> Option<u64> {
        self.recorded_on
    }

    /// The event `handle`, created with `flags`; not yet recorded.
    pub fn new(handle: u64, flags: u32) -> (r: Event)
        ensures
            r.handle() == handle,
            r.spec_flags() == flags,
            r.recorded_on() == None::<u64>,
    {
        Event { handle, flags, recorded_on: None }
    }

    /// The native handle.
    pub fn get_ptr(&self) -> (r: u64)
        ensures
            r == self.handle(),
    {
        self.handle
    }

    /// The creation flags.
    pub fn flags(&self) -> (r: u32)
        ensures
            r == self.spec_flags(),
    {
        self.flags
    }

    /// Marks the current tail of `stream`'s work. A new record replaces the
    /// last one.
    pub fn record(&mut self, stream: &Stream)
        ensures
            final(self).handle() == old(self).handle(),
            final(self).spec_flags() == old(self).spec_flags(),
            final(self).recorded_on() == Some(stream.handle()),
    {
        self.recorded_on = Some(stream.handle);
    }
}

} // verus!
