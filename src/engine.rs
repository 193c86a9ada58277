//! The consumer-visible stream object that readers lock and read from.
//!
//! It keeps the state the consumer observes (readable, closed or errored),
//! the reader lock, whether any read was ever made, and the log of signals it
//! received from its source.

use vstd::prelude::*;

verus! {

/// An opaque reason carried by an errored stream; it is forwarded, never read.
#[derive(Clone, Copy, Debug, PartialEq, Eq, Structural)]
pub struct ErrorReason {
    pub code: u32,
}

/// The state of a stream as the consumer sees it.
#[derive(Clone, Copy, Debug, PartialEq, Eq, Structural)]
pub enum StreamState {
    Readable,
    Closed,
    Errored(ErrorReason),
}

/// A notification delivered to the consumer side.
#[derive(Clone, Copy, Debug, PartialEq, Eq, Structural)]
pub enum StreamSignal {
    /// So many bytes may now be requested from the source.
    DataAvailable(usize),
    Closed,
    Errored(ErrorReason),
}

/// The abstract value of an [`EngineStream`].
pub ghost struct EngineView {
    pub state: StreamState,
    pub locked: bool,
    pub disturbed: bool,
    pub signals: Seq<StreamSignal>,
}

impl EngineView {
    pub open spec fn is_readable(self) -> bool {
        self.state == StreamState::Readable
    }

    /// Closing is done only from the readable state, and only once.
    pub open spec fn close_if_readable(self) -> EngineView {
        if self.is_readable() {
            EngineView {
                state: StreamState::Closed,
                signals: self.signals.push(StreamSignal::Closed),
                ..self
            }
        } else {
            self
        }
    }

    pub open spec fn error_if_readable(self, reason: ErrorReason) -> EngineView {
        if self.is_readable() {
            EngineView {
                state: StreamState::Errored(reason),
                signals: self.signals.push(StreamSignal::Errored(reason)),
                ..self
            }
        } else {
            self
        }
    }

    /// A readable stream learns how many bytes it may request; otherwise
    /// nothing happens.
    pub open spec fn signal_if_readable(self, available: usize) -> EngineView {
        if self.is_readable() {
            EngineView { signals: self.signals.push(StreamSignal::DataAvailable(available)), ..self }
        } else {
            self
        }
    }
}

/// The consumer-visible stream.
pub struct EngineStream {
    state: StreamState,
    locked: bool,
    disturbed: bool,
    signals: Vec<StreamSignal>,
}

impl View for EngineStream {
    type V = EngineView;

    closed spec fn view(&self) -> EngineView {
        EngineView {
            state: self.state,
            locked: self.locked,
            disturbed: self.disturbed,
            signals: self.signals@,
        }
    }
}

impl EngineStream {
    /// A fresh readable stream: unlocked, never read, no signals yet.
    pub fn new() -> (r: EngineStream)
        ensures
            r@.state == StreamState::Readable,
            !r@.locked,
            !r@.disturbed,
            r@.signals == Seq::<StreamSignal>::empty(),
    {
        EngineStream { state: StreamState::Readable, locked: false, disturbed: false, signals: Vec::new() }
    }

    pub fn state(&self) -> (r: StreamState)
        ensures
            r == self@.state,
    {
        self.state
    }

    pub fn is_readable(&self) -> (r: bool)
        ensures
            r == self@.is_readable(),
    {
        match self.state {
            StreamState::Readable => true,
            _ => false,
        }
    }

    pub fn is_locked(&self) -> (r: bool)
        ensures
            r == self@.locked,
    {
        self.locked
    }

    pub fn is_disturbed(&self) -> (r: bool)
        ensures
            r == self@.disturbed,
    {
        self.disturbed
    }

    /// The signals received so far, oldest first.
    pub fn signals(&self) -> (r: &Vec<StreamSignal>)
        ensures
            r@ == self@.signals,
    {
        &self.signals
    }

    /// Takes the reader lock.
    pub fn get_reader(&mut self)
        requires
            !old(self)@.locked,
        ensures
            final(self)@ == (EngineView { locked: true, ..old(self)@ }),
    {
        self.locked = true;
    }

    /// Gives the reader lock back.
    pub fn release_lock(&mut self)
        requires
            old(self)@.locked,
        ensures
            final(self)@ == (EngineView { locked: false, ..old(self)@ }),
    {
        self.locked = false;
    }

    /// Records that a read was made.
    pub fn mark_disturbed(&mut self)
        ensures
            final(self)@ == (EngineView { disturbed: true, ..old(self)@ }),
    {
        self.disturbed = true;
    }

    /// Closes the stream if it is readable, and tells the consumer.
    pub fn close(&mut self)
        ensures
            final(self)@ == old(self)@.close_if_readable(),
    {
        if self.is_readable() {
            self.state = StreamState::Closed;
            self.signals.push(StreamSignal::Closed);
        }
    }

    /// Errors the stream if it is readable, and tells the consumer.
    pub fn error(&mut self, reason: ErrorReason)
        ensures
            final(self)@ == old(self)@.error_if_readable(reason),
    {
        if self.is_readable() {
            self.state = StreamState::Errored(reason);
            self.signals.push(StreamSignal::Errored(reason));
        }
    }

    /// Tells a readable stream how many bytes its source holds.
    pub fn update_data_available(&mut self, available: usize)
        ensures
            final(self)@ == old(self)@.signal_if_readable(available),
    {
        if self.is_readable() {
            self.signals.push(StreamSignal::DataAvailable(available));
        }
    }
}

} // verus!
