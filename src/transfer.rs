//! The transfer engine's decisions: how a payload is written out in as many
//! partial writes as the channel needs, and how inbound bytes are collected
//! until the read deadline passes or the channel closes. The caller performs
//! each write and read and reports what happened.
//!
//! The deadline is a per-read timeout, re-armed for every read attempt: the
//! collection ends at the first read that waits the whole timeout without a
//! byte arriving. A reply that keeps trickling in, with every gap shorter than
//! the timeout, is collected in full however long it lasts; a line that never
//! replies ends the collection after one timeout.
use vstd::prelude::*;

verus! {

/// What one write attempt on the channel reported.
#[derive(Clone, Copy, Debug, PartialEq, Eq, Structural)]
pub enum WriteOutcome {
    /// The channel took this many bytes from the front of what was offered.
    Accepted(usize),
    /// The attempt was interrupted before any byte was taken; try again.
    Interrupted,
    /// The channel reported an error.
    Failed,
}

/// What to do after a write attempt.
#[derive(Clone, Copy, Debug, PartialEq, Eq, Structural)]
pub enum SendStep {
    /// Offer the bytes still pending.
    Continue,
    /// The whole payload has been taken.
    Finished,
    /// The send failed; stop without retrying.
    Abort,
}

/// Progress of writing a payload of `total` bytes: the first `written` of
/// them have been taken by the channel.
pub struct SendProgress {
    total: usize,
    written: usize,
}

impl SendProgress {
    /// Length of the payload.
    pub closed spec fn total_spec(&self) -> nat {
        self.total as nat
    }

    /// Number of bytes the channel has taken so far.
    pub closed spec fn written_spec(&self) -> nat {
        self.written as nat
    }

    /// Never more taken than the payload holds.
    pub closed spec fn wf(&self) -> bool {
        self.written <= self.total
    }

    /// Nothing written yet of a payload of `total` bytes.
    pub fn new(total: usize) -> (r: SendProgress)
        ensures
            r.wf(),
            r.total_spec() == total,
            r.written_spec() == 0,
    {
        SendProgress { total, written: 0 }
    }

    /// Number of bytes the channel has taken so far.
    pub fn written(&self) -> (r: usize)
        ensures
            r == self.written_spec(),
    {
        self.written
    }

    /// Whether the whole payload has been taken.
    pub fn is_complete(&self) -> (r: bool)
        requires
            self.wf(),
        ensures
            r == (self.written_spec() == self.total_spec()),
    {
        self.written == self.total
    }

    /// The bytes still to offer, as a range `start..end` of the payload: the
    /// bytes go out in order, each following what was taken before.
    pub fn pending(&self) -> (r: (usize, usize))
        requires
            self.wf(),
        ensures
            r.0 == self.written_spec(),
            r.1 == self.total_spec(),
            r.0 <= r.1,
    {
        (self.written, self.total)
    }

    /// Takes note of one write attempt of the pending bytes. A write that
    /// takes nothing, or claims more than was offered, ends the send as a
    /// failure, as does an error; an interrupted attempt is retried.
    pub fn record(&mut self, outcome: WriteOutcome) -> (r: SendStep)
        requires
            old(self).wf(),
            old(self).written_spec() < old(self).total_spec(),
        ensures
            final(self).wf(),
            final(self).total_spec() == old(self).total_spec(),
            match outcome {
                WriteOutcome::Accepted(n) => if 0 < n <= old(self).total_spec()
                    - old(self).written_spec() {
                    &&& final(self).written_spec() == old(self).written_spec() + n
                    &&& r == if final(self).written_spec() == final(self).total_spec() {
                        SendStep::Finished
                    } else {
                        SendStep::Continue
                    }
                } else {
                    &&& final(self).written_spec() == old(self).written_spec()
                    &&& r == SendStep::Abort
                },
                WriteOutcome::Interrupted => {
                    &&& final(self).written_spec() == old(self).written_spec()
                    &&& r == SendStep::Continue
                },
                WriteOutcome::Failed => {
                    &&& final(self).written_spec() == old(self).written_spec()
                    &&& r == SendStep::Abort
                },
            },
    {
        match outcome {
            WriteOutcome::Accepted(n) => {
                if 0 < n && n <= self.total - self.written {
                    self.written = self.written + n;
                    if self.written == self.total {
                        SendStep::Finished
                    } else {
                        SendStep::Continue
                    }
                } else {
                    SendStep::Abort
                }
            },
            WriteOutcome::Interrupted => SendStep::Continue,
            WriteOutcome::Failed => SendStep::Abort,
        }
    }
}

/// What one read attempt on the channel reported.
#[derive(Clone, Debug, PartialEq, Eq)]
pub enum ReadEvent {
    /// These bytes arrived; an empty chunk means the channel was closed.
    Data(Vec<u8>),
    /// The attempt was interrupted; try again.
    Interrupted,
    /// The read waited the whole timeout, counted from the start of this
    /// attempt, and no byte arrived.
    TimedOut,
    /// The channel reported end of input.
    Closed,
    /// The channel reported any other error.
    Fault,
}

/// Why the collection of inbound bytes ended.
#[derive(Clone, Copy, Debug, PartialEq, Eq, Structural)]
pub enum CollectionEnd {
    TimedOut,
    Closed,
    /// A transport error, which ends the collection and is not raised.
    Fault,
}

/// The effect of one read event on what was collected so far and on how
/// the collection ended, if it did. Nothing changes once it has ended.
pub open spec fn collect_step(
    state: (Seq<u8>, Option<CollectionEnd>),
    event: ReadEvent,
) -> (Seq<u8>, Option<CollectionEnd>) {
    if state.1 is Some {
        state
    } else {
        match event {
            ReadEvent::Data(d) => if d@.len() == 0 {
                (state.0, Some(CollectionEnd::Closed))
            } else {
                (state.0 + d@, None)
            },
            ReadEvent::Interrupted => state,
            ReadEvent::TimedOut => (state.0, Some(CollectionEnd::TimedOut)),
            ReadEvent::Closed => (state.0, Some(CollectionEnd::Closed)),
            ReadEvent::Fault => (state.0, Some(CollectionEnd::Fault)),
        }
    }
}

/// The state after the read events `events`, in order, starting from
/// nothing collected.
pub open spec fn collect_all(events: Seq<ReadEvent>) -> (Seq<u8>, Option<CollectionEnd>)
    decreases events.len(),
{
    if events.len() == 0 {
        (Seq::empty(), None)
    } else {
        collect_step(collect_all(events.drop_last()), events.last())
    }
}

/// Collects inbound bytes, append-only, until the collection ends.
pub struct Collector {
    received: Vec<u8>,
    end: Option<CollectionEnd>,
}

impl View for Collector {
    type V = (Seq<u8>, Option<CollectionEnd>);

    closed spec fn view(&self) -> (Seq<u8>, Option<CollectionEnd>) {
        (self.received@, self.end)
    }
}

impl Collector {
    /// Nothing collected, collection under way.
    pub fn new() -> (r: Collector)
        ensures
            r@ == collect_all(Seq::empty()),
            r@.0 == Seq::<u8>::empty(),
            r@.1 is None,
    {
        Collector { received: Vec::new(), end: None }
    }

    /// Whether the collection has ended; no further read is needed.
    pub fn is_finished(&self) -> (r: bool)
        ensures
            r == self@.1 is Some,
    {
        self.end.is_some()
    }

    /// How the collection ended, if it has.
    pub fn end(&self) -> (r: Option<CollectionEnd>)
        ensures
            r == self@.1,
    {
        self.end
    }

    /// The bytes collected so far.
    pub fn received(&self) -> (r: &[u8])
        ensures
            r@ == self@.0,
    {
        self.received.as_slice()
    }

    /// Takes note of one read attempt.
    pub fn on_event(&mut self, event: ReadEvent)
        ensures
            final(self)@ == collect_step(old(self)@, event),
    {
        if self.end.is_some() {
            return;
        }
        match event {
            ReadEvent::Data(d) => {
                if d.len() == 0 {
                    self.end = Some(CollectionEnd::Closed);
                } else {
                    self.received.extend_from_slice(d.as_slice());
                    assert(self.received@ =~= old(self)@.0 + d@);
                }
            },
            ReadEvent::Interrupted => {},
            ReadEvent::TimedOut => {
                self.end = Some(CollectionEnd::TimedOut);
            },
            ReadEvent::Closed => {
                self.end = Some(CollectionEnd::Closed);
            },
            ReadEvent::Fault => {
                self.end = Some(CollectionEnd::Fault);
            },
        }
    }

    /// Hands over what was collected.
    pub fn into_received(self) -> (r: Vec<u8>)
        ensures
            r@ == self@.0,
    {
        self.received
    }
}

/// Collection is append-only: each read event keeps what was collected
/// before as a prefix, and once the collection has ended, later events change
/// nothing.
pub proof fn lemma_collect_append_only(events: Seq<ReadEvent>, event: ReadEvent)
    ensures
        collect_all(events.push(event)).0.len() >= collect_all(events).0.len(),
        collect_all(events.push(event)).0.subrange(0, collect_all(events).0.len() as int)
            == collect_all(events).0,
        collect_all(events).1 is Some ==> collect_all(events.push(event)) == collect_all(events),
{
    assert(events.push(event).drop_last() == events);
    let before = collect_all(events).0;
    let after = collect_all(events.push(event)).0;
    assert(after.subrange(0, before.len() as int) =~= before);
}

/// A line that never replies yields nothing: whatever mix of timeouts,
/// interruptions, closures and faults the reads report, no byte is
/// collected, and the first timeout, closure or fault ends the collection.
pub proof fn lemma_silent_line_collects_nothing(events: Seq<ReadEvent>)
    requires
        forall|i: int| 0 <= i < events.len() ==> !(#[trigger] events[i] is Data),
    ensures
        collect_all(events).0 == Seq::<u8>::empty(),
        (exists|i: int|
            0 <= i < events.len() && !(#[trigger] events[i] is Interrupted))
            <==> collect_all(events).1 is Some,
    decreases events.len(),
{
    if events.len() > 0 {
        let init = events.drop_last();
        assert forall|i: int| 0 <= i < init.len() implies !(#[trigger] init[i] is Data) by {
            assert(init[i] == events[i]);
        }
        lemma_silent_line_collects_nothing(init);
        if exists|i: int| 0 <= i < init.len() && !(#[trigger] init[i] is Interrupted) {
            let i = choose|i: int| 0 <= i < init.len() && !(#[trigger] init[i] is Interrupted);
            assert(events[i] == init[i]);
        }
        if exists|i: int| 0 <= i < events.len() && !(#[trigger] events[i] is Interrupted) {
            let i = choose|i: int| 0 <= i < events.len() && !(#[trigger] events[i] is Interrupted);
            if i < init.len() {
                assert(init[i] == events[i]);
            }
        } else {
            assert(events[events.len() - 1] is Interrupted);
            assert forall|i: int| 0 <= i < init.len() implies (#[trigger] init[i] is Interrupted) by {
                assert(init[i] == events[i]);
            }
        }
    }
}

} // verus!
