//! The output relay of one session.
//!
//! The relay is driven by the embedding program, which performs the blocking
//! reads on its private reader handle and feeds each outcome in. The relay
//! decides everything else: each chunk of bytes becomes exactly one decoded
//! text, emitted in producer order; the first end of stream or read failure
//! closes the relay, after which nothing further is emitted. A read failure
//! is deliberately treated like end of stream: the exit watcher reports
//! process termination independently, so no failure detail is lost to the
//! sink's user.

use vstd::prelude::*;

use crate::decode::{lossy_decode, lossy_decode_spec};

verus! {

/// One read from the session's output stream, as the embedding program
/// reports it.
pub enum ReadEvent {
    /// The read returned these bytes.
    Data(Vec<u8>),
    /// The read returned zero bytes: the process closed its output stream.
    Eof,
    /// The read failed; treated exactly like end of stream.
    Failed,
}

/// What the relay asks of the embedding program in response to one read:
/// emit one decoded text to the sink and keep reading, or stop reading. The
/// relay's actions never carry an exit report; those come from the exit
/// watcher alone.
pub enum RelayAction {
    Emit(String),
    Stop,
}

/// The bytes carried by a read event; end of stream carries none.
pub open spec fn event_chunk(e: ReadEvent) -> Seq<u8> {
    match e {
        ReadEvent::Data(b) => b@,
        _ => Seq::empty(),
    }
}

/// The texts the relay emits over a sequence of read events: the decoded
/// chunks in producer order, cut off at the first end of stream or failure.
pub open spec fn relay_outputs(events: Seq<ReadEvent>) -> Seq<Seq<char>>
    decreases events.len(),
{
    if events.len() == 0 {
        Seq::empty()
    } else if events[0] is Data {
        seq![lossy_decode_spec(event_chunk(events[0]))] + relay_outputs(events.skip(1))
    } else {
        Seq::empty()
    }
}

/// How many data events precede the first end of stream or failure.
pub open spec fn data_prefix_len(events: Seq<ReadEvent>) -> int
    decreases events.len(),
{
    if events.len() == 0 {
        0
    } else if events[0] is Data {
        1 + data_prefix_len(events.skip(1))
    } else {
        0
    }
}

/// Appending one event to an all-data history extends the emitted texts by
/// exactly that event's decoded chunk, or by nothing when the stream ends.
proof fn lemma_relay_outputs_push(h: Seq<ReadEvent>, e: ReadEvent)
    requires
        forall|j: int| 0 <= j < h.len() ==> h[j] is Data,
    ensures
        relay_outputs(h.push(e)) == if e is Data {
            relay_outputs(h).push(lossy_decode_spec(event_chunk(e)))
        } else {
            relay_outputs(h)
        },
    decreases h.len(),
{
    if h.len() == 0 {
        assert(h.push(e)[0] == e);
        assert(h.push(e).skip(1) =~= Seq::<ReadEvent>::empty());
        if e is Data {
            assert(relay_outputs(h.push(e)) == seq![lossy_decode_spec(event_chunk(e))]
                + relay_outputs(Seq::<ReadEvent>::empty()));
            assert(relay_outputs(h.push(e)) =~= relay_outputs(h).push(
                lossy_decode_spec(event_chunk(e)),
            ));
        } else {
            assert(relay_outputs(h.push(e)) =~= relay_outputs(h));
        }
    } else {
        assert(h.push(e)[0] == h[0]);
        assert(h.push(e).skip(1) =~= h.skip(1).push(e));
        lemma_relay_outputs_push(h.skip(1), e);
        if e is Data {
            assert(relay_outputs(h.push(e)) =~= relay_outputs(h).push(
                lossy_decode_spec(event_chunk(e)),
            ));
        } else {
            assert(relay_outputs(h.push(e)) =~= relay_outputs(h));
        }
    }
}

/// Law: output ordering. Over any sequence of reads, the relay's emissions
/// are exactly the decoded data chunks that precede the first end of stream,
/// one text per chunk, in producer order — none reordered, none dropped, and
/// nothing else interleaved among them.
pub proof fn lemma_relay_order(events: Seq<ReadEvent>)
    ensures
        data_prefix_len(events) <= events.len(),
        relay_outputs(events).len() == data_prefix_len(events),
        forall|k: int|
            0 <= k < data_prefix_len(events) ==> relay_outputs(events)[k] == lossy_decode_spec(
                event_chunk(events[k]),
            ),
    decreases events.len(),
{
    if events.len() > 0 && events[0] is Data {
        lemma_relay_order(events.skip(1));
        assert forall|k: int| 0 <= k < data_prefix_len(events) implies relay_outputs(events)[k]
            == lossy_decode_spec(event_chunk(events[k])) by {
            if k > 0 {
                assert(events.skip(1)[k - 1] == events[k]);
                assert(relay_outputs(events)[k] == relay_outputs(events.skip(1))[k - 1]);
            }
        }
    }
}

/// The relay's state: whether the stream has ended, and (as ghost history)
/// the events it has processed.
pub struct Relay {
    pub closed: bool,
    pub history: Ghost<Seq<ReadEvent>>,
}

impl Relay {
    /// The relay's invariant: it stays open exactly as long as every event
    /// seen so far carried data, and it closes at the first that did not.
    pub open spec fn wf(self) -> bool {
        &&& forall|j: int| 0 <= j < self.history@.len() - 1 ==> self.history@[j] is Data
        &&& self.closed <==> (self.history@.len() > 0 && !(self.history@.last() is Data))
    }

    /// The texts this relay has emitted so far, in order.
    pub open spec fn emitted(self) -> Seq<Seq<char>> {
        relay_outputs(self.history@)
    }

    /// A fresh relay: open, nothing read, nothing emitted.
    pub fn new() -> (r: Relay)
        ensures
            r.wf(),
            !r.closed,
            r.history@ == Seq::<ReadEvent>::empty(),
    {
        Relay { closed: false, history: Ghost(Seq::empty()) }
    }

    /// Process one read. A chunk of bytes is decoded and emitted — exactly
    /// one text per chunk, appended in producer order; end of stream and
    /// read failure close the relay with nothing emitted, and nothing can be
    /// emitted ever after.
    pub fn step(&mut self, event: ReadEvent) -> (a: RelayAction)
        requires
            old(self).wf(),
            !old(self).closed,
        ensures
            final(self).wf(),
            final(self).history@ == old(self).history@.push(event),
            match event {
                ReadEvent::Data(_) => {
                    &&& !final(self).closed
                    &&& a matches RelayAction::Emit(t) && t@ == lossy_decode_spec(
                        event_chunk(event),
                    )
                    &&& final(self).emitted() == old(self).emitted().push(
                        lossy_decode_spec(event_chunk(event)),
                    )
                },
                _ => {
                    &&& final(self).closed
                    &&& a is Stop
                    &&& final(self).emitted() == old(self).emitted()
                },
            },
    {
        let ghost old_hist = self.history@;
        proof {
            assert forall|j: int| 0 <= j < old_hist.len() implies old_hist[j] is Data by {
                if j == old_hist.len() - 1 {
                    assert(old_hist.last() is Data);
                }
            }
            lemma_relay_outputs_push(old_hist, event);
        }
        self.history = Ghost(old_hist.push(event));
        match event {
            ReadEvent::Data(bytes) => {
                let text = lossy_decode(bytes.as_slice());
                RelayAction::Emit(text)
            },
            _ => {
                self.closed = true;
                RelayAction::Stop
            },
        }
    }
}

} // verus!
