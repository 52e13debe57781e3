//! The relay engine: two symmetric byte-copy directions between the
//! controlling terminal and the PTY master.
//!
//! The driver performs one blocking read at a time and reports its outcome as
//! a [`ReadEvent`]; [`outbound_step`] and [`inbound_step`] decide what the
//! loop must do with it. Outbound (terminal input to PTY master) never stops:
//! errors and empty reads are ignored. Inbound (PTY master to terminal
//! output) treats a zero-byte read as the authoritative end of the session.

use vstd::prelude::*;

verus! {

/// The outcome of one blocking read on a relay endpoint.
#[derive(PartialEq, Eq, Debug)]
pub enum ReadEvent {
    /// The read failed with an I/O error; the relay swallows it.
    Failed,
    /// The read returned exactly these bytes. An empty chunk is a zero-byte
    /// read: end of stream on the PTY master, a sterile no-op on the
    /// terminal input side.
    Chunk(Vec<u8>),
}

/// What a relay loop must do with one read outcome.
#[derive(PartialEq, Eq, Debug)]
pub enum RelayAction {
    /// Nothing to forward; keep looping.
    Pass,
    /// Write exactly these bytes to the opposite endpoint and flush.
    Deliver(Vec<u8>),
    /// End of session: stop relaying; no further bytes are written.
    Stop,
}

/// The bytes a read outcome carried (none for a failed read).
pub open spec fn event_bytes(ev: ReadEvent) -> Seq<u8> {
    match ev {
        ReadEvent::Failed => Seq::empty(),
        ReadEvent::Chunk(b) => b@,
    }
}

/// A zero-byte read: on the PTY master this signals that the shell exited
/// and the slave side is drained.
pub open spec fn is_end_of_stream(ev: ReadEvent) -> bool {
    ev matches ReadEvent::Chunk(b) && b@.len() == 0
}

/// The outbound policy: forward every non-empty chunk unchanged; ignore
/// failed and zero-byte reads.
pub open spec fn outbound_action(ev: ReadEvent) -> RelayAction {
    match ev {
        ReadEvent::Failed => RelayAction::Pass,
        ReadEvent::Chunk(b) => if b@.len() == 0 {
            RelayAction::Pass
        } else {
            RelayAction::Deliver(b)
        },
    }
}

/// The inbound policy: forward every non-empty chunk unchanged; ignore
/// failed reads; stop on a zero-byte read.
pub open spec fn inbound_action(ev: ReadEvent) -> RelayAction {
    match ev {
        ReadEvent::Failed => RelayAction::Pass,
        ReadEvent::Chunk(b) => if b@.len() == 0 {
            RelayAction::Stop
        } else {
            RelayAction::Deliver(b)
        },
    }
}

/// Decide what the outbound loop (terminal input to PTY master) does with
/// one read outcome. It never stops.
pub fn outbound_step(ev: ReadEvent) -> (r: RelayAction)
    ensures
        r == outbound_action(ev),
{
    match ev {
        ReadEvent::Failed => RelayAction::Pass,
        ReadEvent::Chunk(b) => {
            if b.len() == 0 {
                RelayAction::Pass
            } else {
                RelayAction::Deliver(b)
            }
        },
    }
}

/// Decide what the inbound loop (PTY master to terminal output) does with
/// one read outcome. A zero-byte read ends the session.
pub fn inbound_step(ev: ReadEvent) -> (r: RelayAction)
    ensures
        r == inbound_action(ev),
{
    match ev {
        ReadEvent::Failed => RelayAction::Pass,
        ReadEvent::Chunk(b) => {
            if b.len() == 0 {
                RelayAction::Stop
            } else {
                RelayAction::Deliver(b)
            }
        },
    }
}

/// The first `n` bytes of a read buffer, in order: the chunk a read of `n`
/// bytes produced.
pub fn chunk_prefix(buf: &[u8], n: usize) -> (r: Vec<u8>)
    requires
        n <= buf@.len(),
    ensures
        r@ == buf@.subrange(0, n as int),
{
    let mut r: Vec<u8> = Vec::new();
    let mut i: usize = 0;
    while i < n
        invariant
            i <= n,
            n <= buf@.len(),
            r@ == buf@.subrange(0, i as int),
        decreases n - i,
    {
        let b = buf[i];
        r.push(b);
        i = i + 1;
        assert(r@ =~= buf@.subrange(0, i as int));
    }
    r
}

/// The bytes an action writes to the opposite endpoint.
pub open spec fn delivered_bytes(a: RelayAction) -> Seq<u8> {
    match a {
        RelayAction::Deliver(b) => b@,
        _ => Seq::empty(),
    }
}

/// All bytes carried by a sequence of read outcomes, in order.
pub open spec fn stream_bytes(evs: Seq<ReadEvent>) -> Seq<u8>
    decreases evs.len(),
{
    if evs.len() == 0 {
        Seq::empty()
    } else {
        event_bytes(evs.first()) + stream_bytes(evs.drop_first())
    }
}

/// All bytes the outbound loop forwards across a sequence of reads, in order.
pub open spec fn outbound_relayed(evs: Seq<ReadEvent>) -> Seq<u8>
    decreases evs.len(),
{
    if evs.len() == 0 {
        Seq::empty()
    } else {
        delivered_bytes(outbound_action(evs.first())) + outbound_relayed(evs.drop_first())
    }
}

/// All bytes the inbound loop writes across a sequence of reads: it forwards
/// chunks in order and consumes nothing past the first zero-byte read.
pub open spec fn inbound_relayed(evs: Seq<ReadEvent>) -> Seq<u8>
    decreases evs.len(),
{
    if evs.len() == 0 {
        Seq::empty()
    } else if is_end_of_stream(evs.first()) {
        Seq::empty()
    } else {
        delivered_bytes(inbound_action(evs.first())) + inbound_relayed(evs.drop_first())
    }
}

/// Every byte read from the terminal input reaches the PTY master, in order:
/// the outbound loop forwards exactly the bytes of the stream it read,
/// whatever mixture of data, empty reads and errors arrived.
pub proof fn lemma_outbound_preserves_stream(evs: Seq<ReadEvent>)
    ensures
        outbound_relayed(evs) == stream_bytes(evs),
    decreases evs.len(),
{
    if evs.len() > 0 {
        lemma_outbound_preserves_stream(evs.drop_first());
        assert(delivered_bytes(outbound_action(evs.first())) == event_bytes(evs.first()));
    }
}

/// Every byte the shell writes to the PTY reaches the terminal output, in
/// order: while the stream has not ended, the inbound loop writes exactly
/// the bytes it read.
pub proof fn lemma_inbound_preserves_stream(evs: Seq<ReadEvent>)
    requires
        forall|i: int| 0 <= i < evs.len() ==> !is_end_of_stream(#[trigger] evs[i]),
    ensures
        inbound_relayed(evs) == stream_bytes(evs),
    decreases evs.len(),
{
    if evs.len() > 0 {
        assert(evs[0] == evs.first());
        assert(forall|i: int|
            0 <= i < evs.drop_first().len() ==> #[trigger] evs.drop_first()[i] == evs[i + 1]);
        lemma_inbound_preserves_stream(evs.drop_first());
        assert(delivered_bytes(inbound_action(evs.first())) == event_bytes(evs.first()));
    }
}

/// A zero-byte read from the PTY master ends the session once and for all:
/// whatever reads could still be made afterwards, nothing past the first
/// end-of-stream is ever written to the terminal output.
pub proof fn lemma_end_of_stream_stops_relay(
    before: Seq<ReadEvent>,
    eof: ReadEvent,
    after: Seq<ReadEvent>,
)
    requires
        is_end_of_stream(eof),
    ensures
        inbound_relayed(before + seq![eof] + after) == inbound_relayed(before + seq![eof]),
    decreases before.len(),
{
    let long = before + seq![eof] + after;
    let short = before + seq![eof];
    if before.len() == 0 {
        assert(long.first() == eof);
        assert(short.first() == eof);
    } else {
        assert(long.first() == before.first());
        assert(short.first() == before.first());
        assert(long.drop_first() =~= before.drop_first() + seq![eof] + after);
        assert(short.drop_first() =~= before.drop_first() + seq![eof]);
        lemma_end_of_stream_stops_relay(before.drop_first(), eof, after);
    }
}

} // verus!
