//! One direction of the relay: a plain copy, chunk by chunk, from one
//! connection's read half to the other's write half. Each direction keeps a
//! ghost tally of everything it has forwarded, so the whole-stream claim —
//! bytes arrive unmodified and in order, whatever the chunk boundaries — can
//! be stated and proved of it.

use vstd::prelude::*;

verus! {

/// The concatenation of a sequence of chunks, in order.
pub open spec fn flatten_bytes(cs: Seq<Seq<u8>>) -> Seq<u8>
    decreases cs.len(),
{
    if cs.len() == 0 {
        Seq::empty()
    } else {
        cs[0] + flatten_bytes(cs.subrange(1, cs.len() as int))
    }
}

/// The tally a direction holds after forwarding the chunks of `cs` in order,
/// starting from `init`: each chunk is appended whole, as `on_chunk` does.
pub open spec fn tally_after(init: Seq<u8>, cs: Seq<Seq<u8>>) -> Seq<u8>
    decreases cs.len(),
{
    if cs.len() == 0 {
        init
    } else {
        tally_after(init + cs[0], cs.subrange(1, cs.len() as int))
    }
}

/// One direction of the relay, with the ghost tally of the bytes it has
/// forwarded since it was set up.
pub struct RelayDirection {
    pub forwarded: Ghost<Seq<u8>>,
}

impl RelayDirection {
    /// A fresh direction that has forwarded nothing.
    pub fn new() -> (r: RelayDirection)
        ensures
            r.forwarded@ == Seq::<u8>::empty(),
    {
        RelayDirection { forwarded: Ghost(Seq::empty()) }
    }

    /// Forwards one chunk read from the source: the bytes to write to the
    /// sink are exactly the bytes read, and the tally grows by them in order.
    pub fn on_chunk(&mut self, chunk: Vec<u8>) -> (out: Vec<u8>)
        ensures
            out@ == chunk@,
            final(self).forwarded@ == old(self).forwarded@ + chunk@,
    {
        self.forwarded = Ghost(self.forwarded@ + chunk@);
        chunk
    }
}

/// Law: a direction that starts empty and forwards the chunks of `cs` in
/// order — extending its tally as `on_chunk` ensures — ends having forwarded
/// exactly their concatenation. Bytes cross the relay unmodified and in
/// order, independent of how the reads happened to chunk the stream.
pub proof fn lemma_relay_preserves_stream(cs: Seq<Seq<u8>>)
    ensures
        tally_after(Seq::empty(), cs) == flatten_bytes(cs),
{
    lemma_tally_is_flatten(Seq::empty(), cs);
    assert(Seq::empty() + flatten_bytes(cs) =~= flatten_bytes(cs));
}

/// The tally from any starting point is that start followed by the flattened
/// chunks.
proof fn lemma_tally_is_flatten(init: Seq<u8>, cs: Seq<Seq<u8>>)
    ensures
        tally_after(init, cs) == init + flatten_bytes(cs),
    decreases cs.len(),
{
    if cs.len() == 0 {
        assert(init + flatten_bytes(cs) =~= init);
    } else {
        lemma_tally_is_flatten(init + cs[0], cs.subrange(1, cs.len() as int));
        assert((init + cs[0]) + flatten_bytes(cs.subrange(1, cs.len() as int)) =~= init
            + flatten_bytes(cs));
    }
}

} // verus!
