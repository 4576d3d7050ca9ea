//! The ordered queue that carries decoded messages from the MIDI thread
//! to the audio thread.

use vstd::prelude::*;
use crate::midi::MidiMessage;

verus! {

/// A queue of messages after one more push.
pub open spec fn bridge_pushed(q: Seq<MidiMessage>, m: MidiMessage) -> Seq<MidiMessage> {
    q.push(m)
}

/// A queue of messages after a whole sequence of pushes, first to last.
pub open spec fn bridge_pushed_all(q: Seq<MidiMessage>, msgs: Seq<MidiMessage>) -> Seq<
    MidiMessage,
>
    decreases msgs.len(),
{
    if msgs.len() == 0 {
        q
    } else {
        bridge_pushed_all(bridge_pushed(q, msgs.first()), msgs.drop_first())
    }
}

/// The bridge keeps arrival order: pushing a sequence of messages, one at
/// a time and in order, leaves the queue holding the old contents followed
/// by exactly that sequence. With `drain`, which hands the whole queue
/// back unchanged, a consumer therefore sees the messages in the exact
/// order the producer pushed them.
pub proof fn lemma_bridge_preserves_order(q: Seq<MidiMessage>, msgs: Seq<MidiMessage>)
    ensures
        bridge_pushed_all(q, msgs) == q + msgs,
    decreases msgs.len(),
{
    if msgs.len() == 0 {
        assert(bridge_pushed_all(q, msgs) =~= q + msgs);
    } else {
        lemma_bridge_preserves_order(bridge_pushed(q, msgs.first()), msgs.drop_first());
        assert(q.push(msgs.first()) + msgs.drop_first() =~= q + msgs);
    }
}

/// The single-producer, single-consumer channel between the MIDI-input
/// thread and the audio-render thread, seen as the ordered queue it
/// carries. The producer appends and never blocks; the queue grows without
/// bound rather than dropping messages. The consumer takes everything at
/// once before rendering a block, so a message takes effect no later than
/// the start of the block after its arrival.
pub struct EventBridge {
    queue: Vec<MidiMessage>,
}

impl EventBridge {
    /// The queued messages, oldest first.
    pub closed spec fn view(&self) -> Seq<MidiMessage> {
        self.queue@
    }

    pub fn new() -> (r: Self)
        ensures
            r@ == Seq::<MidiMessage>::empty(),
    {
        EventBridge { queue: Vec::new() }
    }

    pub fn len(&self) -> (n: usize)
        ensures
            n == self@.len(),
    {
        self.queue.len()
    }

    /// Producer side: append one message.
    pub fn push(&mut self, m: MidiMessage)
        ensures
            final(self)@ == bridge_pushed(old(self)@, m),
    {
        self.queue.push(m);
    }

    /// Consumer side: take every queued message, in arrival order, leaving
    /// the bridge empty.
    pub fn drain(&mut self) -> (r: Vec<MidiMessage>)
        ensures
            r@ == old(self)@,
            final(self)@ == Seq::<MidiMessage>::empty(),
    {
        let mut taken: Vec<MidiMessage> = Vec::new();
        core::mem::swap(&mut taken, &mut self.queue);
        taken
    }
}

} // verus!
