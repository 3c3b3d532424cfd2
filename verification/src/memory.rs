//! Bounded, ordered short-term conversation memory: an append-only recency
//! window of dialogue turns. When an append would push the length past the
//! fixed capacity, the oldest turn is evicted.

use vstd::prelude::*;

use crate::messages::{Message, MessageView};

verus! {

/// The smaller of two naturals.
pub open spec fn nat_min(a: nat, b: nat) -> nat {
    if a <= b {
        a
    } else {
        b
    }
}

/// What one `add` does to the remembered sequence: append, then drop the
/// front if the capacity would be exceeded.
pub open spec fn push_bounded(s: Seq<MessageView>, cap: nat, m: MessageView) -> Seq<MessageView> {
    let t = s.push(m);
    if t.len() <= cap {
        t
    } else {
        t.subrange(t.len() - cap, t.len() as int)
    }
}

/// The remembered sequence after adding every message of `ms`, oldest first,
/// to an empty memory of capacity `cap`.
pub open spec fn run_adds(cap: nat, ms: Seq<MessageView>) -> Seq<MessageView>
    decreases ms.len(),
{
    if ms.len() == 0 {
        Seq::empty()
    } else {
        push_bounded(run_adds(cap, ms.drop_last()), cap, ms.last())
    }
}

/// However many messages are added, the memory holds exactly the most recent
/// `cap` of them (all of them while there are fewer), in their original
/// relative order; in particular the length never exceeds the capacity, and
/// once more than `cap` messages have been added the earliest ones are gone.
pub proof fn lemma_memory_window(cap: nat, ms: Seq<MessageView>)
    ensures
        run_adds(cap, ms).len() == nat_min(ms.len(), cap),
        run_adds(cap, ms) =~= ms.subrange(ms.len() - nat_min(ms.len(), cap), ms.len() as int),
    decreases ms.len(),
{
    if ms.len() == 0 {
    } else {
        lemma_memory_window(cap, ms.drop_last());
    }
}

/// Bounded, ordered store of the recent dialogue turns.
///
/// The capacity is fixed at construction; `add` never fails, and `get`
/// returns a snapshot that later appends do not invalidate.
#[derive(Debug)]
pub struct ConversationMemory {
    capacity: usize,
    items: Vec<Message>,
}

impl View for ConversationMemory {
    type V = Seq<MessageView>;

    closed spec fn view(&self) -> Seq<MessageView> {
        Seq::new(self.items@.len(), |i: int| self.items@[i]@)
    }
}

impl ConversationMemory {
    /// The fixed capacity.
    pub closed spec fn spec_capacity(self) -> nat {
        self.capacity as nat
    }

    /// The length never exceeds the capacity.
    pub open spec fn wf(self) -> bool {
        self@.len() <= self.spec_capacity()
    }

    /// Creates an empty memory with the given fixed capacity.
    pub fn new(capacity: usize) -> (r: ConversationMemory)
        ensures
            r@ =~= Seq::<MessageView>::empty(),
            r.spec_capacity() == capacity,
            r.wf(),
    {
        ConversationMemory { capacity, items: Vec::new() }
    }

    /// Number of remembered turns.
    pub fn len(&self) -> (r: usize)
        ensures
            r == self@.len(),
    {
        self.items.len()
    }

    /// The fixed capacity.
    pub fn capacity(&self) -> (r: usize)
        ensures
            r == self.spec_capacity(),
    {
        self.capacity
    }

    /// Appends a turn; if the length would exceed the capacity, evicts the
    /// oldest turn.
    pub fn add(&mut self, m: Message)
        requires
            old(self).wf(),
        ensures
            final(self)@ =~= push_bounded(old(self)@, old(self).spec_capacity(), m@),
            final(self).spec_capacity() == old(self).spec_capacity(),
            final(self).wf(),
    {
        self.items.push(m);
        if self.items.len() > self.capacity {
            self.items.remove(0);
        }
    }

    /// Returns a snapshot of the remembered turns in chronological order.
    /// Later appends do not change the snapshot.
    pub fn get(&self) -> (r: Vec<Message>)
        ensures
            r@.len() == self@.len(),
            forall|i: int| 0 <= i < r@.len() ==> r@[i]@ == self@[i],
    {
        let mut out: Vec<Message> = Vec::new();
        let n = self.items.len();
        for k in 0..n
            invariant
                n == self.items@.len(),
                out@.len() == k,
                forall|i: int| 0 <= i < k ==> out@[i]@ == self@[i],
        {
            out.push(self.items[k].clone());
        }
        out
    }
}

} // verus!
