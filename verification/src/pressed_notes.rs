//! Last-note-priority tracking of the notes currently held down.

use vstd::prelude::*;

verus! {

/// The sequence `s` with every occurrence of `note` removed, the order of
/// the remaining elements unchanged.
pub open spec fn without_note(s: Seq<u8>, note: u8) -> Seq<u8> {
    s.filter(|n: u8| n != note)
}

/// Removing a value distributes over appending one element: the appended
/// element survives exactly when it differs from the removed value.
pub proof fn lemma_without_note_push(s: Seq<u8>, x: u8, note: u8)
    ensures
        without_note(s.push(x), note) == (if x != note {
            without_note(s, note).push(x)
        } else {
            without_note(s, note)
        }),
{
    reveal(Seq::filter);
    assert(s.push(x).drop_last() =~= s);
}

/// Removing a value never lengthens the sequence; in particular nothing
/// survives a removal from an empty sequence.
pub proof fn lemma_without_note_len(s: Seq<u8>, note: u8)
    ensures
        without_note(s, note).len() <= s.len(),
    decreases s.len(),
{
    if s.len() == 0 {
        reveal(Seq::filter);
    } else {
        lemma_without_note_len(s.drop_last(), note);
        lemma_without_note_push(s.drop_last(), s.last(), note);
        assert(s.drop_last().push(s.last()) =~= s);
    }
}

/// The notes currently held down, in the order they were pressed.
///
/// Pressing a note appends it (duplicates allowed); releasing a note
/// removes every entry carrying that value while keeping the order of the
/// rest. The note that should sound is always the last surviving entry:
/// last-note-priority monophonic behaviour.
pub struct PressedNotes {
    notes: Vec<u8>,
}

impl PressedNotes {
    /// The pressed notes in press order, oldest first.
    pub closed spec fn view(&self) -> Seq<u8> {
        self.notes@
    }

    pub fn new() -> (r: Self)
        ensures
            r@ == Seq::<u8>::empty(),
    {
        PressedNotes { notes: Vec::new() }
    }

    /// The note that should sound: the most recently pressed note still
    /// held, or nothing while no key is down.
    pub fn get_current_note(&self) -> (r: Option<u8>)
        ensures
            r == (if self@.len() == 0 {
                Option::<u8>::None
            } else {
                Option::Some(self@.last())
            }),
    {
        if self.notes.len() == 0 {
            None
        } else {
            Some(self.notes[self.notes.len() - 1])
        }
    }

    /// How many entries the stack holds (duplicates counted).
    pub fn len(&self) -> (n: usize)
        ensures
            n == self@.len(),
    {
        self.notes.len()
    }

    /// The `i`th held entry, oldest first.
    pub fn note_at(&self, i: usize) -> (r: u8)
        requires
            i < self@.len(),
        ensures
            r == self@[i as int],
    {
        self.notes[i]
    }

    /// Record a key press: the note is appended even if already held.
    pub fn note_on(&mut self, note: u8)
        ensures
            final(self)@ == old(self)@.push(note),
    {
        self.notes.push(note);
    }

    /// Record a key release: every held entry equal to `note` is removed,
    /// and the order of the remaining notes is kept.
    pub fn note_off(&mut self, note: u8)
        ensures
            final(self)@ == without_note(old(self)@, note),
    {
        let ghost s = self.notes@;
        let mut kept: Vec<u8> = Vec::new();
        let mut i: usize = 0;
        while i < self.notes.len()
            invariant
                i <= s.len(),
                self.notes@ == s,
                kept@ == without_note(s.take(i as int), note),
            decreases s.len() - i,
        {
            proof {
                lemma_without_note_push(s.take(i as int), s[i as int], note);
                assert(s.take(i as int + 1) =~= s.take(i as int).push(s[i as int]));
            }
            if self.notes[i] != note {
                kept.push(self.notes[i]);
            }
            i = i + 1;
        }
        proof {
            assert(s.take(s.len() as int) =~= s);
        }
        self.notes = kept;
    }
}

/// One key event, as the stack sees it.
#[derive(Clone, Copy, Debug, PartialEq, Eq, Structural)]
pub enum NoteOp {
    On(u8),
    Off(u8),
}

/// The stack contents after a sequence of key events, applied in order to
/// an empty stack: exactly what `note_on` and `note_off` build.
pub open spec fn apply_note_ops(ops: Seq<NoteOp>) -> Seq<u8>
    decreases ops.len(),
{
    if ops.len() == 0 {
        Seq::empty()
    } else {
        let rest = apply_note_ops(ops.drop_last());
        match ops.last() {
            NoteOp::On(n) => rest.push(n),
            NoteOp::Off(n) => without_note(rest, n),
        }
    }
}

/// The most recently pushed note not yet matched by an equal-or-later
/// release, read straight off the event sequence: walk it from the most
/// recent end, remembering which values have been released, and take the
/// first press whose value is not among them.
pub open spec fn latest_live_note(ops: Seq<NoteOp>, released: Set<u8>) -> Option<u8>
    decreases ops.len(),
{
    if ops.len() == 0 {
        None
    } else {
        match ops.last() {
            NoteOp::On(n) => if released.contains(n) {
                latest_live_note(ops.drop_last(), released)
            } else {
                Some(n)
            },
            NoteOp::Off(n) => latest_live_note(ops.drop_last(), released.insert(n)),
        }
    }
}

/// The sequence `s` with every note in `released` removed.
pub open spec fn drop_released(s: Seq<u8>, released: Set<u8>) -> Seq<u8> {
    s.filter(|n: u8| !released.contains(n))
}

proof fn lemma_drop_released_push(s: Seq<u8>, x: u8, released: Set<u8>)
    ensures
        drop_released(s.push(x), released) == (if !released.contains(x) {
            drop_released(s, released).push(x)
        } else {
            drop_released(s, released)
        }),
{
    reveal(Seq::filter);
    assert(s.push(x).drop_last() =~= s);
}

proof fn lemma_drop_released_empty(released: Set<u8>)
    ensures
        drop_released(Seq::empty(), released) == Seq::<u8>::empty(),
{
    reveal(Seq::filter);
}

/// Removing one note and then the released set is the same as widening
/// the released set by that note.
proof fn lemma_drop_released_without_note(s: Seq<u8>, note: u8, released: Set<u8>)
    ensures
        drop_released(without_note(s, note), released) == drop_released(
            s,
            released.insert(note),
        ),
    decreases s.len(),
{
    if s.len() == 0 {
        reveal(Seq::filter);
    } else {
        let front = s.drop_last();
        let x = s.last();
        lemma_drop_released_without_note(front, note, released);
        lemma_without_note_push(front, x, note);
        if x != note {
            lemma_drop_released_push(without_note(front, note), x, released);
        }
        lemma_drop_released_push(front, x, released.insert(note));
        assert(front.push(x) =~= s);
    }
}

/// With nothing released, the filter is the identity.
proof fn lemma_drop_released_none(s: Seq<u8>)
    ensures
        drop_released(s, Set::empty()) == s,
    decreases s.len(),
{
    if s.len() == 0 {
        reveal(Seq::filter);
    } else {
        lemma_drop_released_none(s.drop_last());
        lemma_drop_released_push(s.drop_last(), s.last(), Set::empty());
        assert(s.drop_last().push(s.last()) =~= s);
    }
}

proof fn lemma_latest_live_general(ops: Seq<NoteOp>, released: Set<u8>)
    ensures
        ({
            let filtered = drop_released(apply_note_ops(ops), released);
            latest_live_note(ops, released) == (if filtered.len() == 0 {
                None::<u8>
            } else {
                Some(filtered.last())
            })
        }),
    decreases ops.len(),
{
    if ops.len() == 0 {
        lemma_drop_released_empty(released);
    } else {
        let front = ops.drop_last();
        let s_front = apply_note_ops(front);
        match ops.last() {
            NoteOp::On(n) => {
                lemma_latest_live_general(front, released);
                lemma_drop_released_push(s_front, n, released);
            },
            NoteOp::Off(n) => {
                lemma_latest_live_general(front, released.insert(n));
                lemma_drop_released_without_note(s_front, n, released);
            },
        }
    }
}

/// Last-note priority, for every sequence of key events: the note the
/// stack reports as current is exactly the most recently pushed note not
/// yet matched by an equal-or-later release, and the stack is empty
/// exactly when no such note exists.
pub proof fn lemma_note_priority(ops: Seq<NoteOp>)
    ensures
        ({
            let stack = apply_note_ops(ops);
            (if stack.len() == 0 {
                None::<u8>
            } else {
                Some(stack.last())
            }) == latest_live_note(ops, Set::empty())
        }),
{
    lemma_latest_live_general(ops, Set::empty());
    lemma_drop_released_none(apply_note_ops(ops));
}

} // verus!
