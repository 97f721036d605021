//! The low-note-priority note allocator: a fixed-capacity binary min-heap
//! of the currently held notes.  The root, slot 1, holds the lowest note;
//! slot 0 is unused.  Turning a note on inserts it and sifts up; turning a
//! note off replaces the first matching slot with the last live slot and
//! sifts down, as the audio path requires.
//!
//! Sifting down alone does not always restore the heap shape when the
//! freed slot lies in the middle of the heap, so the shape is a separate
//! predicate rather than an invariant of the type: insertion preserves it,
//! and removal preserves it when the note removed sat at the root or was
//! not found.  Whenever the shape holds, the root is the minimum of the
//! held notes.

use vstd::prelude::*;

verus! {

use vstd::seq_lib::group_to_multiset_ensures;
use vstd::multiset::group_multiset_axioms;

/// Number of note slots, the unused slot 0 included.
pub const NUMBER_OF_NOTES: usize = 32;

/// The sentinel marking an unused slot; every playable note is below it.
pub const NO_NOTE: u64 = 0xFFFF_FFFF_FFFF_FFFF;

pub struct NoteSelector {
    pub notes: Vec<u64>,
    pub number_of_notes: usize,
}

/// The min-heap shape over the whole slot array: every slot is at least
/// its parent.  Unused slots hold the sentinel, so they never disturb it.
pub open spec fn heap_shape(s: Seq<u64>) -> bool {
    forall|j: int| 2 <= j < 32 ==> #[trigger] s[j] >= s[j / 2]
}

/// The heap shape everywhere except at the link from the parent of `pos`
/// into `pos`, the hole a sift-up moves toward the root.
pub open spec fn almost_heap(s: Seq<u64>, pos: int) -> bool {
    forall|j: int| 2 <= j < 32 && j != pos ==> #[trigger] s[j] >= s[j / 2]
}

/// While sifting up: the parent of `pos` already sits below the children
/// of `pos`, so a swap at `pos` cannot break the shape beneath it.
pub open spec fn bridge(s: Seq<u64>, pos: int) -> bool {
    pos >= 2 ==> {
        &&& (2 * pos < 32 ==> s[pos / 2] <= s[2 * pos])
        &&& (2 * pos + 1 < 32 ==> s[pos / 2] <= s[2 * pos + 1])
    }
}

/// The heap shape everywhere except at the links from `pos` down to its
/// children, the hole a sift-down moves toward the leaves.
pub open spec fn down_heap(s: Seq<u64>, pos: int) -> bool {
    forall|j: int| 2 <= j < 32 && j / 2 != pos ==> #[trigger] s[j] >= s[j / 2]
}

/// While sifting down: the parent of `pos` sits below `pos` and below the
/// children of `pos`, so a swap at `pos` cannot break the link above.
pub open spec fn down_bridge(s: Seq<u64>, pos: int) -> bool {
    pos >= 2 ==> {
        &&& s[pos / 2] <= s[pos]
        &&& (2 * pos < 32 ==> s[pos / 2] <= s[2 * pos])
        &&& (2 * pos + 1 < 32 ==> s[pos / 2] <= s[2 * pos + 1])
    }
}

impl NoteSelector {
    /// Structural well-formedness: 32 slots, a live count below capacity,
    /// playable notes in the live slots, the sentinel everywhere else.
    pub open spec fn wf(&self) -> bool {
        &&& self.notes@.len() == 32
        &&& self.number_of_notes < 32
        &&& self.notes@[0] == NO_NOTE
        &&& (forall|i: int| 1 <= i <= self.number_of_notes ==> #[trigger] self.notes@[i] < NO_NOTE)
        &&& (forall|i: int| self.number_of_notes < i < 32 ==> #[trigger] self.notes@[i] == NO_NOTE)
    }

    /// The currently held notes, in slot order.
    pub open spec fn live(&self) -> Seq<u64> {
        self.notes@.subrange(1, self.number_of_notes as int + 1)
    }

    pub open spec fn heap_wf(&self) -> bool {
        heap_shape(self.notes@)
    }

    /// Creates an empty selector.
    pub fn new() -> (r: Self)
        ensures
            r.wf(),
            r.heap_wf(),
            r.number_of_notes == 0,
            r.live() == Seq::<u64>::empty(),
    {
        let mut notes: Vec<u64> = Vec::new();
        let mut i: usize = 0;
        while i < NUMBER_OF_NOTES
            invariant
                i <= 32,
                notes@.len() == i,
                forall|j: int| 0 <= j < i ==> #[trigger] notes@[j] == NO_NOTE,
            decreases 32 - i,
        {
            notes.push(NO_NOTE);
            i = i + 1;
        }
        let r = NoteSelector { notes: notes, number_of_notes: 0 };
        proof {
            assert(r.live() =~= Seq::<u64>::empty());
        }
        r
    }

    /// Swaps two slots.
    fn swap_slots(&mut self, a: usize, b: usize)
        requires
            old(self).notes@.len() == 32,
            1 <= a < 32,
            1 <= b < 32,
        ensures
            final(self).notes@ == old(self).notes@.update(a as int, old(self).notes@[b as int]).update(
                b as int,
                old(self).notes@[a as int],
            ),
            final(self).number_of_notes == old(self).number_of_notes,
    {
        let va = self.notes[a];
        let vb = self.notes[b];
        self.notes[a] = vb;
        self.notes[b] = va;
    }

    /// Inserts a note and returns the note at the root.  The count grows
    /// until the heap is full; on a full heap the last slot is overwritten
    /// instead, losing the note it held.  When the heap shape held before
    /// the call it still holds, and the returned root is then the minimum
    /// of the held notes.
    #[verifier::rlimit(100)]
    pub fn turn_on_note(&mut self, note: u64) -> (r: u64)
        requires
            old(self).wf(),
            note < NO_NOTE,
        ensures
            final(self).wf(),
            final(self).number_of_notes == if old(self).number_of_notes + 1 < 32 {
                old(self).number_of_notes + 1
            } else {
                old(self).number_of_notes as int
            },
            old(self).number_of_notes + 1 < 32 ==> final(self).live().to_multiset()
                == old(self).live().to_multiset().insert(note),
            old(self).number_of_notes + 1 >= 32 ==> final(self).live().to_multiset()
                == old(self).live().to_multiset().remove(old(self).notes@[31]).insert(note),
            r == final(self).notes@[1],
            old(self).heap_wf() ==> final(self).heap_wf(),
            old(self).heap_wf() ==> final(self).live().contains(r) && (forall|i: int|
                0 <= i < final(self).live().len() ==> r <= #[trigger] final(self).live()[i]),
    {
        let ghost orig = *old(self);
        if self.number_of_notes + 1 < NUMBER_OF_NOTES {
            self.number_of_notes = self.number_of_notes + 1;
        }
        let count = self.number_of_notes;
        self.notes[count] = note;

        proof {
            broadcast use group_to_multiset_ensures;
            broadcast use group_multiset_axioms;
            if orig.number_of_notes + 1 < 32 {
                assert(self.live() =~= orig.live().push(note));
            } else {
                assert(self.live() =~= orig.live().update(30, note));
                lemma_update_multiset(orig.live(), 30, note);
                assert(orig.live()[30] == orig.notes@[31]);
            }
        }
        let ghost target = self.live().to_multiset();

        let mut pos: usize = count;
        let mut parent: usize = pos / 2;

        proof {
            if orig.heap_wf() {
                assert forall|j: int| 2 <= j < 32 && j != pos implies #[trigger] self.notes@[j]
                    >= self.notes@[j / 2] by {
                    assert(orig.notes@[j] >= orig.notes@[j / 2]);
                    if j / 2 == pos {
                        assert(self.notes@[j] == NO_NOTE);
                    }
                }
                assert(almost_heap(self.notes@, pos as int));
            }
        }

        while parent > 0
            invariant
                self.wf(),
                self.number_of_notes == count,
                1 <= pos <= count,
                count < 32,
                parent == pos / 2,
                self.live().to_multiset() == target,
                orig.heap_wf() ==> almost_heap(self.notes@, pos as int) && bridge(self.notes@, pos as int),
            ensures
                self.wf(),
                self.number_of_notes == count,
                self.live().to_multiset() == target,
                orig.heap_wf() ==> heap_shape(self.notes@),
            decreases pos,
        {
            if self.notes[parent] > self.notes[pos] {
                let ghost before = self.notes@;
                self.swap_slots(parent, pos);
                proof {
                    broadcast use group_to_multiset_ensures;
                    broadcast use group_multiset_axioms;
                    let sub = before.subrange(1, count as int + 1);
                    assert(self.live() =~= sub.update(parent as int - 1, sub[pos as int - 1]).update(
                        pos as int - 1,
                        sub[parent as int - 1],
                    ));
                    lemma_swap_multiset(sub, parent as int - 1, pos as int - 1);
                    if orig.heap_wf() {
                        lemma_sift_up_swap(before, self.notes@, pos as int, parent as int);
                    }
                }
            } else {
                proof {
                    if orig.heap_wf() {
                        assert forall|j: int| 2 <= j < 32 implies #[trigger] self.notes@[j]
                            >= self.notes@[j / 2] by {
                            if j != pos {
                                assert(self.notes@[j] >= self.notes@[j / 2]);
                            }
                        }
                    }
                }
                break;
            }

            pos = parent;
            parent = pos / 2;
        }

        proof {
            if orig.heap_wf() {
                assert(heap_shape(self.notes@));
                lemma_heap_root_le_all(self.notes@, count as int);
                assert(self.live()[0] == self.notes@[1]);
                assert(self.live().contains(self.notes@[1]));
                assert forall|i: int| 0 <= i < self.live().len() implies self.notes@[1]
                    <= #[trigger] self.live()[i] by {
                    assert(self.live()[i] == self.notes@[i + 1]);
                }
            }
        }
        self.notes[1]
    }

    /// Finds the first live slot holding the note; 0 when none does.
    fn find_note(&self, note: u64) -> (r: usize)
        requires
            self.wf(),
        ensures
            r == 0 ==> forall|j: int| 1 <= j <= self.number_of_notes ==> self.notes@[j] != note,
            r != 0 ==> 1 <= r <= self.number_of_notes && self.notes@[r as int] == note && (forall|j: int|
                1 <= j < r ==> self.notes@[j] != note),
    {
        let mut i: usize = 1;
        while i <= self.number_of_notes
            invariant
                self.wf(),
                1 <= i <= self.number_of_notes + 1,
                forall|j: int| 1 <= j < i ==> self.notes@[j] != note,
            decreases self.number_of_notes + 1 - i,
        {
            if self.notes[i] == note {
                return i;
            }
            i = i + 1;
        }
        0
    }

    /// Removes the first live slot matching the note, if any, and returns
    /// the lowest note still held, or nothing when no note is left.  The
    /// freed slot takes the last live note and sifts down.  When the heap
    /// shape held before the call, the returned root is the minimum of the
    /// notes still held; the shape itself is preserved when the match was
    /// at the root or nowhere, though not always when it was in the middle.
    #[verifier::rlimit(100)]
    pub fn turn_off_note(&mut self, note: u64) -> (r: Option<u64>)
        requires
            old(self).wf(),
        ensures
            final(self).wf(),
            final(self).number_of_notes as int == if old(self).live().contains(note) {
                old(self).number_of_notes - 1
            } else {
                old(self).number_of_notes as int
            },
            old(self).live().contains(note) ==> final(self).live().to_multiset()
                == old(self).live().to_multiset().remove(note),
            !old(self).live().contains(note) ==> final(self).notes@ == old(self).notes@,
            r == if final(self).notes@[1] < NO_NOTE {
                Some(final(self).notes@[1])
            } else {
                Option::<u64>::None
            },
            old(self).heap_wf() && (!old(self).live().contains(note) || old(self).notes@[1] == note)
                ==> final(self).heap_wf(),
            old(self).heap_wf() ==> match r {
                Some(v) => final(self).live().contains(v) && (forall|i: int|
                    0 <= i < final(self).live().len() ==> v <= #[trigger] final(self).live()[i]),
                None => final(self).number_of_notes == 0,
            },
    {
        let ghost orig = *old(self);
        let pos_found = self.find_note(note);

        proof {
            assert forall|i: int| 0 <= i < orig.live().len() implies #[trigger] orig.live()[i]
                == orig.notes@[i + 1] by {}
            if pos_found == 0 {
                assert(!orig.live().contains(note));
            } else {
                assert(orig.live()[pos_found as int - 1] == note);
                assert(orig.live().contains(note));
            }
        }

        if pos_found > 0 {
            let mut pos = pos_found;
            let count = self.number_of_notes;
            let last_note = self.notes[count];
            self.notes[pos] = last_note;
            self.notes[count] = NO_NOTE;
            self.number_of_notes = count - 1;

            proof {
                broadcast use group_to_multiset_ensures;
                broadcast use group_multiset_axioms;
                let sub = orig.live();
                let u = sub.update(pos as int - 1, sub[sub.len() - 1]);
                assert(self.live() =~= u.drop_last());
                lemma_update_multiset(sub, pos as int - 1, sub[sub.len() - 1]);
                assert(u.drop_last() =~= u.remove(u.len() - 1));
                assert(u.remove(u.len() - 1).to_multiset() =~= u.to_multiset().remove(u[u.len() - 1]));
                assert(u[u.len() - 1] == sub[sub.len() - 1]);
                assert(self.live().to_multiset() =~= sub.to_multiset().remove(note));
            }
            let ghost removed = self.notes@;
            let ghost target = self.live().to_multiset();
            let ghost count2 = self.number_of_notes;

            proof {
                if orig.heap_wf() && pos_found == 1 {
                    assert forall|j: int| 2 <= j < 32 && j / 2 != 1 implies #[trigger] self.notes@[j]
                        >= self.notes@[j / 2] by {
                        assert(orig.notes@[j] >= orig.notes@[j / 2]);
                        if j == count {
                        } else if j / 2 == count {
                            assert(orig.notes@[j] == NO_NOTE);
                        }
                    }
                    assert(down_heap(self.notes@, 1));
                }
            }

            let mut left = 2 * pos;
            let mut right = left + 1;

            loop
                invariant
                    self.wf(),
                    self.number_of_notes == count2,
                    count2 < 32,
                    1 <= pos < 32,
                    left == 2 * pos,
                    right == left + 1,
                    self.live().to_multiset() == target,
                    pos_found >= 2 ==> pos >= 2 && self.notes@[1] == removed[1],
                    orig.heap_wf() && pos_found == 1 ==> down_heap(self.notes@, pos as int)
                        && down_bridge(self.notes@, pos as int),
                ensures
                    self.wf(),
                    self.number_of_notes == count2,
                    self.live().to_multiset() == target,
                    pos_found >= 2 ==> self.notes@[1] == removed[1],
                    orig.heap_wf() && pos_found == 1 ==> heap_shape(self.notes@),
                decreases 32 - pos,
            {
                if right >= NUMBER_OF_NOTES {
                    proof {
                        if orig.heap_wf() && pos_found == 1 {
                            assert forall|j: int| 2 <= j < 32 implies #[trigger] self.notes@[j]
                                >= self.notes@[j / 2] by {
                                assert(j / 2 != pos);
                            }
                        }
                    }
                    break;
                }

                if self.notes[pos] <= self.notes[left] && self.notes[pos] <= self.notes[right] {
                    proof {
                        if orig.heap_wf() && pos_found == 1 {
                            assert forall|j: int| 2 <= j < 32 implies #[trigger] self.notes@[j]
                                >= self.notes@[j / 2] by {
                                if j / 2 == pos {
                                    assert(j == left || j == right);
                                }
                            }
                        }
                    }
                    break;
                }

                let next: usize;
                if self.notes[left] <= self.notes[right] {
                    next = left;
                } else {
                    next = right;
                }
                proof {
                    assert(self.notes@[next as int] < self.notes@[pos as int]);
                    assert(self.notes@[next as int] < NO_NOTE);
                    assert(next <= count2);
                }

                let ghost before = self.notes@;
                self.swap_slots(pos, next);
                proof {
                    broadcast use group_to_multiset_ensures;
                    broadcast use group_multiset_axioms;
                    let sub = before.subrange(1, count2 as int + 1);
                    assert(self.live() =~= sub.update(pos as int - 1, sub[next as int - 1]).update(
                        next as int - 1,
                        sub[pos as int - 1],
                    ));
                    lemma_swap_multiset(sub, pos as int - 1, next as int - 1);
                    if orig.heap_wf() && pos_found == 1 {
                        lemma_sift_down_swap(before, self.notes@, pos as int, next as int);
                    }
                }
                pos = next;
                left = 2 * pos;
                right = left + 1;
            }
        }

        let root = self.notes[1];
        proof {
            assert(self.number_of_notes >= 1 ==> self.notes@[1] < NO_NOTE);
            assert(self.number_of_notes == 0 ==> self.notes@[1] == NO_NOTE);
            if orig.heap_wf() && self.number_of_notes >= 1 {
                assert(self.live()[0] == self.notes@[1]);
                assert(self.live().contains(self.notes@[1]));
                if pos_found == 0 {
                    assert(heap_shape(self.notes@));
                    lemma_heap_root_le_all(self.notes@, self.number_of_notes as int);
                    assert forall|i: int| 0 <= i < self.live().len() implies self.notes@[1]
                        <= #[trigger] self.live()[i] by {
                        assert(self.live()[i] == self.notes@[i + 1]);
                    }
                } else if pos_found == 1 {
                    lemma_heap_root_le_all(self.notes@, self.number_of_notes as int);
                    assert forall|i: int| 0 <= i < self.live().len() implies self.notes@[1]
                        <= #[trigger] self.live()[i] by {
                        assert(self.live()[i] == self.notes@[i + 1]);
                    }
                } else {
                    // the root was never touched; every note still held was
                    // already held before, so the old minimum still bounds it
                    broadcast use group_to_multiset_ensures;
                    broadcast use group_multiset_axioms;
                    assert(self.notes@[1] == orig.notes@[1]);
                    lemma_heap_root_le_all(orig.notes@, orig.number_of_notes as int);
                    assert forall|i: int| 0 <= i < self.live().len() implies self.notes@[1]
                        <= #[trigger] self.live()[i] by {
                        let x = self.live()[i];
                        assert(self.live().contains(x));
                        assert(self.live().to_multiset().count(x) > 0);
                        assert(orig.live().to_multiset().count(x) > 0);
                        assert(orig.live().contains(x));
                        let k = choose|k: int| 0 <= k < orig.live().len() && orig.live()[k] == x;
                        assert(orig.live()[k] == orig.notes@[k + 1]);
                    }
                }
            }
        }
        if root < NO_NOTE {
            Some(root)
        } else {
            None
        }
    }
}

// ===========================================================================
// Heap-shape lemmas
// ===========================================================================

/// One sift-up swap: exchanging `pos` with its greater parent moves the
/// hole to the parent and keeps the rest of the shape.
proof fn lemma_sift_up_swap(before: Seq<u64>, after: Seq<u64>, pos: int, parent: int)
    requires
        before.len() == 32,
        2 <= pos < 32,
        1 <= parent,
        parent == pos / 2,
        after == before.update(parent, before[pos]).update(pos, before[parent]),
        before[parent] > before[pos],
        almost_heap(before, pos),
        bridge(before, pos),
    ensures
        almost_heap(after, parent),
        bridge(after, parent),
{
    assert forall|j: int| 2 <= j < 32 && j != parent implies #[trigger] after[j] >= after[j / 2] by {
        if j == pos {
            assert(after[j] == before[parent]);
            assert(after[j / 2] == before[pos]);
        } else if j / 2 == pos {
            assert(before[j] >= before[j / 2]);
            assert(bridge(before, pos));
            assert(before[pos / 2] <= before[j]);
        } else if j / 2 == parent {
            assert(before[j] >= before[j / 2]);
        } else {
            assert(before[j] >= before[j / 2]);
        }
    }
    if parent >= 2 {
        assert(before[parent] >= before[parent / 2]);
        if 2 * parent < 32 {
            let c = 2 * parent;
            if c != pos {
                assert(before[c] >= before[c / 2]);
            }
        }
        if 2 * parent + 1 < 32 {
            let c = 2 * parent + 1;
            if c != pos {
                assert(before[c] >= before[c / 2]);
            }
        }
    }
}

/// One sift-down swap: exchanging `pos` with its smallest child when that
/// child is smaller moves the hole to the child and keeps the rest of the
/// shape.
proof fn lemma_sift_down_swap(before: Seq<u64>, after: Seq<u64>, pos: int, next: int)
    requires
        before.len() == 32,
        1 <= pos < 32,
        2 * pos + 1 < 32,
        next == 2 * pos || next == 2 * pos + 1,
        after == before.update(pos, before[next]).update(next, before[pos]),
        before[next] < before[pos],
        before[next] <= before[2 * pos],
        before[next] <= before[2 * pos + 1],
        down_heap(before, pos),
        down_bridge(before, pos),
    ensures
        down_heap(after, next),
        down_bridge(after, next),
{
    assert forall|j: int| 2 <= j < 32 && j / 2 != next implies #[trigger] after[j] >= after[j / 2] by {
        if j == pos {
            assert(down_bridge(before, pos));
            assert(after[j] == before[next]);
        } else if j == next {
            assert(after[j] == before[pos]);
            assert(after[j / 2] == before[next]);
        } else if j / 2 == pos {
            assert(after[j] == before[j]);
            assert(after[pos] == before[next]);
        } else {
            assert(before[j] >= before[j / 2]);
        }
    }
    assert(after[next / 2] == before[next]);
    assert(after[next] == before[pos]);
    if 2 * next < 32 {
        assert(before[2 * next] >= before[next]);
    }
    if 2 * next + 1 < 32 {
        assert(before[2 * next + 1] >= before[next]);
    }
}

/// Low-note priority: whenever the selector keeps the heap shape, slot 1
/// is one of the held notes and no held note is below it.
pub proof fn lemma_root_is_minimum(s: &NoteSelector)
    requires
        s.wf(),
        s.heap_wf(),
        s.number_of_notes >= 1,
    ensures
        s.live().contains(s.notes@[1]),
        forall|i: int| 0 <= i < s.live().len() ==> s.notes@[1] <= #[trigger] s.live()[i],
{
    lemma_heap_root_le_all(s.notes@, s.number_of_notes as int);
    assert(s.live()[0] == s.notes@[1]);
    assert forall|i: int| 0 <= i < s.live().len() implies s.notes@[1] <= #[trigger] s.live()[i] by {
        assert(s.live()[i] == s.notes@[i + 1]);
    }
}

/// In a heap-shaped array the root is at most every slot.
pub proof fn lemma_heap_root_index(s: Seq<u64>, i: int)
    requires
        s.len() == 32,
        heap_shape(s),
        1 <= i < 32,
    ensures
        s[1] <= s[i],
    decreases i,
{
    if i >= 2 {
        lemma_heap_root_index(s, i / 2);
    }
}

/// In a heap-shaped array the root is at most every live slot.
pub proof fn lemma_heap_root_le_all(s: Seq<u64>, count: int)
    requires
        s.len() == 32,
        heap_shape(s),
        0 <= count < 32,
    ensures
        forall|i: int| 1 <= i <= count ==> s[1] <= #[trigger] s[i],
{
    assert forall|i: int| 1 <= i <= count implies s[1] <= #[trigger] s[i] by {
        lemma_heap_root_index(s, i);
    }
}

// ===========================================================================
// Multiset lemmas
// ===========================================================================

/// Updating one element exchanges it in the multiset of the sequence.
proof fn lemma_update_multiset(s: Seq<u64>, i: int, v: u64)
    requires
        0 <= i < s.len(),
    ensures
        s.update(i, v).to_multiset() == s.to_multiset().remove(s[i]).insert(v),
{
    broadcast use group_to_multiset_ensures;
    broadcast use group_multiset_axioms;
    let t = s.update(i, v);
    assert(t.remove(i) =~= s.remove(i));
    assert(t.remove(i).to_multiset() =~= t.to_multiset().remove(t[i]));
    assert(s.remove(i).to_multiset() =~= s.to_multiset().remove(s[i]));
    assert(t[i] == v);
    assert(t.contains(v));
    assert(t.to_multiset().count(v) > 0);
    assert(t.to_multiset() =~= s.to_multiset().remove(s[i]).insert(v));
}

/// Swapping two elements leaves the multiset of the sequence unchanged.
proof fn lemma_swap_multiset(s: Seq<u64>, i: int, j: int)
    requires
        0 <= i < s.len(),
        0 <= j < s.len(),
    ensures
        s.update(i, s[j]).update(j, s[i]).to_multiset() == s.to_multiset(),
{
    broadcast use group_to_multiset_ensures;
    broadcast use group_multiset_axioms;
    if i == j {
        assert(s.update(i, s[j]).update(j, s[i]) =~= s);
    } else {
        let s1 = s.update(i, s[j]);
        lemma_update_multiset(s, i, s[j]);
        assert(s1[j] == s[j]);
        lemma_update_multiset(s1, j, s[i]);
        assert(s.contains(s[i]));
        assert(s.to_multiset().count(s[i]) > 0);
        assert(s.to_multiset().remove(s[i]).insert(s[j]).remove(s[j]).insert(s[i]) =~= s.to_multiset());
    }
}

} // verus!
