//! The store: an ordered sequence of records, addressed by position.

use crate::entry::{entry_views, EntryView, PasswordEntry};
use vstd::prelude::*;

verus! {

/// The records in the order in which they were added. Nothing is unique: two
/// records may be equal, and a record is known only by its position.
#[derive(Debug, Clone, PartialEq, Eq)]
pub struct PasswordDatabase {
    pub entries: Vec<PasswordEntry>,
}

impl View for PasswordDatabase {
    type V = Seq<EntryView>;

    open spec fn view(&self) -> Seq<EntryView> {
        entry_views(self.entries@)
    }
}

impl Default for PasswordDatabase {
    /// The store without records.
    fn default() -> (db: PasswordDatabase)
        ensures
            db@ == Seq::<EntryView>::empty(),
    {
        PasswordDatabase { entries: Vec::new() }
    }
}

/// The records after a deletion at `index`: without the record at that
/// position, or unchanged where there is no such position.
pub open spec fn deleted_at(entries: Seq<EntryView>, index: int) -> Seq<EntryView> {
    if 0 <= index < entries.len() {
        entries.remove(index)
    } else {
        entries
    }
}

/// The records after a deletion at each of the positions, taken from the last
/// of `marked` to the first.
pub open spec fn deleted_descending(entries: Seq<EntryView>, marked: Seq<usize>) -> Seq<EntryView>
    decreases marked.len(),
{
    if marked.len() == 0 {
        entries
    } else {
        deleted_descending(deleted_at(entries, marked.last() as int), marked.drop_last())
    }
}

/// The records whose position is not in `marked`, in their order.
pub open spec fn without_positions(entries: Seq<EntryView>, marked: Set<int>) -> Seq<EntryView>
    decreases entries.len(),
{
    if entries.len() == 0 {
        entries
    } else if marked.contains(entries.len() - 1) {
        without_positions(entries.drop_last(), marked)
    } else {
        without_positions(entries.drop_last(), marked).push(entries.last())
    }
}

/// The positions of `marked`, as a set.
pub open spec fn position_set(marked: Seq<usize>) -> Set<int> {
    Set::new(|p: int| exists|k: int| 0 <= k < marked.len() && #[trigger] marked[k] == p)
}

/// Each position of `marked` is greater than the one before it.
pub open spec fn ascending(marked: Seq<usize>) -> bool {
    forall|i: int, j: int| 0 <= i < j < marked.len() ==> marked[i] < marked[j]
}

/// Two sets that agree on the positions of the sequence leave the same
/// records.
proof fn lemma_positions_agree(entries: Seq<EntryView>, a: Set<int>, b: Set<int>)
    requires
        forall|p: int| 0 <= p < entries.len() ==> (a.contains(p) <==> b.contains(p)),
    ensures
        without_positions(entries, a) == without_positions(entries, b),
    decreases entries.len(),
{
    if entries.len() > 0 {
        lemma_positions_agree(entries.drop_last(), a, b);
    }
}

/// Deleting at a position above all marked ones and then leaving out the
/// marked ones leaves out that position too.
proof fn lemma_delete_above(entries: Seq<EntryView>, marked: Set<int>, top: int)
    requires
        0 <= top,
        forall|p: int| marked.contains(p) ==> p < top,
    ensures
        without_positions(deleted_at(entries, top), marked) == without_positions(
            entries,
            marked.insert(top),
        ),
    decreases entries.len(),
{
    let n = entries.len() as int;
    if top >= n {
        lemma_positions_agree(entries, marked, marked.insert(top));
    } else if top == n - 1 {
        assert(entries.remove(top) =~= entries.drop_last());
        lemma_positions_agree(entries.drop_last(), marked, marked.insert(top));
    } else {
        let shorter = entries.remove(top);
        assert(shorter.drop_last() =~= entries.drop_last().remove(top));
        assert(shorter.last() == entries.last());
        assert(!marked.contains(n - 2));
        lemma_delete_above(entries.drop_last(), marked, top);
    }
}

/// Deletions at positions that were taken before any of them, applied from
/// the highest position down, remove the records that stood at those
/// positions and no others: the rest stays in its order. The positions are
/// given in ascending order; one beyond the end removes nothing.
pub proof fn lemma_descending_deletion(entries: Seq<EntryView>, marked: Seq<usize>)
    requires
        ascending(marked),
    ensures
        deleted_descending(entries, marked) == without_positions(entries, position_set(marked)),
    decreases marked.len(),
{
    if marked.len() == 0 {
        lemma_positions_agree(entries, position_set(marked), Set::empty());
        lemma_nothing_marked(entries);
    } else {
        let top = marked.last() as int;
        let rest = marked.drop_last();
        lemma_descending_deletion(deleted_at(entries, top), rest);
        assert forall|p: int| position_set(rest).contains(p) implies p < top by {
            let k = choose|k: int| 0 <= k < rest.len() && #[trigger] rest[k] == p;
            assert(marked[k] < marked[marked.len() - 1]);
        }
        lemma_delete_above(entries, position_set(rest), top);
        assert forall|p: int| position_set(rest).insert(top).contains(p) <==> position_set(
            marked,
        ).contains(p) by {
            if position_set(marked).contains(p) {
                let k = choose|k: int| 0 <= k < marked.len() && #[trigger] marked[k] == p;
                if k < rest.len() {
                    assert(rest[k] == p);
                }
            }
            if position_set(rest).contains(p) {
                let k = choose|k: int| 0 <= k < rest.len() && #[trigger] rest[k] == p;
                assert(marked[k] == p);
            }
            if p == top {
                assert(marked[marked.len() - 1] == p);
            }
        }
        lemma_positions_agree(entries, position_set(rest).insert(top), position_set(marked));
    }
}

/// With no position marked every record stays.
proof fn lemma_nothing_marked(entries: Seq<EntryView>)
    ensures
        without_positions(entries, Set::empty()) == entries,
    decreases entries.len(),
{
    if entries.len() > 0 {
        lemma_nothing_marked(entries.drop_last());
        assert(entries.drop_last().push(entries.last()) =~= entries);
    }
}

impl PasswordDatabase {
    /// Appends a record with the given texts, its password masked. Any text is
    /// accepted, the empty one too.
    pub fn add_entry(&mut self, site: String, username: String, password: String)
        ensures
            final(self)@ == old(self)@.push(
                EntryView {
                    site: site@,
                    username: username@,
                    password: password@,
                    is_password_visible: false,
                },
            ),
            final(self)@.len() == old(self)@.len() + 1,
            final(self)@.last().triple() == (site@, username@, password@),
            !final(self)@.last().is_password_visible,
            forall|j: int| 0 <= j < old(self)@.len() ==> final(self)@[j] == old(self)@[j],
    {
        self.entries.push(PasswordEntry { site, username, password, is_password_visible: false });
    }

    /// Removes the record at `index` and moves the later ones up by one; does
    /// nothing where there is no such position.
    pub fn delete_entry(&mut self, index: usize)
        ensures
            final(self)@ == deleted_at(old(self)@, index as int),
            index >= old(self)@.len() ==> *final(self) == *old(self),
            index < old(self)@.len() ==> {
                &&& final(self)@.len() == old(self)@.len() - 1
                &&& forall|j: int| 0 <= j < index ==> final(self)@[j] == old(self)@[j]
                &&& forall|j: int|
                    index <= j < final(self)@.len() ==> final(self)@[j] == old(self)@[j + 1]
            },
    {
        if index < self.entries.len() {
            self.entries.remove(index);
        }
    }

    /// Deletes at each of the positions, from the last of `marked` to the
    /// first, as `delete_entry` does it. Where the positions are ascending,
    /// as a pass over the list takes them, this removes the records that
    /// stood at them before the call and no others.
    pub fn delete_entries(&mut self, marked: &Vec<usize>)
        ensures
            final(self)@ == deleted_descending(old(self)@, marked@),
            ascending(marked@) ==> final(self)@ == without_positions(
                old(self)@,
                position_set(marked@),
            ),
    {
        let mut k: usize = marked.len();
        assert(marked@.take(k as int) =~= marked@);
        while k > 0
            invariant
                k <= marked.len(),
                deleted_descending(self@, marked@.take(k as int)) == deleted_descending(
                    old(self)@,
                    marked@,
                ),
            decreases k,
        {
            proof {
                let head = marked@.take(k as int);
                assert(head.last() == marked@[k - 1]);
                assert(head.drop_last() =~= marked@.take(k - 1));
            }
            k -= 1;
            self.delete_entry(marked[k]);
        }
        proof {
            if ascending(marked@) {
                lemma_descending_deletion(old(self)@, marked@);
            }
        }
    }

    /// Turns over the display flag of the record at `index`; does nothing
    /// where there is no such position.
    pub fn toggle_visibility(&mut self, index: usize)
        ensures
            index < old(self)@.len() ==> final(self)@ == old(self)@.update(
                index as int,
                old(self)@[index as int].toggled(),
            ),
            index >= old(self)@.len() ==> *final(self) == *old(self),
    {
        if index < self.entries.len() {
            let shown = self.entries[index].is_password_visible;
            self.entries[index].is_password_visible = !shown;
        }
    }
}

} // verus!
