//! Plugin-data blocks: the state a plugin attaches to a document or a page.
//!
//! A block is attached once, found again by its handle in every later
//! callback for the same object, and released once. The store owns every
//! block between those two moments.

use vstd::prelude::*;

verus! {

/// How many of the slots `s` hold a block.
pub open spec fn count_live<T>(s: Seq<Option<T>>) -> nat
    decreases s.len(),
{
    if s.len() == 0 {
        0
    } else {
        count_live(s.drop_last()) + if s.last().is_some() {
            1nat
        } else {
            0nat
        }
    }
}

/// No more slots hold a block than there are slots.
pub proof fn lemma_count_live_bound<T>(s: Seq<Option<T>>)
    ensures
        count_live(s) <= s.len(),
    decreases s.len(),
{
    if s.len() > 0 {
        lemma_count_live_bound(s.drop_last());
    }
}

/// Writing slot `i` changes the count by what the slot gains or loses.
pub proof fn lemma_count_live_update<T>(s: Seq<Option<T>>, i: int, v: Option<T>)
    requires
        0 <= i < s.len(),
    ensures
        count_live(s.update(i, v)) + (if s[i].is_some() { 1nat } else { 0nat })
            == count_live(s) + (if v.is_some() { 1nat } else { 0nat }),
    decreases s.len(),
{
    let t = s.update(i, v);
    if i == s.len() - 1 {
        assert(t.drop_last() =~= s.drop_last());
    } else {
        assert(t.drop_last() =~= s.drop_last().update(i, v));
        lemma_count_live_update(s.drop_last(), i, v);
    }
}

/// `handle` is the handle that the next block gets: the lowest one under
/// which `s` holds no block.
pub open spec fn free_handle<T>(s: Seq<Option<T>>, handle: usize) -> bool {
    &&& handle <= s.len()
    &&& handle < s.len() ==> s[handle as int].is_none()
    &&& forall|h: int| 0 <= h < handle ==> (#[trigger] s[h]).is_some()
}

/// The slots `s` after `value` is attached under `handle`.
pub open spec fn attached<T>(s: Seq<Option<T>>, handle: usize, value: T) -> Seq<Option<T>> {
    if handle < s.len() {
        s.update(handle as int, Some(value))
    } else {
        s.push(Some(value))
    }
}

/// The slots `s` after the block under `handle` is released.
pub open spec fn released<T>(s: Seq<Option<T>>, handle: usize) -> Seq<Option<T>> {
    if handle < s.len() {
        s.update(handle as int, None)
    } else {
        s
    }
}

/// A block that is attached is found under its handle unchanged, counts as
/// one more live block, and once released leaves the store with as many
/// live blocks as before it was attached, and none under that handle.
pub proof fn lemma_attach_release<T>(s: Seq<Option<T>>, handle: usize, value: T)
    requires
        free_handle(s, handle),
    ensures
        attached(s, handle, value)[handle as int] == Some(value),
        count_live(attached(s, handle, value)) == count_live(s) + 1,
        count_live(released(attached(s, handle, value), handle)) == count_live(s),
        released(attached(s, handle, value), handle)[handle as int].is_none(),
        forall|h: int|
            0 <= h < s.len() && h != handle ==> released(attached(s, handle, value), handle)[h]
                == s[h],
{
    let a = attached(s, handle, value);
    if handle < s.len() {
        lemma_count_live_update(s, handle as int, Some(value));
    } else {
        assert(a.drop_last() =~= s);
    }
    lemma_count_live_update(a, handle as int, None);
}

/// The slot that the pointer-sized word `word` stands for in a data pointer
/// of the host: zero is the empty slot, any other word the handle one below
/// it.
pub open spec fn slot_of_word(word: usize) -> Option<usize> {
    if word == 0 {
        None
    } else {
        Some((word - 1) as usize)
    }
}

/// Reads a slot from a data pointer of the host, taken as a word.
pub fn word_to_slot(word: usize) -> (slot: Option<usize>)
    ensures
        slot == slot_of_word(word),
{
    if word == 0 {
        None
    } else {
        Some(word - 1)
    }
}

/// The word that stands for `slot` in a data pointer of the host, or `None`
/// for the one handle that no word stands for, the largest.
pub fn slot_to_word(slot: Option<usize>) -> (word: Option<usize>)
    ensures
        word.is_none() <==> slot == Some(usize::MAX),
        word.is_some() ==> slot_of_word(word.unwrap()) == slot,
        word == Some(0usize) <==> slot.is_none(),
{
    match slot {
        None => Some(0),
        Some(handle) => if handle < usize::MAX {
            Some(handle + 1)
        } else {
            None
        },
    }
}

/// Arena of plugin-data blocks of one type, each found by the handle that
/// `attach` gave out.
pub struct DataStore<T> {
    slots: Vec<Option<T>>,
    live: usize,
}

impl<T> DataStore<T> {
    /// The slots of the store by handle: `Some` where a block is attached.
    pub closed spec fn view(&self) -> Seq<Option<T>> {
        self.slots@
    }

    /// The store's bookkeeping agrees with its slots.
    pub closed spec fn wf(&self) -> bool {
        self.live == count_live(self.slots@)
    }

    /// A block is attached under `handle`.
    pub open spec fn holds(&self, handle: usize) -> bool {
        handle < self@.len() && self@[handle as int].is_some()
    }

    /// The block attached under `handle`.
    pub open spec fn block(&self, handle: usize) -> T
        recommends
            self.holds(handle),
    {
        self@[handle as int].unwrap()
    }

    /// The number of blocks attached and not yet released.
    pub open spec fn live_blocks(&self) -> nat {
        count_live(self@)
    }

    /// `after` is this store with nothing changed but, possibly, what the
    /// block under `handle` holds.
    pub open spec fn same_but_block(&self, handle: usize, after: &Self) -> bool {
        &&& after@.len() == self@.len()
        &&& after.holds(handle)
        &&& after.live_blocks() == self.live_blocks()
        &&& forall|h: int| 0 <= h < self@.len() && h != handle ==> after@[h] == self@[h]
    }

    /// An empty store.
    pub fn new() -> (s: Self)
        ensures
            s.wf(),
            s@.len() == 0,
            s.live_blocks() == 0,
    {
        DataStore { slots: Vec::new(), live: 0 }
    }

    /// Takes ownership of `value` and returns the handle under which it is
    /// found from now on: the lowest handle that holds no block.
    pub fn attach(&mut self, value: T) -> (handle: usize)
        requires
            old(self).wf(),
        ensures
            final(self).wf(),
            free_handle(old(self)@, handle),
            final(self)@ == attached(old(self)@, handle, value),
            final(self).holds(handle),
            final(self).block(handle) == value,
            final(self).live_blocks() == old(self).live_blocks() + 1,
    {
        let n = self.slots.len();
        let mut i: usize = 0;
        while i < n && self.slots[i].is_some()
            invariant
                n == self.slots.len(),
                i <= n,
                forall|h: int| 0 <= h < i ==> (#[trigger] self.slots@[h]).is_some(),
            decreases n - i,
        {
            i += 1;
        }
        if i < n {
            proof {
                lemma_count_live_update(self.slots@, i as int, Some(value));
            }
            self.slots[i] = Some(value);
        } else {
            self.slots.push(Some(value));
            assert(self.slots@.drop_last() =~= old(self).slots@);
        }
        let total = self.slots.len();
        proof {
            lemma_count_live_bound(self.slots@);
            assert(self.live + 1 <= total);
        }
        self.live = self.live + 1;
        i
    }

    /// Whether a block is attached under `handle`.
    pub fn contains(&self, handle: usize) -> (b: bool)
        ensures
            b == self.holds(handle),
    {
        handle < self.slots.len() && self.slots[handle].is_some()
    }

    /// The block attached under `handle`, if there is one.
    pub fn get(&self, handle: usize) -> (r: Option<&T>)
        ensures
            r.is_some() <==> self.holds(handle),
            r.is_some() ==> *r.unwrap() == self.block(handle),
    {
        if handle < self.slots.len() {
            self.slots[handle].as_ref()
        } else {
            None
        }
    }

    /// Detaches the block under `handle` and hands it to the caller, who
    /// drops it. A handle that holds no block releases nothing.
    pub fn release(&mut self, handle: usize) -> (r: Option<T>)
        requires
            old(self).wf(),
        ensures
            final(self).wf(),
            r.is_some() <==> old(self).holds(handle),
            r.is_some() ==> r.unwrap() == old(self).block(handle) && final(self).live_blocks() + 1
                == old(self).live_blocks(),
            r.is_none() ==> final(self)@ == old(self)@,
            final(self)@ =~= released(old(self)@, handle),
            !final(self).holds(handle),
    {
        if handle < self.slots.len() {
            proof {
                lemma_count_live_update(self.slots@, handle as int, None);
            }
            let taken = self.slots[handle].take();
            if taken.is_some() {
                self.live = self.live - 1;
            } else {
                assert(self.slots@ =~= old(self).slots@);
            }
            taken
        } else {
            None
        }
    }

    /// Exclusive access to the block under `handle`, if there is one. The
    /// block stays attached; what the caller writes to it is what the store
    /// holds afterwards.
    pub fn get_mut(&mut self, handle: usize) -> (r: Option<&mut T>)
        requires
            old(self).wf(),
        ensures
            final(self).wf(),
            r.is_some() <==> old(self).holds(handle),
            r.is_some() ==> *r.unwrap() == old(self).block(handle)
                && final(self)@ == old(self)@.update(handle as int, Some(*final(r.unwrap()))),
            r.is_none() ==> final(self)@ == old(self)@,
            final(self).live_blocks() == old(self).live_blocks(),
    {
        if handle < self.slots.len() && self.slots[handle].is_some() {
            let r = self.slots[handle].as_mut();
            proof {
                lemma_count_live_update(
                    old(self).slots@,
                    handle as int,
                    Some(*final(r.unwrap())),
                );
            }
            r
        } else {
            None
        }
    }

    /// The number of blocks attached and not yet released.
    pub fn live(&self) -> (n: usize)
        requires
            self.wf(),
        ensures
            n == self.live_blocks(),
    {
        self.live
    }
}

} // verus!
