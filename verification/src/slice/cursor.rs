//! Position-tracked initialization over a region of cells.

use vstd::prelude::*;

use crate::cast::{ArrTc, InitTc};
use crate::slice::{BorrowOutSlice, BorrowUninitSlice, OutSlice, TakeItem};

verus! {

/// Wraps a region of possibly-uninitialized cells together with a position,
/// maintaining the invariant that every cell before the position is written.
///
/// The position moves forward as elements are pushed and backward as they
/// are popped, and never leaves `[0, length]`.  Because the invariant is
/// machine-checked, every read of the written prefix is proved in bounds and
/// proved to hit a written cell.
pub struct Cursor<Item, Arr: BorrowOutSlice<Item>> {
    marker: core::marker::PhantomData<Item>,
    position: usize,
    data: Arr,
}

impl<Item, Arr: BorrowOutSlice<Item>> Cursor<Item, Arr> {
    /// The wrapped region: one entry per cell, `None` when unwritten.
    pub closed spec fn region(&self) -> Seq<Option<Item>> {
        self.data.region()
    }

    /// How many leading cells of the region are written.
    pub closed spec fn pos(&self) -> int {
        self.position as int
    }

    /// The total number of cells of the region.
    pub open spec fn length(&self) -> int {
        self.region().len() as int
    }

    /// The cursor invariant: the position stays within the region and every
    /// cell before it is written.
    pub open spec fn wf(&self) -> bool {
        &&& 0 <= self.pos() <= self.length()
        &&& forall|i: int| 0 <= i < self.pos() ==> self.region()[i] is Some
    }

    /// The written prefix of the region, element by element.
    pub open spec fn written_view(&self) -> Seq<Item> {
        Seq::new(self.pos() as nat, |i: int| self.region()[i]->0)
    }

    /// Creates a cursor over the given region, positioned at 0.
    pub fn new(buf: Arr) -> (r: Self)
        ensures
            r.wf(),
            r.pos() == 0,
            r.region() == buf.region(),
    {
        Cursor { marker: core::marker::PhantomData, position: 0, data: buf }
    }

    /// Pushes an element into the next unwritten cell.
    ///
    /// When the cursor is full the element is handed back unconsumed and
    /// nothing changes: running out of capacity is an ordinary result, not a
    /// failure.
    pub fn push(&mut self, item: Item) -> (r: Result<(), Item>)
        requires
            old(self).wf(),
        ensures
            final(self).wf(),
            final(self).length() == old(self).length(),
            old(self).pos() < old(self).length() ==> r is Ok,
            old(self).pos() < old(self).length() ==> final(self).pos() == old(self).pos() + 1,
            old(self).pos() < old(self).length() ==> final(self).region() == old(
                self,
            ).region().update(old(self).pos(), Some(item)),
            old(self).pos() < old(self).length() ==> final(self).written_view() == old(
                self,
            ).written_view().push(item),
            old(self).pos() >= old(self).length() ==> r == Err::<(), Item>(item),
            old(self).pos() >= old(self).length() ==> *final(self) == *old(self),
    {
        let ghost it = item;
        if self.position < self.data.region_len() {
            self.data.write_at(self.position, item);
            self.position = self.position + 1;
            proof {
                assert(self.region() =~= old(self).region().update(old(self).pos(), Some(it)));
                assert(self.written_view() =~= old(self).written_view().push(it));
            }
            Ok(())
        } else {
            Err(item)
        }
    }

    /// Pushes up to `remaining_count()` elements taken from the items and
    /// returns how many cells were written.
    ///
    /// Filling stops cleanly at whichever runs out first, the items or the
    /// unwritten cells, and never writes a partial element.
    pub fn push_iter<I: TakeItem<Item>>(&mut self, items: Vec<I>) -> (count: usize)
        requires
            old(self).wf(),
        ensures
            final(self).wf(),
            final(self).length() == old(self).length(),
            count == vstd::math::min(
                old(self).length() - old(self).pos(),
                items@.len() as int,
            ),
            final(self).pos() == old(self).pos() + count,
            forall|i: int|
                0 <= i < count ==> final(self).region()[old(self).pos() + i] == Some(
                    items@[i].item(),
                ),
            forall|i: int| 0 <= i < old(self).pos() ==> final(self).region()[i] == old(
                self,
            ).region()[i],
            forall|i: int|
                final(self).pos() <= i < final(self).length() ==> final(self).region()[i] == old(
                    self,
                ).region()[i],
    {
        let ghost source = items@;
        let mut items = items;
        let len = self.data.region_len();
        let mut count: usize = 0;
        while self.position < len && items.len() > 0
            invariant
                self.wf(),
                len == self.length(),
                self.length() == old(self).length(),
                count == self.pos() - old(self).pos(),
                count <= source.len(),
                count + items@.len() == source.len(),
                forall|i: int| 0 <= i < items@.len() ==> items@[i] == source[count + i],
                forall|i: int|
                    0 <= i < count ==> self.region()[old(self).pos() + i] == Some(
                        source[i].item(),
                    ),
                forall|i: int| 0 <= i < old(self).pos() ==> self.region()[i] == old(
                    self,
                ).region()[i],
                forall|i: int| self.pos() <= i < len ==> self.region()[i] == old(self).region()[i],
            decreases len - self.position,
        {
            let it = items.remove(0);
            self.data.write_at(self.position, it.take_item());
            self.position = self.position + 1;
            count = count + 1;
        }
        count
    }

    /// Returns the number of elements that can still be pushed.
    pub fn remaining_count(&self) -> (n: usize)
        requires
            self.wf(),
        ensures
            n == self.length() - self.pos(),
    {
        self.data.region_len() - self.position
    }

    /// Resets the position to 0 without erasing the cells.
    ///
    /// The prior content is simply considered unwritten again; for element
    /// types with meaningful destructors the values are still owned by the
    /// region's cells, so callers wanting them dropped must drain first.
    pub fn reset(&mut self)
        ensures
            final(self).wf(),
            final(self).pos() == 0,
            final(self).region() == old(self).region(),
    {
        self.position = 0;
    }

    /// Copies out the written prefix.
    pub fn written(&self) -> (r: Vec<Item>) where Item: Copy
        requires
            self.wf(),
        ensures
            r@ == self.written_view(),
    {
        let mut out: Vec<Item> = Vec::new();
        while out.len() < self.position
            invariant
                self.wf(),
                out@.len() <= self.pos(),
                forall|i: int| 0 <= i < out@.len() ==> out@[i] == self.region()[i]->0,
            decreases self.pos() - out@.len(),
        {
            let v = *self.data.read_at(out.len());
            out.push(v);
        }
        proof {
            assert(out@ =~= self.written_view());
        }
        out
    }

    /// Removes the last written element and returns a copy of it.
    ///
    /// The vacated cell is not cleared: the element type is duplicable, so
    /// the copy left behind is harmless.  Returns nothing when the position
    /// is 0.
    pub fn pop(&mut self) -> (r: Option<Item>) where Item: Copy
        requires
            old(self).wf(),
        ensures
            final(self).wf(),
            final(self).region() == old(self).region(),
            old(self).pos() == 0 ==> r is None,
            old(self).pos() == 0 ==> *final(self) == *old(self),
            old(self).pos() > 0 ==> r == Some(old(self).written_view().last()),
            old(self).pos() > 0 ==> final(self).pos() == old(self).pos() - 1,
            old(self).pos() > 0 ==> final(self).written_view() == old(
                self,
            ).written_view().drop_last(),
    {
        if self.position > 0 {
            let v = *self.data.read_at(self.position - 1);
            self.position = self.position - 1;
            proof {
                assert(self.written_view() =~= old(self).written_view().drop_last());
            }
            Some(v)
        } else {
            None
        }
    }

    /// Removes up to `max` trailing written elements and returns copies of
    /// them, in the order they stand in the region.
    ///
    /// The cells are not cleared, only given up by the cursor.
    pub fn pop_slice(&mut self, max: usize) -> (r: Vec<Item>) where Item: Copy
        requires
            old(self).wf(),
        ensures
            final(self).wf(),
            final(self).region() == old(self).region(),
            final(self).pos() == old(self).pos() - vstd::math::min(old(self).pos(), max as int),
            r@ == old(self).written_view().subrange(final(self).pos(), old(self).pos()),
            final(self).written_view() == old(self).written_view().take(final(self).pos()),
    {
        let to_remove = if self.position < max {
            self.position
        } else {
            max
        };
        let start = self.position - to_remove;
        let mut out: Vec<Item> = Vec::new();
        while out.len() < to_remove
            invariant
                self.wf(),
                to_remove <= self.pos(),
                start == self.pos() - to_remove,
                out@.len() <= to_remove,
                forall|i: int| 0 <= i < out@.len() ==> out@[i] == self.region()[start + i]->0,
            decreases to_remove - out@.len(),
        {
            let v = *self.data.read_at(start + out.len());
            out.push(v);
        }
        self.position = start;
        proof {
            assert(out@ =~= old(self).written_view().subrange(self.pos(), old(self).pos()));
            assert(self.written_view() =~= old(self).written_view().take(self.pos()));
        }
        out
    }

    /// Removes exactly `required` trailing written elements, or fails
    /// atomically: when fewer are available the cursor is left unchanged.
    pub fn try_pop_slice(&mut self, required: usize) -> (r: Option<Vec<Item>>) where Item: Copy
        requires
            old(self).wf(),
        ensures
            final(self).wf(),
            old(self).pos() >= required ==> r is Some,
            old(self).pos() >= required ==> r->0@ == old(self).written_view().subrange(
                old(self).pos() - required,
                old(self).pos(),
            ),
            old(self).pos() >= required ==> final(self).pos() == old(self).pos() - required,
            old(self).pos() >= required ==> final(self).region() == old(self).region(),
            old(self).pos() < required ==> r is None,
            old(self).pos() < required ==> *final(self) == *old(self),
    {
        if self.position >= required {
            Some(self.pop_slice(required))
        } else {
            None
        }
    }

    /// Converts the wrapped region into its fully-initialized counterpart,
    /// without giving up any element, when every cell was written.
    ///
    /// Succeeds exactly when the position equals the length; otherwise the
    /// cursor itself is handed back intact, so failure is recoverable.
    pub fn try_cast_initialized(self) -> (r: Result<
        <Arr as ArrTc<Item>>::Arr,
        Self,
    >) where Arr: InitTc<Item>
        requires
            self.wf(),
        ensures
            self.pos() == self.length() ==> r is Ok,
            self.pos() == self.length() ==> Arr::output_values(r->Ok_0) == self.written_view(),
            self.pos() != self.length() ==> r is Err,
            self.pos() != self.length() ==> r->Err_0 == self,
    {
        if self.position == self.data.region_len() {
            proof {
                assert(crate::slice::region_values(self.data.region()) =~= self.written_view());
            }
            Ok(self.data.cast())
        } else {
            Err(self)
        }
    }
}

impl<Item> Cursor<Item, OutSlice<Item>> {
    /// Builds a cursor over a region of `total_len` cells whose written
    /// prefix is the content of `vec`, positioning the cursor after that
    /// prefix.  The cells past the prefix are unwritten.
    pub fn from_vec_preserving_len(vec: Vec<Item>, total_len: usize) -> (r: Self)
        requires
            vec@.len() <= total_len,
        ensures
            r.wf(),
            r.length() == total_len,
            r.pos() == vec@.len(),
            r.written_view() == vec@,
            forall|i: int| vec@.len() <= i < total_len ==> r.region()[i] is None,
    {
        let ghost vs = vec@;
        let mut vec = vec;
        let mut region = OutSlice::new_uninit(total_len);
        let mut k: usize = 0;
        while vec.len() > 0
            invariant
                k + vec@.len() == vs.len(),
                vs.len() <= total_len,
                region@.len() == total_len,
                forall|i: int| 0 <= i < vec@.len() ==> vec@[i] == vs[k + i],
                forall|i: int| 0 <= i < k ==> region@[i] == Some(vs[i]),
                forall|i: int| k <= i < total_len ==> region@[i] is None,
            decreases vec@.len(),
        {
            let v = vec.remove(0);
            region.write_at(k, v);
            k = k + 1;
        }
        let r = Cursor { marker: core::marker::PhantomData, position: k, data: region };
        proof {
            assert(r.written_view() =~= vs);
        }
        r
    }

    /// Builds a cursor at position 0 over a fresh region of `total_len`
    /// unwritten cells, discarding the buffer's present elements.
    pub fn from_vec_entire_capaity(vec: Vec<Item>, total_len: usize) -> (r: Self)
        requires
            vec@.len() <= total_len,
        ensures
            r.wf(),
            r.length() == total_len,
            r.pos() == 0,
            forall|i: int| 0 <= i < total_len ==> r.region()[i] is None,
    {
        let _ = vec;
        Cursor::new(OutSlice::new_uninit(total_len))
    }
}

impl<Item> Cursor<Item, Vec<Item>> {
    /// Builds a cursor at position 0 over the buffer itself: every cell
    /// holds a valid element already, and pushes overwrite them in place.
    pub fn from_vec_resizing(vec: Vec<Item>) -> (r: Self)
        ensures
            r.wf(),
            r.pos() == 0,
            r.length() == vec@.len(),
            forall|i: int| 0 <= i < vec@.len() ==> r.region()[i] == Some(vec@[i]),
    {
        Cursor::new(vec)
    }
}

/// Fill/drain symmetry.  A cursor starts with the empty written view, which
/// is `vs.take(0)`; by the contract of `push`, pushing the elements of `vs`
/// one after another grows the written view along the chain
/// `vs.take(k).push(vs[k]) == vs.take(k + 1)` until it is `vs` itself.  By
/// the contract of `pop`, popping then returns the elements in reverse
/// order — the view `vs.take(k)` ends with `vs[k - 1]` — and shrinks the
/// view back down the same chain, so after as many pops as pushes the
/// written view is empty and the position is 0 again.
pub proof fn lemma_fill_drain_symmetry<Item>(vs: Seq<Item>)
    ensures
        vs.take(0) == Seq::<Item>::empty(),
        vs.take(vs.len() as int) == vs,
        forall|k: int| 0 <= k < vs.len() ==> #[trigger] vs.take(k).push(vs[k]) == vs.take(k + 1),
        forall|k: int| 0 < k <= vs.len() ==> #[trigger] vs.take(k).last() == vs[k - 1],
        forall|k: int| 0 < k <= vs.len() ==> #[trigger] vs.take(k).drop_last() == vs.take(k - 1),
{
    assert(vs.take(0) =~= Seq::<Item>::empty());
    assert(vs.take(vs.len() as int) =~= vs);
    assert forall|k: int| 0 <= k < vs.len() implies #[trigger] vs.take(k).push(vs[k]) == vs.take(
        k + 1,
    ) by {
        assert(vs.take(k).push(vs[k]) =~= vs.take(k + 1));
    }
    assert forall|k: int| 0 < k <= vs.len() implies #[trigger] vs.take(k).drop_last() == vs.take(
        k - 1,
    ) by {
        assert(vs.take(k).drop_last() =~= vs.take(k - 1));
    }
}

} // verus!
