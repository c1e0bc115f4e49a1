//! Regions of possibly-uninitialized storage cells.
//!
//! An [`OutSlice`] is a contiguous run of cells, each either written (holding
//! a valid element) or unwritten.  Reads of a cell demand a proof that the
//! cell was written; writes always install a whole, valid element.

use vstd::prelude::*;

use crate::Out;
use crate::zeroed::ZeroValid;

pub mod cursor;

verus! {

/// The elements of a fully written region, cell by cell.
pub open spec fn region_values<T>(region: Seq<Option<T>>) -> Seq<T> {
    Seq::new(region.len(), |i: int| region[i]->0)
}

/// Abstraction allowing a value and a reference to a copyable value to be
/// consumed the same way when filling a region from a sequence of items.
pub trait TakeItem<T>: Sized {
    /// The element this item stands for.
    spec fn item(self) -> T;

    /// Moves or copies the element out of the item.
    fn take_item(self) -> (r: T)
        ensures
            r == self.item(),
    ;
}

impl<T> TakeItem<T> for T {
    open spec fn item(self) -> T {
        self
    }

    fn take_item(self) -> (r: T) {
        self
    }
}

impl<T: Copy> TakeItem<T> for &T {
    open spec fn item(self) -> T {
        *self
    }

    fn take_item(self) -> (r: T) {
        *self
    }
}

impl<T> TakeItem<T> for Box<T> {
    open spec fn item(self) -> T {
        *self
    }

    fn take_item(self) -> (r: T) {
        *self
    }
}

/// A region of cells of `T`, each possibly unwritten.
///
/// The view of the region is a sequence with one entry per cell: `None` for
/// an unwritten cell, `Some(v)` for a cell holding the written value `v`.
/// No public operation yields an element of a cell whose entry is `None`.
pub struct OutSlice<T> {
    cells: Vec<Out<T>>,
}

impl<T> View for OutSlice<T> {
    type V = Seq<Option<T>>;

    closed spec fn view(&self) -> Seq<Option<T>> {
        Seq::new(self.cells@.len() as nat, |i: int| self.cells@[i]@)
    }
}

impl<T> OutSlice<T> {
    /// True when cell `i` holds a written value.
    pub open spec fn is_written(&self, i: int) -> bool {
        self@[i] is Some
    }

    /// True when every cell of the region holds a written value.
    pub open spec fn all_written(&self) -> bool {
        forall|i: int| 0 <= i < self@.len() ==> self@[i] is Some
    }

    /// The elements of the region, meaningful once `all_written()` holds.
    pub open spec fn values(&self) -> Seq<T> {
        region_values(self@)
    }

    /// Creates a region of `len` unwritten cells.
    pub fn new_uninit(len: usize) -> (r: Self)
        ensures
            r@.len() == len,
            forall|i: int| 0 <= i < len ==> r@[i] is None,
    {
        let mut cells: Vec<Out<T>> = Vec::new();
        while cells.len() < len
            invariant
                cells@.len() <= len,
                forall|i: int| 0 <= i < cells@.len() ==> (#[trigger] cells@[i]@) is None,
            decreases len - cells@.len(),
        {
            cells.push(Out::uninit());
        }
        OutSlice { cells }
    }

    /// Wraps a buffer of valid elements as a region whose cells are all
    /// written with those elements.
    pub fn from_vec(values: Vec<T>) -> (r: Self)
        ensures
            r@.len() == values@.len(),
            forall|i: int| 0 <= i < values@.len() ==> r@[i] == Some(values@[i]),
    {
        let ghost vs = values@;
        let mut values = values;
        let mut cells: Vec<Out<T>> = Vec::new();
        while values.len() > 0
            invariant
                cells@.len() + values@.len() == vs.len(),
                forall|i: int| 0 <= i < cells@.len() ==> #[trigger] cells@[i]@ == Some(vs[i]),
                forall|i: int| 0 <= i < values@.len() ==> values@[i] == vs[cells@.len() + i],
            decreases values@.len(),
        {
            let v = values.remove(0);
            cells.push(Out::new(v));
        }
        OutSlice { cells }
    }

    /// Accesses the cell at the given index.
    ///
    /// The returned handle only yields its element under a proof that the
    /// cell was written.
    pub fn at(&self, index: usize) -> (r: &Out<T>)
        requires
            index < self@.len(),
        ensures
            r@ == self@[index as int],
    {
        &self.cells[index]
    }

    /// Mutably accesses the cell at the given index.
    ///
    /// The returned handle is write-only: it accepts whole, valid elements
    /// and never exposes an unwritten cell's content.
    pub fn at_mut(&mut self, index: usize) -> (r: &mut Out<T>)
        requires
            index < old(self)@.len(),
        ensures
            r@ == old(self)@[index as int],
            final(self)@.len() == old(self)@.len(),
            final(self)@[index as int] == final(r)@,
            forall|i: int|
                0 <= i < old(self)@.len() && i != index ==> final(self)@[i] == old(self)@[i],
    {
        vstd::std_specs::vec::vec_index_mut(&mut self.cells, index)
    }

    /// Returns the length of the region in cells.
    pub fn len(&self) -> (n: usize)
        ensures
            n == self@.len(),
    {
        self.cells.len()
    }

    /// Returns `true` if the region has no cells.
    pub fn is_empty(&self) -> (r: bool)
        ensures
            r == (self@.len() == 0),
    {
        self.cells.is_empty()
    }

    /// Writes a valid element into the cell at the given index.
    pub fn write_at(&mut self, index: usize, value: T)
        requires
            index < old(self)@.len(),
        ensures
            final(self)@.len() == old(self)@.len(),
            final(self)@[index as int] == Some(value),
            forall|i: int|
                0 <= i < old(self)@.len() && i != index ==> final(self)@[i] == old(self)@[i],
    {
        let cell = self.at_mut(index);
        cell.write_mut(value);
    }

    /// Splits the region at the given index into two disjoint regions, the
    /// first of length `mid`, the second covering the rest.
    pub fn split_at(self, mid: usize) -> (r: (Self, Self))
        requires
            mid <= self@.len(),
        ensures
            r.0@ == self@.take(mid as int),
            r.1@ == self@.skip(mid as int),
    {
        let mut cells = self.cells;
        let right = cells.split_off(mid);
        let left = OutSlice { cells };
        let rights = OutSlice { cells: right };
        proof {
            assert(left@ =~= self@.take(mid as int));
            assert(rights@ =~= self@.skip(mid as int));
        }
        (left, rights)
    }

    /// Initializes the whole region by overwriting every cell with zeroes.
    ///
    /// Only element types that declare the all-zero bit pattern valid (via
    /// [`ZeroValid`]) offer this fast path.
    pub fn write_zeroes(&mut self) where T: ZeroValid
        ensures
            final(self)@.len() == old(self)@.len(),
            forall|i: int| 0 <= i < final(self)@.len() ==> final(self)@[i] == Some(T::zero()),
    {
        let len = self.len();
        let mut k: usize = 0;
        while k < len
            invariant
                len == self@.len(),
                k <= len,
                forall|i: int| 0 <= i < k ==> self@[i] == Some(T::zero()),
            decreases len - k,
        {
            self.write_at(k, T::zeroed());
            k = k + 1;
        }
    }

    /// Uses a sequence of items to initialize the leading cells of the
    /// region, stopping at whichever runs out first: the items or the cells.
    ///
    /// Returns how many cells were written; cells past that count keep their
    /// previous state.  Elements are never partially written.
    pub fn init_from_iter<I: TakeItem<T>>(&mut self, items: Vec<I>) -> (count: usize)
        ensures
            count == vstd::math::min(old(self)@.len() as int, items@.len() as int),
            final(self)@.len() == old(self)@.len(),
            forall|i: int| 0 <= i < count ==> final(self)@[i] == Some(items@[i].item()),
            forall|i: int| count <= i < old(self)@.len() ==> final(self)@[i] == old(self)@[i],
    {
        let ghost source = items@;
        let mut items = items;
        let len = self.len();
        let mut k: usize = 0;
        while k < len && items.len() > 0
            invariant
                len == self@.len(),
                k <= len,
                k + items@.len() == source.len(),
                forall|i: int| 0 <= i < items@.len() ==> items@[i] == source[k + i],
                forall|i: int| 0 <= i < k ==> self@[i] == Some(source[i].item()),
                forall|i: int| k <= i < len ==> self@[i] == old(self)@[i],
            decreases len - k,
        {
            let it = items.remove(0);
            self.write_at(k, it.take_item());
            k = k + 1;
        }
        k
    }

    /// Initializes the region by copying elements from a buffer of the same
    /// length.
    ///
    /// Callers must establish that the lengths match; the truncating variant
    /// on the slice borrow trait serves buffers of differing lengths.
    pub fn copy_from_slice(&mut self, src: &Vec<T>) where T: Copy
        requires
            src@.len() == old(self)@.len(),
        ensures
            final(self)@.len() == old(self)@.len(),
            forall|i: int| 0 <= i < final(self)@.len() ==> final(self)@[i] == Some(src@[i]),
    {
        let len = self.len();
        let mut k: usize = 0;
        while k < len
            invariant
                len == self@.len(),
                src@.len() == len,
                k <= len,
                forall|i: int| 0 <= i < k ==> self@[i] == Some(src@[i]),
            decreases len - k,
        {
            self.write_at(k, src[k]);
            k = k + 1;
        }
    }

    /// Copies the elements out of a fully written region.
    ///
    /// The caller must prove that every cell was written; there is no
    /// runtime path from a partially written region to its elements.
    pub fn assume_init(&self) -> (r: Vec<T>) where T: Copy
        requires
            self.all_written(),
        ensures
            r@ == self.values(),
    {
        let len = self.len();
        let mut out: Vec<T> = Vec::new();
        while out.len() < len
            invariant
                self.all_written(),
                len == self@.len(),
                out@.len() <= len,
                forall|i: int| 0 <= i < out@.len() ==> out@[i] == self@[i]->0,
            decreases len - out@.len(),
        {
            let v = *self.at(out.len()).assume_init_ref();
            out.push(v);
        }
        proof {
            assert(out@ =~= self.values());
        }
        out
    }

    /// Moves the elements out of a fully written region, consuming it.
    pub fn into_assume_init(self) -> (r: Vec<T>)
        requires
            self.all_written(),
        ensures
            r@ == self.values(),
    {
        let ghost whole = self@;
        let mut cells = self.cells;
        let mut out: Vec<T> = Vec::new();
        while cells.len() > 0
            invariant
                forall|i: int|
                    0 <= i < cells@.len() ==> #[trigger] cells@[i]@ == whole[out@.len() + i],
                out@.len() + cells@.len() == whole.len(),
                forall|i: int| 0 <= i < whole.len() ==> whole[i] is Some,
                forall|i: int| 0 <= i < out@.len() ==> out@[i] == whole[i]->0,
            decreases cells@.len(),
        {
            let cell = cells.remove(0);
            out.push(cell.into_assume_init());
        }
        proof {
            assert(out@ =~= region_values(whole));
        }
        out
    }

    /// Returns an iterator-style filler that initializes the cells of the
    /// region one after another, consuming the region and handing it back
    /// through `IterMut::into_slice`.
    pub fn iter_mut(self) -> (r: IterMut<T>)
        ensures
            r.region() == self@,
            r.pos() == 0,
    {
        IterMut { slice: self, index: 0 }
    }
}

/// Cell-by-cell filler over an [`OutSlice`].
///
/// The filler owns the region while it runs, so no other handle can alias
/// the cells being initialized; `into_slice` hands the region back.
pub struct IterMut<T> {
    slice: OutSlice<T>,
    index: usize,
}

impl<T> IterMut<T> {
    /// The region being filled.
    pub closed spec fn region(&self) -> Seq<Option<T>> {
        self.slice@
    }

    /// How many leading cells the filler has passed.
    pub closed spec fn pos(&self) -> int {
        self.index as int
    }

    /// Writes the next cell, if one is left, and advances.
    ///
    /// Returns `false`, leaving the filler unchanged, when every cell has
    /// already been passed; the rejected element is dropped.
    pub fn write_next(&mut self, value: T) -> (ok: bool)
        ensures
            final(self).region().len() == old(self).region().len(),
            old(self).pos() < old(self).region().len() ==> ok && final(self).pos() == old(
                self,
            ).pos() + 1 && final(self).region() == old(self).region().update(
                old(self).pos(),
                Some(value),
            ),
            old(self).pos() >= old(self).region().len() ==> !ok && *final(self) == *old(self),
    {
        if self.index < self.slice.len() {
            self.slice.write_at(self.index, value);
            self.index = self.index + 1;
            proof {
                assert(self.slice@ =~= old(self).region().update(old(self).pos(), Some(value)));
            }
            true
        } else {
            false
        }
    }

    /// Views the underlying region again, consuming the filler.
    pub fn into_slice(self) -> (r: OutSlice<T>)
        ensures
            r@ == self.region(),
    {
        self.slice
    }
}

/// Read access to a value as a region of possibly-uninitialized cells.
///
/// The region spec gives one entry per cell; implementers must keep it
/// denoting the same underlying storage across calls, which holds here by
/// construction since every operation relates the final region to the
/// initial one.
pub trait BorrowUninitSlice<Item> {
    /// The borrowed region: one entry per cell, `None` when unwritten.
    spec fn region(&self) -> Seq<Option<Item>>;

    /// The number of cells of the borrowed region.
    fn region_len(&self) -> (n: usize)
        ensures
            n == self.region().len(),
    ;

    /// Borrows the element of a written cell.
    fn read_at(&self, index: usize) -> (r: &Item)
        requires
            index < self.region().len(),
            self.region()[index as int] is Some,
        ensures
            *r == self.region()[index as int]->0,
    ;

    /// Copies the elements out of a fully written region.
    ///
    /// The caller must prove that every cell was written; there is no
    /// runtime path from a partially written region to its elements.
    fn assume_init(&self) -> (r: Vec<Item>) where Item: Copy
        requires
            forall|i: int| 0 <= i < self.region().len() ==> self.region()[i] is Some,
        ensures
            r@ == region_values(self.region()),
    {
        let len = self.region_len();
        let mut out: Vec<Item> = Vec::new();
        while out.len() < len
            invariant
                forall|i: int| 0 <= i < self.region().len() ==> self.region()[i] is Some,
                len == self.region().len(),
                out@.len() <= len,
                forall|i: int| 0 <= i < out@.len() ==> out@[i] == self.region()[i]->0,
            decreases len - out@.len(),
        {
            let v = *self.read_at(out.len());
            out.push(v);
        }
        proof {
            assert(out@ =~= region_values(self.region()));
        }
        out
    }
}

/// Write access to a value as a region of possibly-uninitialized cells.
pub trait BorrowOutSlice<Item>: BorrowUninitSlice<Item> {
    /// Writes a whole, valid element into the cell at the given index; this
    /// is the only path that moves a cell of the borrowed region to the
    /// written state.
    fn write_at(&mut self, index: usize, value: Item)
        requires
            index < old(self).region().len(),
        ensures
            final(self).region().len() == old(self).region().len(),
            final(self).region()[index as int] == Some(value),
            forall|i: int|
                0 <= i < old(self).region().len() && i != index ==> final(self).region()[i] == old(
                    self,
                ).region()[i],
    ;

    /// Brings every cell of the region to the written state, zeroing the
    /// cells only where the storage actually needs it.
    ///
    /// A buffer that already holds valid elements is left as it is, so the
    /// written elements may be arbitrary: callers learn only that every cell
    /// is written, not which elements it holds.
    fn zero_if_needed(&mut self) where Item: ZeroValid
        ensures
            final(self).region().len() == old(self).region().len(),
            forall|i: int|
                0 <= i < final(self).region().len() ==> final(self).region()[i] is Some,
    ;

    /// Initializes the region by copying elements from a buffer of the same
    /// length; the caller must establish that the lengths match.
    fn init_with_copy_from_slice(&mut self, src: &Vec<Item>) where Item: Copy
        requires
            src@.len() == old(self).region().len(),
        ensures
            final(self).region().len() == old(self).region().len(),
            forall|i: int|
                0 <= i < final(self).region().len() ==> final(self).region()[i] == Some(src@[i]),
    {
        let len = self.region_len();
        let mut k: usize = 0;
        while k < len
            invariant
                len == self.region().len(),
                src@.len() == len,
                k <= len,
                forall|i: int| 0 <= i < k ==> self.region()[i] == Some(src@[i]),
            decreases len - k,
        {
            self.write_at(k, src[k]);
            k = k + 1;
        }
    }

    /// Initializes the leading cells of the region by copying from another
    /// buffer, stopping at the shorter of the two lengths instead of
    /// demanding that they match.  Returns how many cells were written.
    fn init_with_copy_from_slice_min(&mut self, src: &Vec<Item>) -> (count: usize) where
        Item: Copy,

        ensures
            count == vstd::math::min(old(self).region().len() as int, src@.len() as int),
            final(self).region().len() == old(self).region().len(),
            forall|i: int| 0 <= i < count ==> final(self).region()[i] == Some(src@[i]),
            forall|i: int|
                count <= i < old(self).region().len() ==> final(self).region()[i] == old(
                    self,
                ).region()[i],
    {
        let len = self.region_len();
        let n = if len < src.len() {
            len
        } else {
            src.len()
        };
        let mut k: usize = 0;
        while k < n
            invariant
                len == self.region().len(),
                n <= len,
                n <= src@.len(),
                n == vstd::math::min(len as int, src@.len() as int),
                k <= n,
                forall|i: int| 0 <= i < k ==> self.region()[i] == Some(src@[i]),
                forall|i: int| k <= i < len ==> self.region()[i] == old(self).region()[i],
            decreases n - k,
        {
            self.write_at(k, src[k]);
            k = k + 1;
        }
        n
    }
}

impl<T> BorrowUninitSlice<T> for OutSlice<T> {
    open spec fn region(&self) -> Seq<Option<T>> {
        self@
    }

    fn region_len(&self) -> usize {
        self.len()
    }

    fn read_at(&self, index: usize) -> &T {
        self.at(index).assume_init_ref()
    }
}

impl<T> BorrowOutSlice<T> for OutSlice<T> {
    fn write_at(&mut self, index: usize, value: T) {
        OutSlice::write_at(self, index, value);
    }

    fn zero_if_needed(&mut self) where T: ZeroValid {
        self.write_zeroes();
    }
}

impl<T> BorrowUninitSlice<T> for Vec<T> {
    /// A buffer of valid elements is a region whose cells are all written.
    open spec fn region(&self) -> Seq<Option<T>> {
        Seq::new(self@.len() as nat, |i: int| Some(self@[i]))
    }

    fn region_len(&self) -> usize {
        self.len()
    }

    fn read_at(&self, index: usize) -> &T {
        &self[index]
    }
}

impl<T> BorrowOutSlice<T> for Vec<T> {
    fn write_at(&mut self, index: usize, value: T) {
        *vstd::std_specs::vec::vec_index_mut(self, index) = value;
    }

    /// Every cell of a buffer of valid elements is already written, so this
    /// leaves the buffer untouched.
    fn zero_if_needed(&mut self) where T: ZeroValid {
    }
}

/// Splitting a region at `mid` preserves its totals: the two parts have
/// lengths `mid` and `len - mid`, they cover the region's cells exactly, and
/// rejoining them gives back the whole region, so a write through either
/// part leaves every cell of the other part unchanged.
pub proof fn lemma_split_preserves_totals<T>(region: Seq<Option<T>>, mid: int)
    requires
        0 <= mid <= region.len(),
    ensures
        region.take(mid).len() == mid,
        region.skip(mid).len() == region.len() - mid,
        region.take(mid) + region.skip(mid) == region,
        forall|i: int| 0 <= i < mid ==> region.take(mid)[i] == region[i],
        forall|i: int| mid <= i < region.len() ==> region.skip(mid)[i - mid] == region[i],
{
    assert(region.take(mid) + region.skip(mid) =~= region);
}

/// Filling every cell of a region with the canonical zero element makes the
/// region fully written, and the elements it then yields are exactly the
/// canonical zero value of the type, one per cell.
pub proof fn lemma_zero_fill_canonical<T: ZeroValid>(region: Seq<Option<T>>)
    requires
        forall|i: int| 0 <= i < region.len() ==> region[i] == Some(T::zero()),
    ensures
        forall|i: int| 0 <= i < region.len() ==> region[i] is Some,
        region_values(region) == Seq::new(region.len(), |i: int| T::zero()),
{
    assert(region_values(region) =~= Seq::new(region.len(), |i: int| T::zero()));
}

} // verus!
