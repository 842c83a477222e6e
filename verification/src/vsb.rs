//! A single-owner box for foreign records whose size is only known at run
//! time: a fixed header of type `T` followed by a variable-length tail.
//!
//! The box owns one contiguous byte buffer. Every view into it — the header,
//! or a slice of tail elements — is derived from a byte offset into that one
//! buffer and is bounds-checked against the buffer's current length, so no
//! view can reach outside the allocation.

use crate::pod::Pod;
use vstd::prelude::*;

verus! {

use vstd::arithmetic::mul::lemma_mul_inequality;

/// A pointer into the buffer of a [`VariableSizedBox`]: either null, or a
/// byte offset from the start of the buffer.
///
/// Sub-slice requests name their start through this type, and the box checks
/// the offset against its current length before any access.
#[derive(Clone, Copy, PartialEq, Eq, Structural, Debug)]
pub struct FieldPtr {
    null: bool,
    off: usize,
}

impl FieldPtr {
    /// Whether this is the null pointer.
    pub closed spec fn spec_is_null(self) -> bool {
        self.null
    }

    /// The byte offset from the start of the buffer; 0 for the null pointer.
    pub closed spec fn spec_off(self) -> usize {
        self.off
    }

    /// The null pointer.
    pub fn null() -> (r: FieldPtr)
        ensures
            r.spec_is_null(),
            r.spec_off() == 0,
    {
        FieldPtr { null: true, off: 0 }
    }

    /// The pointer `off` bytes past the start of the buffer.
    pub fn at(off: usize) -> (r: FieldPtr)
        ensures
            !r.spec_is_null(),
            r.spec_off() == off,
    {
        FieldPtr { null: false, off }
    }

    pub fn is_null(&self) -> (r: bool)
        ensures
            r == self.spec_is_null(),
    {
        self.null
    }

    /// The byte offset of a non-null pointer.
    pub fn offset(&self) -> (r: usize)
        requires
            !self.spec_is_null(),
        ensures
            r == self.spec_off(),
    {
        self.off
    }

    /// The pointer `k` bytes further into the buffer.
    pub fn byte_add(&self, k: usize) -> (r: FieldPtr)
        requires
            !self.spec_is_null(),
            self.spec_off() + k <= usize::MAX,
        ensures
            !r.spec_is_null(),
            r.spec_off() == self.spec_off() + k,
    {
        FieldPtr { null: false, off: self.off + k }
    }
}

/// A box owning one byte buffer sized for a foreign record with a fixed
/// header of type `T` and a variable-length tail.
///
/// The buffer is either empty (the sentinel state: no data, null pointer) or
/// holds `len()` bytes. The header occupies the first `T::spec_size()` bytes;
/// the tail is reached through bounds-checked sub-slices.
pub struct VariableSizedBox<T> {
    data: Vec<u8>,
    zeroed: bool,
    marker: core::marker::PhantomData<T>,
}

/// The value whose encoding the first `T::spec_size()` bytes of `bytes` hold.
pub open spec fn header_of<T: Pod>(bytes: Seq<u8>) -> T {
    T::decode_spec(bytes.subrange(0, T::spec_size() as int))
}

/// `bytes` with its first `T::spec_size()` bytes replaced by the encoding of
/// `t`.
pub open spec fn with_header<T: Pod>(bytes: Seq<u8>, t: T) -> Seq<u8> {
    t.encode_spec() + bytes.skip(T::spec_size() as int)
}

/// Writing a header into a buffer and reading it back yields the value that
/// was written.
pub proof fn lemma_header_round_trip<T: Pod>(bytes: Seq<u8>, t: T)
    requires
        T::spec_size() <= bytes.len(),
    ensures
        header_of::<T>(with_header::<T>(bytes, t)) == t,
        with_header::<T>(bytes, t).len() == bytes.len(),
{
    t.lemma_round_trip();
    assert(with_header::<T>(bytes, t).subrange(0, T::spec_size() as int) =~= t.encode_spec());
}

impl<T> VariableSizedBox<T> {
    /// The bytes of the buffer; empty for the sentinel state.
    pub closed spec fn view(&self) -> Seq<u8> {
        self.data@
    }

    /// Whether the box was created in zeroing mode: bytes gained by a growing
    /// [`VariableSizedBox::resize`] are then guaranteed to be zero.
    pub closed spec fn spec_zeroing(self) -> bool {
        self.zeroed
    }

    /// A buffer of `size` bytes for a record headed by `T`. With `zeroed`,
    /// every byte is zero, and bytes gained by later growth are zero as
    /// well; without it, nothing is promised of the bytes' contents. A
    /// `size` of 0 yields the empty sentinel.
    pub fn allocate(size: usize, zeroed: bool) -> (r: VariableSizedBox<T>)
        ensures
            r@.len() == size,
            r.spec_zeroing() == zeroed,
            zeroed ==> forall|i: int| 0 <= i < size ==> r@[i] == 0u8,
    {
        let mut data: Vec<u8> = Vec::new();
        let mut n: usize = 0;
        while n < size
            invariant
                n <= size,
                data@.len() == n,
                forall|i: int| 0 <= i < n ==> data@[i] == 0u8,
            decreases size - n,
        {
            data.push(0u8);
            n = n + 1;
        }
        VariableSizedBox { data, zeroed, marker: core::marker::PhantomData }
    }

    /// A zero-filled buffer of `size` bytes; the empty sentinel when `size`
    /// is 0.
    pub fn new(size: usize) -> (r: VariableSizedBox<T>)
        ensures
            r@.len() == size,
            r.spec_zeroing(),
            forall|i: int| 0 <= i < size ==> r@[i] == 0u8,
    {
        VariableSizedBox::allocate(size, true)
    }

    /// The length of the buffer in bytes.
    pub fn len(&self) -> (r: usize)
        ensures
            r == self@.len(),
    {
        self.data.len()
    }

    /// The base of the buffer, to hand to calls expecting a pointer to the
    /// fixed header; null for the empty sentinel.
    pub fn as_ptr(&self) -> (r: FieldPtr)
        ensures
            self@.len() == 0 ==> r.spec_is_null(),
            self@.len() > 0 ==> !r.spec_is_null() && r.spec_off() == 0,
    {
        if self.data.len() == 0 {
            FieldPtr::null()
        } else {
            FieldPtr::at(0)
        }
    }

    /// The base of the buffer, for calls that write through the pointer;
    /// null for the empty sentinel.
    pub fn as_mut_ptr(&mut self) -> (r: FieldPtr)
        ensures
            *final(self) == *old(self),
            old(self)@.len() == 0 ==> r.spec_is_null(),
            old(self)@.len() > 0 ==> !r.spec_is_null() && r.spec_off() == 0,
    {
        if self.data.len() == 0 {
            FieldPtr::null()
        } else {
            FieldPtr::at(0)
        }
    }

    /// The header the first `T::spec_size()` bytes hold.
    pub fn header(&self) -> (r: T) where T: Pod
        requires
            T::spec_size() <= self@.len(),
        ensures
            r == header_of::<T>(self@),
    {
        let size = T::size();
        let prefix = vstd::slice::slice_subrange(self.data.as_slice(), 0, size);
        T::decode(prefix)
    }

    /// Stores `t` as the first `T::spec_size()` bytes; the rest of the
    /// buffer is untouched.
    pub fn set_header(&mut self, t: T) where T: Pod
        requires
            T::spec_size() <= old(self)@.len(),
        ensures
            final(self)@ == with_header::<T>(old(self)@, t),
            final(self)@.len() == old(self)@.len(),
            final(self).spec_zeroing() == old(self).spec_zeroing(),
            header_of::<T>(final(self)@) == t,
    {
        proof {
            t.lemma_round_trip();
        }
        let bytes = t.encode();
        let size = T::size();
        let mut i: usize = 0;
        while i < size
            invariant
                i <= size,
                size == T::spec_size(),
                size <= self.data@.len(),
                bytes@ == t.encode_spec(),
                bytes@.len() == size,
                self.data@.len() == old(self)@.len(),
                self.zeroed == old(self).spec_zeroing(),
                forall|k: int| 0 <= k < i ==> self.data@[k] == bytes@[k],
                forall|k: int| i <= k < self.data@.len() ==> self.data@[k] == old(self)@[k],
            decreases size - i,
        {
            let b = bytes[i];
            self.data.set(i, b);
            i = i + 1;
        }
        proof {
            assert(self.data@ =~= with_header::<T>(old(self)@, t));
            lemma_header_round_trip::<T>(old(self)@, t);
        }
    }

    /// Changes the buffer to `size` bytes. The first `min(old, new)` bytes
    /// keep their values; in zeroing mode, bytes gained by growth are zero.
    /// A `size` of 0 yields the empty sentinel.
    pub fn resize(&mut self, size: usize)
        ensures
            final(self)@.len() == size,
            final(self).spec_zeroing() == old(self).spec_zeroing(),
            forall|i: int|
                0 <= i < old(self)@.len() && i < size ==> final(self)@[i] == old(self)@[i],
            old(self).spec_zeroing() ==> forall|i: int|
                old(self)@.len() <= i < size ==> final(self)@[i] == 0u8,
    {
        if size < self.data.len() {
            self.data.truncate(size);
        } else {
            while self.data.len() < size
                invariant
                    self.data@.len() <= size,
                    old(self)@.len() <= self.data@.len(),
                    self.zeroed == old(self).spec_zeroing(),
                    forall|i: int| 0 <= i < old(self)@.len() ==> self.data@[i] == old(self)@[i],
                    forall|i: int|
                        old(self)@.len() <= i < self.data@.len() ==> self.data@[i] == 0u8,
                decreases size - self.data@.len(),
            {
                self.data.push(0u8);
            }
        }
    }
}

/// Whether a request for `count` elements of `U` starting at `ptr` lies
/// entirely within a buffer of `len` bytes.
pub open spec fn slice_in_bounds<U: Pod>(len: int, ptr: FieldPtr, count: int) -> bool {
    &&& !ptr.spec_is_null()
    &&& ptr.spec_off() + count * U::spec_size() <= len
}

/// The `count` elements of `U` stored back to back at byte offset `off`.
pub open spec fn elems_at<U: Pod>(bytes: Seq<u8>, off: int, count: int) -> Seq<U> {
    Seq::new(
        count as nat,
        |j: int|
            U::decode_spec(
                bytes.subrange(off + j * U::spec_size(), off + (j + 1) * U::spec_size()),
            ),
    )
}

/// How a write of `vals` at byte offset `off` relates the buffer after
/// (`post`) to the buffer before (`pre`): same length, bytes outside the
/// written window untouched, and each element's window holding its encoding.
pub open spec fn elems_stored<U: Pod>(pre: Seq<u8>, post: Seq<u8>, off: int, vals: Seq<U>) -> bool {
    &&& post.len() == pre.len()
    &&& forall|i: int|
        0 <= i < pre.len() && !(off <= i < off + vals.len() * U::spec_size()) ==> post[i] == pre[i]
    &&& forall|j: int|
        0 <= j < vals.len() ==> post.subrange(
            off + j * U::spec_size(),
            off + (j + 1) * U::spec_size(),
        ) == vals[j].encode_spec()
}

/// A slice request covering exactly the rest of the buffer fits, and a
/// request for one element more does not: with `ptr` placed so that `count`
/// elements end precisely at byte `len`, `count` is in bounds and `count + 1`
/// is out.
pub proof fn lemma_exact_tail_slice<U: Pod>(len: int, ptr: FieldPtr, count: int)
    requires
        !ptr.spec_is_null(),
        0 <= count,
        ptr.spec_off() + count * U::spec_size() == len,
    ensures
        slice_in_bounds::<U>(len, ptr, count),
        !slice_in_bounds::<U>(len, ptr, count + 1),
{
    U::lemma_size_positive();
    assert((count + 1) * U::spec_size() == count * U::spec_size() + U::spec_size())
        by (nonlinear_arith);
}

/// Elements stored at an offset are read back unchanged: a buffer whose
/// windows hold the encodings of `vals` decodes, window by window, to `vals`.
pub proof fn lemma_elems_round_trip<U: Pod>(bytes: Seq<u8>, off: int, vals: Seq<U>)
    requires
        forall|j: int|
            0 <= j < vals.len() ==> bytes.subrange(
                off + j * U::spec_size(),
                off + (j + 1) * U::spec_size(),
            ) == vals[j].encode_spec(),
    ensures
        elems_at::<U>(bytes, off, vals.len() as int) == vals,
{
    let read = elems_at::<U>(bytes, off, vals.len() as int);
    assert forall|j: int| 0 <= j < vals.len() implies read[j] == vals[j] by {
        vals[j].lemma_round_trip();
    }
    assert(read =~= vals);
}

impl<T> VariableSizedBox<T> {
    /// Reads `count` elements stored back to back at byte offset `off`.
    fn read_elems<U: Pod>(&self, off: usize, count: usize) -> (r: Vec<U>)
        requires
            off + count * U::spec_size() <= self@.len(),
        ensures
            r@ == elems_at::<U>(self@, off as int, count as int),
    {
        let size = U::size();
        proof {
            U::lemma_size_positive();
        }
        let n = self.data.len();
        let mut out: Vec<U> = Vec::new();
        let mut j: usize = 0;
        while j < count
            invariant
                j <= count,
                size == U::spec_size(),
                n == self@.len(),
                off + count * size <= self@.len(),
                out@.len() == j,
                forall|k: int|
                    0 <= k < j ==> out@[k] == elems_at::<U>(self@, off as int, count as int)[k],
            decreases count - j,
        {
            proof {
                lemma_mul_inequality(j as int + 1, count as int, size as int);
                lemma_mul_inequality(j as int, count as int, size as int);
                assert((j as int + 1) * size == j as int * size + size) by (nonlinear_arith);
            }
            let start = off + j * size;
            let chunk = vstd::slice::slice_subrange(self.data.as_slice(), start, start + size);
            out.push(U::decode(chunk));
            j = j + 1;
        }
        proof {
            assert(out@ =~= elems_at::<U>(self@, off as int, count as int));
        }
        out
    }

    /// Stores `vals` back to back at byte offset `off`.
    fn write_elems<U: Pod>(&mut self, off: usize, vals: &[U])
        requires
            off + vals@.len() * U::spec_size() <= old(self)@.len(),
        ensures
            elems_stored::<U>(old(self)@, final(self)@, off as int, vals@),
            elems_at::<U>(final(self)@, off as int, vals@.len() as int) == vals@,
            final(self).spec_zeroing() == old(self).spec_zeroing(),
    {
        let size = U::size();
        proof {
            U::lemma_size_positive();
        }
        let count = vals.len();
        let n = self.data.len();
        let mut j: usize = 0;
        while j < count
            invariant
                j <= count,
                size == U::spec_size(),
                count == vals@.len(),
                n == old(self)@.len(),
                off + count * size <= old(self)@.len(),
                self.data@.len() == old(self)@.len(),
                self.zeroed == old(self).spec_zeroing(),
                forall|i: int|
                    0 <= i < old(self)@.len() && !(off <= i < off + j * size) ==> self.data@[i]
                        == old(self)@[i],
                forall|k: int|
                    0 <= k < j ==> self.data@.subrange(
                        off + k * size,
                        off + (k + 1) * size,
                    ) == vals@[k].encode_spec(),
            decreases count - j,
        {
            proof {
                lemma_mul_inequality(j as int + 1, count as int, size as int);
                lemma_mul_inequality(j as int, count as int, size as int);
                assert((j as int + 1) * size == j as int * size + size) by (nonlinear_arith);
            }
            let ghost pre = self.data@;
            let start = off + j * size;
            let enc = vals[j].encode();
            proof {
                vals@[j as int].lemma_round_trip();
            }
            let mut b: usize = 0;
            while b < size
                invariant
                    b <= size,
                    size == U::spec_size(),
                    enc@ == vals@[j as int].encode_spec(),
                    enc@.len() == size,
                    start as int == off + j as int * size,
                    start + size <= pre.len(),
                    n == pre.len(),
                    self.data@.len() == pre.len(),
                    self.zeroed == old(self).spec_zeroing(),
                    forall|i: int|
                        0 <= i < pre.len() && !(start <= i < start + b) ==> self.data@[i] == pre[i],
                    forall|i: int| start <= i < start + b ==> self.data@[i] == enc@[i - start],
                decreases size - b,
            {
                let byte = enc[b];
                self.data.set(start + b, byte);
                b = b + 1;
            }
            proof {
                // the window just written holds the encoding of vals[j]
                assert(self.data@.subrange(off + j as int * size, off + (j as int + 1) * size)
                    =~= enc@);
                // earlier windows are untouched by this iteration
                assert forall|k: int| 0 <= k < j implies self.data@.subrange(
                    off + k * size,
                    off + (k + 1) * size,
                ) == vals@[k].encode_spec() by {
                    lemma_mul_inequality(k + 1, j as int, size as int);
                    lemma_mul_inequality(k, j as int, size as int);
                    lemma_mul_inequality(j as int, count as int, size as int);
                    assert((k + 1) * size == k * size + size) by (nonlinear_arith);
                    assert(self.data@.subrange(off + k * size, off + (k + 1) * size) =~= pre
                        .subrange(off + k * size, off + (k + 1) * size));
                }
            }
            j = j + 1;
        }
        proof {
            lemma_elems_round_trip::<U>(self.data@, off as int, vals@);
        }
    }

    /// Given a pointer to the variable-length array and the number of its
    /// elements, reads the whole array. Yields `None` when the requested
    /// window is not entirely within the buffer.
    pub fn try_slice_from_count<U: Pod>(&self, ptr: FieldPtr, count: usize) -> (r: Option<Vec<U>>)
        ensures
            r is Some <==> slice_in_bounds::<U>(self@.len() as int, ptr, count as int),
            r matches Some(v) ==> v@ == elems_at::<U>(self@, ptr.spec_off() as int, count as int),
    {
        let n = self.data.len();
        if ptr.is_null() {
            return None;
        }
        let size = U::size();
        proof {
            U::lemma_size_positive();
        }
        let off = ptr.offset();
        let total = match count.checked_mul(size) {
            Some(t) => t,
            None => {
                return None;
            },
        };
        if off > n || total > n - off {
            return None;
        }
        Some(self.read_elems(off, count))
    }

    /// Reads the variable-length array of `count` elements at `ptr`. The
    /// requested window must lie entirely within the buffer.
    pub fn slice_from_count<U: Pod>(&self, ptr: FieldPtr, count: usize) -> (r: Vec<U>)
        requires
            slice_in_bounds::<U>(self@.len() as int, ptr, count as int),
        ensures
            r@ == elems_at::<U>(self@, ptr.spec_off() as int, count as int),
    {
        let off = ptr.offset();
        self.read_elems(off, count)
    }

    /// Writes `vals` as the variable-length array at `ptr`; the window it
    /// covers must lie entirely within the buffer. This is the mutable view
    /// of [`VariableSizedBox::slice_from_count`]: reading the same window
    /// afterwards yields `vals` again.
    pub fn slice_from_count_mut<U: Pod>(&mut self, ptr: FieldPtr, vals: &[U])
        requires
            slice_in_bounds::<U>(old(self)@.len() as int, ptr, vals@.len() as int),
        ensures
            elems_stored::<U>(old(self)@, final(self)@, ptr.spec_off() as int, vals@),
            elems_at::<U>(final(self)@, ptr.spec_off() as int, vals@.len() as int) == vals@,
            final(self).spec_zeroing() == old(self).spec_zeroing(),
    {
        let off = ptr.offset();
        self.write_elems(off, vals)
    }

    /// Like [`VariableSizedBox::slice_from_count_mut`], but reports an
    /// out-of-bounds window as `false` and leaves the buffer untouched.
    pub fn try_slice_from_count_mut<U: Pod>(&mut self, ptr: FieldPtr, vals: &[U]) -> (r: bool)
        ensures
            r <==> slice_in_bounds::<U>(old(self)@.len() as int, ptr, vals@.len() as int),
            r ==> elems_stored::<U>(old(self)@, final(self)@, ptr.spec_off() as int, vals@)
                && elems_at::<U>(final(self)@, ptr.spec_off() as int, vals@.len() as int) == vals@,
            !r ==> *final(self) == *old(self),
            final(self).spec_zeroing() == old(self).spec_zeroing(),
    {
        let n = self.data.len();
        if ptr.is_null() {
            return false;
        }
        let size = U::size();
        proof {
            U::lemma_size_positive();
        }
        let off = ptr.offset();
        let total = match vals.len().checked_mul(size) {
            Some(t) => t,
            None => {
                return false;
            },
        };
        if off > n || total > n - off {
            return false;
        }
        self.write_elems(off, vals);
        true
    }

    /// Given a pointer to the variable-length array and its length in bytes,
    /// reads the array; the element count is the byte length divided by the
    /// element size. Yields `None` when the window is not entirely within
    /// the buffer.
    pub fn try_slice_from_bytes<U: Pod>(&self, ptr: FieldPtr, bytes: usize) -> (r: Option<Vec<U>>)
        ensures
            r is Some <==> slice_in_bounds::<U>(
                self@.len() as int,
                ptr,
                bytes as int / U::spec_size() as int,
            ),
            r matches Some(v) ==> v@ == elems_at::<U>(
                self@,
                ptr.spec_off() as int,
                bytes as int / U::spec_size() as int,
            ),
    {
        let size = U::size();
        proof {
            U::lemma_size_positive();
        }
        let count = bytes / size;
        self.try_slice_from_count(ptr, count)
    }

    /// Reads the variable-length array of `bytes / U::size()` elements at
    /// `ptr`. The window must lie entirely within the buffer.
    pub fn slice_from_bytes<U: Pod>(&self, ptr: FieldPtr, bytes: usize) -> (r: Vec<U>)
        requires
            slice_in_bounds::<U>(self@.len() as int, ptr, bytes as int / U::spec_size() as int),
        ensures
            r@ == elems_at::<U>(self@, ptr.spec_off() as int, bytes as int / U::spec_size() as int),
    {
        let size = U::size();
        proof {
            U::lemma_size_positive();
        }
        let count = bytes / size;
        let off = ptr.offset();
        self.read_elems(off, count)
    }

    /// Writes `vals` as the variable-length array of `bytes` bytes at `ptr`;
    /// `vals` must have exactly `bytes / U::size()` elements and the window
    /// must lie entirely within the buffer.
    pub fn slice_from_bytes_mut<U: Pod>(&mut self, ptr: FieldPtr, bytes: usize, vals: &[U])
        requires
            vals@.len() == bytes as int / U::spec_size() as int,
            slice_in_bounds::<U>(old(self)@.len() as int, ptr, vals@.len() as int),
        ensures
            elems_stored::<U>(old(self)@, final(self)@, ptr.spec_off() as int, vals@),
            elems_at::<U>(final(self)@, ptr.spec_off() as int, vals@.len() as int) == vals@,
            final(self).spec_zeroing() == old(self).spec_zeroing(),
    {
        self.try_slice_from_bytes_mut(ptr, bytes, vals);
    }

    /// Like [`VariableSizedBox::slice_from_bytes_mut`], but reports a
    /// mismatched element count or an out-of-bounds window as `false` and
    /// leaves the buffer untouched.
    pub fn try_slice_from_bytes_mut<U: Pod>(&mut self, ptr: FieldPtr, bytes: usize, vals: &[U]) -> (r:
        bool)
        ensures
            r <==> (vals@.len() == bytes as int / U::spec_size() as int && slice_in_bounds::<U>(
                old(self)@.len() as int,
                ptr,
                vals@.len() as int,
            )),
            r ==> elems_stored::<U>(old(self)@, final(self)@, ptr.spec_off() as int, vals@)
                && elems_at::<U>(final(self)@, ptr.spec_off() as int, vals@.len() as int) == vals@,
            !r ==> *final(self) == *old(self),
            final(self).spec_zeroing() == old(self).spec_zeroing(),
    {
        let size = U::size();
        proof {
            U::lemma_size_positive();
        }
        let count = bytes / size;
        if vals.len() != count {
            return false;
        }
        self.try_slice_from_count_mut(ptr, vals)
    }

    /// Given a pointer to the variable-length array and the size of the
    /// whole record in bytes, including everything before the array, reads
    /// the array filling the rest of the record. Yields `None` when `ptr` is
    /// null, lies past `total_bytes`, or the window is not entirely within
    /// the buffer.
    pub fn try_slice_from_total_bytes<U: Pod>(&self, ptr: FieldPtr, total_bytes: usize) -> (r:
        Option<Vec<U>>)
        ensures
            r is Some <==> (!ptr.spec_is_null() && ptr.spec_off() <= total_bytes
                && slice_in_bounds::<U>(
                self@.len() as int,
                ptr,
                (total_bytes - ptr.spec_off()) as int / U::spec_size() as int,
            )),
            r matches Some(v) ==> v@ == elems_at::<U>(
                self@,
                ptr.spec_off() as int,
                (total_bytes - ptr.spec_off()) as int / U::spec_size() as int,
            ),
    {
        if ptr.is_null() {
            return None;
        }
        let off = ptr.offset();
        if total_bytes < off {
            return None;
        }
        self.try_slice_from_bytes(ptr, total_bytes - off)
    }

    /// Reads the variable-length array filling the rest of a record of
    /// `total_bytes` bytes. The window must lie entirely within the buffer.
    pub fn slice_from_total_bytes<U: Pod>(&self, ptr: FieldPtr, total_bytes: usize) -> (r: Vec<U>)
        requires
            !ptr.spec_is_null(),
            ptr.spec_off() <= total_bytes,
            slice_in_bounds::<U>(
                self@.len() as int,
                ptr,
                (total_bytes - ptr.spec_off()) as int / U::spec_size() as int,
            ),
        ensures
            r@ == elems_at::<U>(
                self@,
                ptr.spec_off() as int,
                (total_bytes - ptr.spec_off()) as int / U::spec_size() as int,
            ),
    {
        let off = ptr.offset();
        self.slice_from_bytes(ptr, total_bytes - off)
    }

    /// Writes `vals` as the variable-length array filling the rest of a
    /// record of `total_bytes` bytes; `vals` must have exactly the element
    /// count that fills it, and the window must lie entirely within the
    /// buffer.
    pub fn slice_from_total_bytes_mut<U: Pod>(
        &mut self,
        ptr: FieldPtr,
        total_bytes: usize,
        vals: &[U],
    )
        requires
            !ptr.spec_is_null(),
            ptr.spec_off() <= total_bytes,
            vals@.len() == (total_bytes - ptr.spec_off()) as int / U::spec_size() as int,
            slice_in_bounds::<U>(old(self)@.len() as int, ptr, vals@.len() as int),
        ensures
            elems_stored::<U>(old(self)@, final(self)@, ptr.spec_off() as int, vals@),
            elems_at::<U>(final(self)@, ptr.spec_off() as int, vals@.len() as int) == vals@,
            final(self).spec_zeroing() == old(self).spec_zeroing(),
    {
        let off = ptr.offset();
        self.slice_from_bytes_mut(ptr, total_bytes - off, vals)
    }

    /// Like [`VariableSizedBox::slice_from_total_bytes_mut`], but reports a
    /// null or misplaced pointer, a mismatched element count, or an
    /// out-of-bounds window as `false` and leaves the buffer untouched.
    pub fn try_slice_from_total_bytes_mut<U: Pod>(
        &mut self,
        ptr: FieldPtr,
        total_bytes: usize,
        vals: &[U],
    ) -> (r: bool)
        ensures
            r <==> (!ptr.spec_is_null() && ptr.spec_off() <= total_bytes && vals@.len() == (
            total_bytes - ptr.spec_off()) as int / U::spec_size() as int && slice_in_bounds::<U>(
                old(self)@.len() as int,
                ptr,
                vals@.len() as int,
            )),
            r ==> elems_stored::<U>(old(self)@, final(self)@, ptr.spec_off() as int, vals@)
                && elems_at::<U>(final(self)@, ptr.spec_off() as int, vals@.len() as int) == vals@,
            !r ==> *final(self) == *old(self),
            final(self).spec_zeroing() == old(self).spec_zeroing(),
    {
        if ptr.is_null() {
            return false;
        }
        let off = ptr.offset();
        if total_bytes < off {
            return false;
        }
        self.try_slice_from_bytes_mut(ptr, total_bytes - off, vals)
    }
}

impl<T> Default for VariableSizedBox<T> {
    /// The empty sentinel, in zeroing mode.
    fn default() -> (r: Self)
        ensures
            r@.len() == 0,
            r.spec_zeroing(),
    {
        VariableSizedBox::new(0)
    }
}

} // verus!
