use crate::alloc_shim::{Allocator, Global};
use crate::allocation::{AllocView, Allocation};
use crate::layout::Layout;
use crate::storable::Storable;
use core::marker::PhantomData;
use vstd::layout::{align_of, size_of, valid_layout};
use vstd::prelude::*;

verus! {

// ---------------------------------------------------------------------------
// Error taxonomy
// ---------------------------------------------------------------------------
/// Why an allocation could not become a typed single-value container.
#[derive(Clone, Copy, Debug, PartialEq, Eq, Structural)]
#[non_exhaustive]
pub enum BoxConversionError {
    /// The allocation's layout is not exactly the layout of the requested
    /// type; a single-value container assumes an exact fit, with no slack
    /// tolerated in either size or alignment.
    LayoutMismatch {
        /// The layout the requested type needs.
        expected: Layout,
        /// The layout the allocation actually carries.
        allocated: Layout,
    },
}

impl BoxConversionError {
    fn layout_mismatch(expected: Layout, allocated: Layout) -> (r: Self)
        ensures
            r == (BoxConversionError::LayoutMismatch { expected, allocated }),
    {
        Self::LayoutMismatch { expected, allocated }
    }
}

/// Why an allocation could not become a typed array container.
#[derive(Clone, Copy, Debug, PartialEq, Eq, Structural)]
#[non_exhaustive]
pub enum VecConversionError {
    /// The allocation's alignment is not exactly the element type's.
    AlignMismatch {
        /// The alignment the element type needs.
        expected: usize,
        /// The alignment the allocation actually carries.
        allocated: usize,
    },
    /// The allocation's byte size is not a whole number of elements.
    SlackCapacity {
        /// The byte size of one element.
        element_size: usize,
        /// The byte size the allocation actually carries.
        allocated: usize,
    },
    /// Zero-sized elements determine no capacity: they are rejected
    /// outright, never guessed.
    ZeroSizedElements,
}

impl VecConversionError {
    fn align_mismatch(expected: usize, allocated: usize) -> (r: Self)
        ensures
            r == (VecConversionError::AlignMismatch { expected, allocated }),
    {
        Self::AlignMismatch { expected, allocated }
    }

    fn slack_capacity(element_size: usize, allocated: usize) -> (r: Self)
        ensures
            r == (VecConversionError::SlackCapacity { element_size, allocated }),
    {
        Self::SlackCapacity { element_size, allocated }
    }

    fn zero_sized_elements() -> (r: Self)
        ensures
            r == VecConversionError::ZeroSizedElements,
    {
        Self::ZeroSizedElements
    }
}

// ---------------------------------------------------------------------------
// Layout checks
// ---------------------------------------------------------------------------
/// Accepts exactly the allocations whose layout equals the layout of `T`,
/// and reports both layouts otherwise.
fn check_box_layout<A: Allocator, T>(allocation: &Allocation<A>) -> (r: Result<
    (),
    BoxConversionError,
>)
    ensures
        r is Ok <==> allocation@.layout == Layout::spec_of::<T>(),
        r matches Err(e) ==> e == (BoxConversionError::LayoutMismatch {
            expected: Layout::spec_of::<T>(),
            allocated: allocation@.layout,
        }),
        size_of::<T>() <= usize::MAX,
        align_of::<T>() <= usize::MAX,
{
    let expected = Layout::of::<T>();
    let actual = allocation.layout();
    if expected != actual {
        return Err(BoxConversionError::layout_mismatch(expected, actual));
    }
    Ok(())
}

/// How an allocation layout can fail to carry `capacity` many elements of a
/// given element layout, checked in this order.
pub open spec fn vec_layout_error(
    element_size: nat,
    element_align: nat,
    allocated: Layout,
) -> Option<VecConversionError> {
    if allocated.align != element_align {
        Some(
            VecConversionError::AlignMismatch {
                expected: element_align as usize,
                allocated: allocated.align,
            },
        )
    } else if element_size == 0 {
        Some(VecConversionError::ZeroSizedElements)
    } else if allocated.size as int % element_size as int != 0 {
        Some(
            VecConversionError::SlackCapacity {
                element_size: element_size as usize,
                allocated: allocated.size,
            },
        )
    } else {
        None
    }
}

/// Accepts exactly the allocations whose layout can carry a whole number of
/// `T` elements — alignment equal to the element's, a positive element size,
/// a byte size that is an exact multiple of it — and returns that number.
fn check_vec_layout<A: Allocator, T>(allocation: &Allocation<A>) -> (r: Result<
    usize,
    VecConversionError,
>)
    ensures
        r is Ok <==> vec_layout_error(size_of::<T>(), align_of::<T>(), allocation@.layout)
            is None,
        r matches Ok(c) ==> c == allocation@.layout.size as int / size_of::<T>() as int,
        r matches Err(e) ==> Some(e) == vec_layout_error(
            size_of::<T>(),
            align_of::<T>(),
            allocation@.layout,
        ),
        size_of::<T>() <= usize::MAX,
        align_of::<T>() <= usize::MAX,
{
    let expected = Layout::of::<T>();
    let actual = allocation.layout();
    let element_align = expected.align();
    let alloc_align = actual.align();
    if element_align != alloc_align {
        return Err(VecConversionError::align_mismatch(element_align, alloc_align));
    }
    let element_size = expected.size();
    let byte_capacity = actual.size();
    if element_size == 0 {
        // No capacity can be determined: zero-sized values cannot be made up
        // on the spot, so none is guessed.
        return Err(VecConversionError::zero_sized_elements());
    }
    if byte_capacity % element_size != 0 {
        return Err(VecConversionError::slack_capacity(element_size, byte_capacity));
    }
    let element_capacity = byte_capacity / element_size;
    Ok(element_capacity)
}

// ---------------------------------------------------------------------------
// The typed single-value container
// ---------------------------------------------------------------------------
/// An owned typed single-value container over possibly uninitialized
/// storage: exactly the bytes of one `T`, which may or may not form a valid
/// value yet. Its view is those bytes.
pub struct UninitBox<T, A: Allocator = Global> {
    bytes: Vec<u8>,
    alloc: A,
    elem: PhantomData<T>,
}

impl<T, A: Allocator> View for UninitBox<T, A> {
    type V = Seq<u8>;

    closed spec fn view(&self) -> Seq<u8> {
        self.bytes@
    }
}

impl<T, A: Allocator> UninitBox<T, A> {
    /// The allocator instance that owns the container's storage.
    pub closed spec fn allocator(&self) -> A {
        self.alloc
    }

    /// The container's invariant, enforced on every value: it holds exactly
    /// the bytes of one `T`.
    #[verifier::type_invariant]
    pub open spec fn wf(self) -> bool {
        self@.len() == size_of::<T>()
    }

    /// Reads the stored value back from its bytes. Meaningful only once the
    /// bytes are known to form the intended value.
    pub fn value(&self) -> (v: T) where T: Storable
        ensures
            v == T::from_bytes(self@),
    {
        proof {
            use_type_invariant(&*self);
        }
        T::load(self.bytes.as_slice())
    }
}

impl<T: Storable> UninitBox<T, Global> {
    /// Boxes a value: takes storage of exactly the value's size and fills it
    /// with the value's bytes.
    pub fn new(value: T) -> (r: Self)
        ensures
            r@ == value.to_bytes(),
            r.allocator() == Global,
    {
        proof {
            value.lemma_to_bytes_len();
        }
        UninitBox { bytes: value.store(), alloc: Global, elem: PhantomData }
    }
}

// ---------------------------------------------------------------------------
// The typed array container
// ---------------------------------------------------------------------------
/// The mathematical content of a typed array container: its backing bytes
/// and its logical length in elements.
pub ghost struct UninitVecView {
    /// The backing storage, one entry per byte; its length is the capacity
    /// times the element size.
    pub bytes: Seq<u8>,
    /// How many elements, counted from the front, are logically initialized.
    pub len: nat,
}

/// An owned typed growable-array container with independent length and
/// capacity: a backing byte region holding a whole number of `T` slots, of
/// which the first `len` count as initialized.
pub struct UninitVec<T, A: Allocator = Global> {
    bytes: Vec<u8>,
    len: usize,
    alloc: A,
    elem: PhantomData<T>,
}

impl<T, A: Allocator> View for UninitVec<T, A> {
    type V = UninitVecView;

    closed spec fn view(&self) -> UninitVecView {
        UninitVecView { bytes: self.bytes@, len: self.len as nat }
    }
}

impl<T, A: Allocator> UninitVec<T, A> {
    /// The allocator instance that owns the container's storage.
    pub closed spec fn allocator(&self) -> A {
        self.alloc
    }

    /// The capacity in elements.
    pub open spec fn spec_capacity(&self) -> nat {
        self@.bytes.len() / size_of::<T>()
    }

    /// The container's invariant, enforced on every value: a positive
    /// element size, a backing region holding a whole number of elements and
    /// shaped like a valid layout for the element alignment, and a logical
    /// length within capacity.
    #[verifier::type_invariant]
    pub open spec fn wf(self) -> bool {
        &&& size_of::<T>() > 0
        &&& size_of::<T>() <= usize::MAX
        &&& align_of::<T>() <= usize::MAX
        &&& self@.bytes.len() % size_of::<T>() == 0
        &&& self@.len * size_of::<T>() <= self@.bytes.len()
        &&& valid_layout(self@.bytes.len() as usize, align_of::<T>() as usize)
    }

    /// The capacity in elements: how many `T` slots the backing region
    /// holds.
    pub fn capacity(&self) -> (r: usize)
        ensures
            r == self.spec_capacity(),
    {
        proof {
            use_type_invariant(&*self);
        }
        self.bytes.len() / core::mem::size_of::<T>()
    }

    /// The logical length in elements.
    pub fn len(&self) -> (r: usize)
        ensures
            r == self@.len,
    {
        self.len
    }

    /// Sets the logical length. The new length must be within capacity; the
    /// first `new_len` slots then count as initialized, whatever their
    /// bytes.
    pub fn set_len(&mut self, new_len: usize)
        requires
            new_len * size_of::<T>() <= old(self)@.bytes.len(),
        ensures
            final(self)@.bytes == old(self)@.bytes,
            final(self)@.len == new_len,
            final(self).allocator() == old(self).allocator(),
    {
        proof {
            use_type_invariant(&*self);
        }
        self.len = new_len;
    }

    /// Reads the element in slot `i` back from its bytes. Meaningful only
    /// once the slot's bytes are known to form the intended value.
    pub fn get(&self, i: usize) -> (v: T) where T: Storable
        requires
            i < self@.len,
        ensures
            v == T::from_bytes(
                self@.bytes.subrange(
                    i * size_of::<T>() as int,
                    i * size_of::<T>() as int + size_of::<T>(),
                ),
            ),
    {
        proof {
            use_type_invariant(&*self);
        }
        let size = core::mem::size_of::<T>();
        // Materializes that the backing region's length fits a machine word,
        // which bounds the slot arithmetic below.
        let n = self.bytes.len();
        proof {
            vstd::arithmetic::mul::lemma_mul_inequality(
                i as int + 1,
                self@.len as int,
                size_of::<T>() as int,
            );
            assert((i as int + 1) * size_of::<T>() as int == i as int * size_of::<T>() as int
                + size_of::<T>() as int) by (nonlinear_arith);
        }
        let offset = i * size;
        let slice = vstd::slice::slice_subrange(self.bytes.as_slice(), offset, offset + size);
        T::load(slice)
    }

    /// Appends `value` after the logically initialized elements: writes its
    /// bytes into the next slot, which must be within capacity, and extends
    /// the logical length over it. All other bytes keep their values.
    pub fn push(&mut self, value: T) where T: Storable
        requires
            (old(self)@.len + 1) * size_of::<T>() <= old(self)@.bytes.len(),
        ensures
            final(self)@.len == old(self)@.len + 1,
            final(self)@.bytes.len() == old(self)@.bytes.len(),
            final(self).allocator() == old(self).allocator(),
            final(self)@.bytes.subrange(
                old(self)@.len * size_of::<T>() as int,
                old(self)@.len * size_of::<T>() as int + size_of::<T>(),
            ) == value.to_bytes(),
            forall|j: int|
                0 <= j < old(self)@.len * size_of::<T>() as int ==> final(self)@.bytes[j] == old(
                    self,
                )@.bytes[j],
            forall|j: int|
                old(self)@.len * size_of::<T>() as int + size_of::<T>() <= j < old(
                    self,
                )@.bytes.len() ==> final(self)@.bytes[j] == old(self)@.bytes[j],
    {
        proof {
            use_type_invariant(&*self);
            value.lemma_to_bytes_len();
            let l = old(self)@.len as int;
            let s = size_of::<T>() as int;
            assert((l + 1) * s == l * s + s) by (nonlinear_arith);
            assert((l + 1) * s >= l + 1) by (nonlinear_arith)
                requires
                    s >= 1,
                    l >= 0,
            ;
        }
        // Materializes that the backing region's length fits a machine word,
        // which bounds the slot arithmetic below.
        let n = self.bytes.len();
        let size = core::mem::size_of::<T>();
        let old_len = self.len;
        let offset = old_len * size;
        let image = value.store();
        // The splice happens on a buffer swapped out of the container, so
        // that the container's invariant holds at every step; an emptied
        // container with length zero trivially satisfies it.
        self.len = 0;
        let mut buf: Vec<u8> = Vec::new();
        proof {
            vstd::arithmetic::div_mod::lemma_small_mod(0nat, size_of::<T>());
        }
        core::mem::swap(&mut self.bytes, &mut buf);
        crate::alloc_shim::splice_bytes(&mut buf, offset, &image);
        core::mem::swap(&mut self.bytes, &mut buf);
        self.len = old_len + 1;
    }
}

impl<T: Storable> UninitVec<T, Global> {
    /// An array container with `capacity` empty slots and logical length
    /// zero; the slots' bytes are unspecified. The total byte size must be a
    /// valid layout for the element alignment, which every real array's is.
    pub fn with_capacity(capacity: usize) -> (r: Self)
        requires
            size_of::<T>() > 0,
            capacity * size_of::<T>() <= usize::MAX,
            valid_layout((capacity * size_of::<T>()) as usize, align_of::<T>() as usize),
        ensures
            r@.len == 0,
            r@.bytes.len() == capacity * size_of::<T>(),
            r.spec_capacity() == capacity,
            r.allocator() == Global,
    {
        let elem = Layout::of::<T>();
        let total = capacity * elem.size();
        let mem = crate::alloc_shim::fresh_bytes(total);
        proof {
            vstd::arithmetic::div_mod::lemma_mod_multiples_basic(
                capacity as int,
                size_of::<T>() as int,
            );
            vstd::arithmetic::div_mod::lemma_div_by_multiple(
                capacity as int,
                size_of::<T>() as int,
            );
        }
        UninitVec { bytes: mem, len: 0, alloc: Global, elem: PhantomData }
    }
}

// ---------------------------------------------------------------------------
// Conversions between the handle and the typed containers
// ---------------------------------------------------------------------------
/// Typed conversions
impl<A: Allocator> Allocation<A> {
    /// Converts the allocation into a typed single-value container over the
    /// same storage.
    ///
    /// This succeeds exactly when the allocated layout equals the layout of
    /// `T` — both size and alignment, with no slack tolerated, since a
    /// single-value container assumes an exact fit. The resulting value is
    /// not asserted initialized: read it back only once its bytes are known
    /// to form a valid `T`.
    ///
    /// See also the opposite conversion, [`Allocation::from_box`].
    pub fn try_into_box<T>(self) -> (r: Result<UninitBox<T, A>, BoxConversionError>)
        requires
            self.wf(),
        ensures
            r is Ok <==> self@.layout == Layout::spec_of::<T>(),
            r matches Ok(b) ==> b@ == self@.bytes && b.allocator() == self.allocator(),
            r matches Err(e) ==> e == (BoxConversionError::LayoutMismatch {
                expected: Layout::spec_of::<T>(),
                allocated: self@.layout,
            }),
    {
        match check_box_layout::<A, T>(&self) {
            Ok(()) => {},
            Err(e) => {
                return Err(e);
            },
        }
        // Commit to the conversion: the same storage, retyped.
        let (mem, _, alloc) = self.into_parts_with_alloc();
        Ok(UninitBox { bytes: mem, alloc, elem: PhantomData })
    }

    /// Converts the allocation into a typed array container over the same
    /// storage.
    ///
    /// This succeeds exactly when the allocated alignment equals the element
    /// type's, the element size is not zero, and the allocated byte size is
    /// a whole number of elements; the order of those checks decides which
    /// error is reported. The container always comes back with logical
    /// length zero and capacity `size / size_of::<T>()`: extend the length
    /// only once elements are known initialized.
    ///
    /// See also the opposite conversion, [`Allocation::from_vec`].
    pub fn try_into_vec<T>(self) -> (r: Result<UninitVec<T, A>, VecConversionError>)
        requires
            self.wf(),
        ensures
            r is Ok <==> vec_layout_error(size_of::<T>(), align_of::<T>(), self@.layout) is None,
            r matches Ok(v) ==> v@.bytes == self@.bytes && v@.len == 0 && v.spec_capacity()
                == self@.layout.size as int / size_of::<T>() as int && v.allocator()
                == self.allocator(),
            r matches Err(e) ==> Some(e) == vec_layout_error(
                size_of::<T>(),
                align_of::<T>(),
                self@.layout,
            ),
    {
        match check_vec_layout::<A, T>(&self) {
            Ok(_) => {},
            Err(e) => {
                return Err(e);
            },
        }
        let (mem, _, alloc) = self.into_parts_with_alloc();
        Ok(UninitVec { bytes: mem, len: 0, alloc, elem: PhantomData })
    }

    /// Takes ownership of a single-value container's storage without
    /// dropping any value it may hold (the value is forgotten, not
    /// destructed): the bytes carry over unchanged, under a layout that is
    /// exactly the layout of `T`.
    pub fn from_box<T>(b: UninitBox<T, A>) -> (r: Self)
        ensures
            r@.bytes == b@,
            r@.layout == Layout::spec_of::<T>(),
            r.allocator() == b.allocator(),
            r.wf(),
    {
        proof {
            use_type_invariant(&b);
        }
        let layout = Layout::of::<T>();
        let UninitBox { bytes, alloc, elem: _ } = b;
        Allocation::from_parts_in(bytes, layout, alloc)
    }

    /// Takes ownership of an array container's backing storage without
    /// dropping any elements it may hold: the logical length is truncated to
    /// zero first (the elements are forgotten, not destructed), and the
    /// recorded layout describes the whole capacity region — its byte size
    /// under the element alignment.
    pub fn from_vec<T>(v: UninitVec<T, A>) -> (r: Self)
        ensures
            r@.bytes == v@.bytes,
            r@.layout == (Layout {
                size: v@.bytes.len() as usize,
                align: align_of::<T>() as usize,
            }),
            r.allocator() == v.allocator(),
            r.wf(),
    {
        proof {
            use_type_invariant(&v);
        }
        let mut v = v;
        v.set_len(0);
        let align = core::mem::align_of::<T>();
        let UninitVec { bytes, len: _, alloc, elem: _ } = v;
        let layout = Layout { size: bytes.len(), align };
        Allocation::from_parts_in(bytes, layout, alloc)
    }
}

impl<T, A: Allocator> vstd::std_specs::convert::FromSpecImpl<UninitBox<T, A>> for Allocation<A> {
    open spec fn obeys_from_spec() -> bool {
        true
    }

    closed spec fn from_spec(b: UninitBox<T, A>) -> Allocation<A> {
        crate::allocation::spec_from_parts(b.bytes, Layout::spec_of::<T>(), b.alloc)
    }
}

impl<T, A: Allocator> From<UninitBox<T, A>> for Allocation<A> {
    /// Equivalent to [`Allocation::from_box`].
    fn from(b: UninitBox<T, A>) -> (r: Allocation<A>) {
        proof {
            use_type_invariant(&b);
        }
        let layout = Layout::of::<T>();
        let UninitBox { bytes, alloc, elem: _ } = b;
        Allocation::from_parts_in(bytes, layout, alloc)
    }
}

impl<T, A: Allocator> vstd::std_specs::convert::FromSpecImpl<UninitVec<T, A>> for Allocation<A> {
    open spec fn obeys_from_spec() -> bool {
        true
    }

    closed spec fn from_spec(v: UninitVec<T, A>) -> Allocation<A> {
        crate::allocation::spec_from_parts(
            v.bytes,
            Layout { size: v.bytes@.len() as usize, align: align_of::<T>() as usize },
            v.alloc,
        )
    }
}

impl<T, A: Allocator> From<UninitVec<T, A>> for Allocation<A> {
    /// Equivalent to [`Allocation::from_vec`].
    fn from(v: UninitVec<T, A>) -> (r: Allocation<A>) {
        proof {
            use_type_invariant(&v);
        }
        let align = core::mem::align_of::<T>();
        let UninitVec { bytes, len: _, alloc, elem: _ } = v;
        let layout = Layout { size: bytes.len(), align };
        Allocation::from_parts_in(bytes, layout, alloc)
    }
}

// ---------------------------------------------------------------------------
// Round-trip laws
// ---------------------------------------------------------------------------
/// Round-trip identity for single values: the allocation a single-value
/// container of `T` becomes carries exactly the container's bytes under
/// exactly the layout of `T`, which is the one shape `try_into_box::<T>`
/// accepts — so converting back succeeds and reproduces the original bytes,
/// bit for bit.
pub proof fn lemma_box_round_trip<T>(a: AllocView, b: Seq<u8>)
    requires
        b.len() == size_of::<T>(),
        a == (AllocView { bytes: b, layout: Layout::spec_of::<T>() }),
    ensures
        a.layout == Layout::spec_of::<T>(),
        a.bytes == b,
{
}

/// Round-trip identity for arrays: the allocation an array container of
/// capacity `n` becomes carries exactly the container's backing bytes under
/// the element alignment, a shape `try_into_vec::<T>` always accepts — so
/// converting back succeeds, reproduces the original bytes, and yields
/// capacity `n` again (with logical length zero, to be re-extended once the
/// elements are known initialized).
pub proof fn lemma_vec_round_trip<T>(a: AllocView, b: Seq<u8>, n: nat)
    requires
        size_of::<T>() > 0,
        size_of::<T>() <= usize::MAX,
        align_of::<T>() <= usize::MAX,
        b.len() == n * size_of::<T>(),
        b.len() <= usize::MAX,
        a == (AllocView {
            bytes: b,
            layout: Layout { size: b.len() as usize, align: align_of::<T>() as usize },
        }),
    ensures
        vec_layout_error(size_of::<T>(), align_of::<T>(), a.layout) is None,
        a.layout.size as int / size_of::<T>() as int == n,
        a.bytes == b,
{
    vstd::arithmetic::div_mod::lemma_mod_multiples_basic(n as int, size_of::<T>() as int);
    vstd::arithmetic::div_mod::lemma_div_by_multiple(n as int, size_of::<T>() as int);
}

} // verus!
