use crate::alloc_shim::{all_zero, granted, AllocError, Allocator, Global};
use crate::layout::Layout;
use crate::storable::Storable;
use vstd::prelude::*;

verus! {

// ---------------------------------------------------------------------------
// Layout-matching allocation primitives
// ---------------------------------------------------------------------------
/// What normalization guarantees: the returned layout describes the true
/// granted region `m` — its size is the byte count actually granted, its
/// alignment is the one the caller asked for (never downgraded), and a
/// zero-size request was granted no bytes at all.
pub open spec fn normalized(requested: Layout, m: Seq<u8>, l: Layout) -> bool {
    &&& m.len() == l.size
    &&& l.align == requested.align
    &&& l.size >= requested.size
    &&& l.wf()
    &&& (requested.size == 0 ==> l.size == 0)
}

/// Rebuilds an honest layout for a granted region: the backend may have
/// granted more than was asked, so the size is taken from the region itself
/// while the alignment stays the requested one.
fn match_allocated_size(mem: &Vec<u8>, layout: Layout) -> (r: Layout)
    requires
        granted(layout, mem@.len()),
    ensures
        normalized(layout, mem@, r),
{
    Layout { size: mem.len(), align: layout.align }
}

/// Allocates through `alloc` and normalizes the result to an honest
/// (region, layout) pair.
pub(crate) fn allocate<A: Allocator>(alloc: &A, layout: Layout) -> (r: Result<
    (Vec<u8>, Layout),
    AllocError,
>)
    requires
        layout.wf(),
    ensures
        r is Ok <==> alloc.can_allocate(layout),
        r matches Ok((m, l)) ==> normalized(layout, m@, l),
        r matches Ok((m, l)) ==> (alloc.grants_exactly() ==> l.size == layout.size),
{
    let mem = alloc.allocate(layout)?;
    let actual = match_allocated_size(&mem, layout);
    Ok((mem, actual))
}

/// Like [`allocate`], but every granted byte reads as zero.
pub(crate) fn allocate_zeroed<A: Allocator>(alloc: &A, layout: Layout) -> (r: Result<
    (Vec<u8>, Layout),
    AllocError,
>)
    requires
        layout.wf(),
    ensures
        r is Ok <==> alloc.can_allocate(layout),
        r matches Ok((m, l)) ==> normalized(layout, m@, l) && all_zero(m@),
        r matches Ok((m, l)) ==> (alloc.grants_exactly() ==> l.size == layout.size),
{
    let mem = alloc.allocate_zeroed(layout)?;
    let actual = match_allocated_size(&mem, layout);
    Ok((mem, actual))
}

/// Regrows a region through `alloc` and returns the normalized layout of the
/// regrown region; on failure the region is untouched.
pub(crate) fn grow<A: Allocator>(
    alloc: &A,
    mem: &mut Vec<u8>,
    old_layout: Layout,
    new_layout: Layout,
) -> (r: Result<Layout, AllocError>)
    requires
        old_layout.wf(),
        new_layout.wf(),
        old(mem)@.len() == old_layout.size,
        new_layout.size >= old_layout.size,
    ensures
        r is Ok <==> alloc.can_grow(old_layout, new_layout),
        r matches Ok(l) ==> normalized(new_layout, final(mem)@, l) && final(mem)@.subrange(
            0,
            old_layout.size as int,
        ) == old(mem)@.subrange(0, old_layout.size as int),
        r matches Ok(l) ==> (alloc.grants_exactly() ==> l.size == new_layout.size),
        r is Err ==> final(mem)@ == old(mem)@,
{
    match alloc.grow(mem, old_layout, new_layout) {
        Ok(()) => Ok(match_allocated_size(mem, new_layout)),
        Err(e) => Err(e),
    }
}

/// Like [`grow`], but every byte past the old size reads as zero.
pub(crate) fn grow_zeroed<A: Allocator>(
    alloc: &A,
    mem: &mut Vec<u8>,
    old_layout: Layout,
    new_layout: Layout,
) -> (r: Result<Layout, AllocError>)
    requires
        old_layout.wf(),
        new_layout.wf(),
        old(mem)@.len() == old_layout.size,
        new_layout.size >= old_layout.size,
    ensures
        r is Ok <==> alloc.can_grow(old_layout, new_layout),
        r matches Ok(l) ==> normalized(new_layout, final(mem)@, l) && final(mem)@.subrange(
            0,
            old_layout.size as int,
        ) == old(mem)@.subrange(0, old_layout.size as int),
        r is Ok ==> forall|i: int| old_layout.size <= i < final(mem)@.len() ==> final(mem)@[i] == 0,
        r matches Ok(l) ==> (alloc.grants_exactly() ==> l.size == new_layout.size),
        r is Err ==> final(mem)@ == old(mem)@,
{
    match alloc.grow_zeroed(mem, old_layout, new_layout) {
        Ok(()) => Ok(match_allocated_size(mem, new_layout)),
        Err(e) => Err(e),
    }
}

/// Shrinks a region through `alloc` and returns the normalized layout of the
/// shrunk region; on failure the region is untouched.
pub(crate) fn shrink<A: Allocator>(
    alloc: &A,
    mem: &mut Vec<u8>,
    old_layout: Layout,
    new_layout: Layout,
) -> (r: Result<Layout, AllocError>)
    requires
        old_layout.wf(),
        new_layout.wf(),
        old(mem)@.len() == old_layout.size,
        new_layout.size <= old_layout.size,
    ensures
        r is Ok <==> alloc.can_shrink(old_layout, new_layout),
        r matches Ok(l) ==> normalized(new_layout, final(mem)@, l) && final(mem)@.subrange(
            0,
            new_layout.size as int,
        ) == old(mem)@.subrange(0, new_layout.size as int),
        r matches Ok(l) ==> (alloc.grants_exactly() ==> l.size == new_layout.size),
        r is Err ==> final(mem)@ == old(mem)@,
{
    match alloc.shrink(mem, old_layout, new_layout) {
        Ok(()) => Ok(match_allocated_size(mem, new_layout)),
        Err(e) => Err(e),
    }
}

// ---------------------------------------------------------------------------
// The allocation handle
// ---------------------------------------------------------------------------
/// The mathematical content of an allocation handle: the bytes it owns and
/// the layout it claims for them.
pub ghost struct AllocView {
    /// The owned storage, one entry per byte.
    pub bytes: Seq<u8>,
    /// The layout the handle claims: truthful size, requested alignment.
    pub layout: Layout,
}

/// An allocation is a management representation of some allocated memory.
///
/// For the most part, this behaves like a lower-level (untyped) cousin of a
/// box, and no validity or initialization state of the memory is implied by
/// the existence of an `Allocation`. The handle owns its region outright:
/// dropping the handle drops the owned region, which is the one release, so
/// the handle needs no drop glue of its own, and the embedded allocator's
/// `deallocate` runs only on the reallocation paths that replace the region.
/// Decomposing into raw parts hands the region — and with it the release —
/// to the caller.
pub struct Allocation<A: Allocator = Global> {
    mem: Vec<u8>,
    layout: Layout,
    alloc: A,
}

impl<A: Allocator> View for Allocation<A> {
    type V = AllocView;

    closed spec fn view(&self) -> AllocView {
        AllocView { bytes: self.mem@, layout: self.layout }
    }
}

/// The exact handle value that `from_parts_in` assembles from raw parts.
pub closed spec fn spec_from_parts<A: Allocator>(mem: Vec<u8>, layout: Layout, alloc: A) -> Allocation<A> {
    Allocation { mem, layout, alloc }
}

/// What a handle freshly allocated for `layout` from `alloc` guarantees.
pub open spec fn fresh_handle<A: Allocator>(a: Allocation<A>, layout: Layout, alloc: A) -> bool {
    &&& a.wf()
    &&& a.allocator() == alloc
    &&& a@.layout.align == layout.align
    &&& a@.layout.size >= layout.size
    &&& (layout.size == 0 ==> a@.layout.size == 0)
    &&& (alloc.grants_exactly() ==> a@.layout == layout)
}

/// A successful regrow to `new_layout`: the layout honestly describes the new
/// region, and the bytes up to the old size carry over.
pub open spec fn grown(pre: AllocView, post: AllocView, new_layout: Layout) -> bool {
    &&& post.bytes.len() == post.layout.size
    &&& post.layout.wf()
    &&& post.layout.align == new_layout.align
    &&& post.layout.size >= new_layout.size
    &&& (new_layout.size == 0 ==> post.layout.size == 0)
    &&& post.bytes.subrange(0, pre.layout.size as int) == pre.bytes.subrange(
        0,
        pre.layout.size as int,
    )
}

/// A successful shrink to `new_layout`: the layout honestly describes the new
/// region, and the bytes up to the new size carry over.
pub open spec fn shrunk(pre: AllocView, post: AllocView, new_layout: Layout) -> bool {
    &&& post.bytes.len() == post.layout.size
    &&& post.layout.wf()
    &&& post.layout.align == new_layout.align
    &&& post.layout.size >= new_layout.size
    &&& (new_layout.size == 0 ==> post.layout.size == 0)
    &&& post.bytes.subrange(0, new_layout.size as int) == pre.bytes.subrange(
        0,
        new_layout.size as int,
    )
}

/// How a successful reallocation relates the handle after the call to the
/// handle before it: equal layouts are a complete no-op, a size that does not
/// go down is a grow (preferred even when only the alignment changes), and
/// anything else is a shrink.
pub open spec fn reallocated(pre: AllocView, post: AllocView, new_layout: Layout) -> bool {
    if new_layout == pre.layout {
        post == pre
    } else if new_layout.size >= pre.layout.size {
        grown(pre, post, new_layout)
    } else {
        shrunk(pre, post, new_layout)
    }
}

/// Every byte past the old size reads as zero after a zeroed grow.
pub open spec fn zero_extended(pre: AllocView, post: AllocView) -> bool {
    forall|i: int| pre.layout.size <= i < post.bytes.len() ==> post.bytes[i] == 0
}

/// Whether the embedded allocator lets a reallocation to `new_layout`
/// succeed; on equal layouts nothing is ever asked of it.
pub open spec fn realloc_granted<A: Allocator>(a: Allocation<A>, new_layout: Layout) -> bool {
    ||| new_layout == a@.layout
    ||| (new_layout.size >= a@.layout.size && a.allocator().can_grow(a@.layout, new_layout))
    ||| (new_layout.size < a@.layout.size && a.allocator().can_shrink(a@.layout, new_layout))
}

/// Methods for the default backend
impl Allocation<Global> {
    /// Allocates new memory for the given layout from the default backend.
    ///
    /// The handle owns `layout.size()` bytes (possibly more, see
    /// [`Self::layout`]) that alias no other live allocation; their contents
    /// are unspecified. The default backend grants every request, so this
    /// always succeeds; a zero-size layout succeeds without reserving any
    /// memory.
    pub fn new(layout: Layout) -> (r: Self)
        requires
            layout.wf(),
        ensures
            fresh_handle(r, layout, Global),
    {
        Self::new_in(layout, Global)
    }

    /// Allocates new memory for the given layout from the default backend,
    /// with every byte reading as zero.
    pub fn zeroed(layout: Layout) -> (r: Self)
        requires
            layout.wf(),
        ensures
            fresh_handle(r, layout, Global),
            all_zero(r@.bytes),
    {
        Self::zeroed_in(layout, Global)
    }

    /// Splits the allocation into its raw parts: the owned region and the
    /// layout under which it was allocated.
    ///
    /// Releasing the region becomes the caller's responsibility; the handle
    /// itself releases nothing. See [`Self::into_parts_with_alloc`] for an
    /// allocator-aware version.
    pub fn into_parts(self) -> (r: (Vec<u8>, Layout))
        ensures
            r.0@ == self@.bytes,
            r.1 == self@.layout,
    {
        let (mem, layout, _) = self.into_parts_with_alloc();
        (mem, layout)
    }

    /// Rebuilds an [`Allocation`] from a region and layout information.
    ///
    /// The region must be currently allocated from the default backend under
    /// `layout`; the length equality in the contract states exactly that.
    pub fn from_parts(mem: Vec<u8>, layout: Layout) -> (r: Self)
        requires
            layout.wf(),
            mem@.len() == layout.size,
        ensures
            r@.bytes == mem@,
            r@.layout == layout,
            r.allocator() == Global,
            r.wf(),
    {
        Self::from_parts_in(mem, layout, Global)
    }
}

/// Common methods
impl<A: Allocator> Allocation<A> {
    /// The allocator instance this handle embeds.
    pub closed spec fn allocator(&self) -> A {
        self.alloc
    }

    /// The handle's invariant: the stored layout is well-formed and truthful,
    /// owning exactly `layout.size` bytes.
    pub open spec fn wf(&self) -> bool {
        &&& self@.layout.wf()
        &&& self@.bytes.len() == self@.layout.size
    }

    /// Allocates new memory for the given layout in the given allocator.
    ///
    /// The allocator must grant the request; see [`Self::try_new_in`] for the
    /// version that reports failure as a value instead.
    pub fn new_in(layout: Layout, alloc: A) -> (r: Self)
        requires
            layout.wf(),
            alloc.can_allocate(layout),
        ensures
            fresh_handle(r, layout, alloc),
    {
        match Self::try_new_in(layout, alloc) {
            Ok(a) => a,
            Err(_) => vstd::pervasive::unreached(),
        }
    }

    /// Allocates new memory for the given layout in the given allocator,
    /// returning an error exactly when the allocator does not grant the
    /// request.
    pub fn try_new_in(layout: Layout, alloc: A) -> (r: Result<Self, AllocError>)
        requires
            layout.wf(),
        ensures
            r is Ok <==> alloc.can_allocate(layout),
            r matches Ok(a) ==> fresh_handle(a, layout, alloc),
    {
        let (mem, actual) = match allocate(&alloc, layout) {
            Ok(p) => p,
            Err(e) => {
                return Err(e);
            },
        };
        Ok(Allocation { mem, layout: actual, alloc })
    }

    /// Allocates new zeroed-out memory for the given layout in the given
    /// allocator.
    ///
    /// The allocator must grant the request; see [`Self::try_zeroed_in`] for
    /// the version that reports failure as a value instead.
    pub fn zeroed_in(layout: Layout, alloc: A) -> (r: Self)
        requires
            layout.wf(),
            alloc.can_allocate(layout),
        ensures
            fresh_handle(r, layout, alloc),
            all_zero(r@.bytes),
    {
        match Self::try_zeroed_in(layout, alloc) {
            Ok(a) => a,
            Err(_) => vstd::pervasive::unreached(),
        }
    }

    /// Allocates new zeroed-out memory for the given layout in the given
    /// allocator, returning an error exactly when the allocator does not
    /// grant the request.
    pub fn try_zeroed_in(layout: Layout, alloc: A) -> (r: Result<Self, AllocError>)
        requires
            layout.wf(),
        ensures
            r is Ok <==> alloc.can_allocate(layout),
            r matches Ok(a) ==> fresh_handle(a, layout, alloc) && all_zero(a@.bytes),
    {
        let (mem, actual) = match allocate_zeroed(&alloc, layout) {
            Ok(p) => p,
            Err(e) => {
                return Err(e);
            },
        };
        Ok(Allocation { mem, layout: actual, alloc })
    }

    /// The layout of the underlying allocation: at least as large and at
    /// least as strictly aligned as last requested, but possibly indicating
    /// more available memory.
    pub fn layout(&self) -> (r: Layout)
        ensures
            r == self@.layout,
    {
        self.layout
    }

    /// Views the owned storage as plain bytes, length `layout().size`.
    pub fn as_slice(&self) -> (r: &[u8])
        ensures
            r@ == self@.bytes,
    {
        self.mem.as_slice()
    }

    /// Reads a `T` back from the owned storage at byte offset `offset`.
    ///
    /// The storage must be large enough to hold a `T` at that offset, at
    /// least as strictly aligned as a `T`, and the offset itself a multiple
    /// of the `T` alignment.
    pub fn read_at<T: Storable>(&self, offset: usize) -> (v: T)
        requires
            self.wf(),
            offset + vstd::layout::size_of::<T>() <= self@.layout.size,
            self@.layout.align >= vstd::layout::align_of::<T>(),
            offset as int % vstd::layout::align_of::<T>() as int == 0,
        ensures
            v == T::from_bytes(
                self@.bytes.subrange(offset as int, offset + vstd::layout::size_of::<T>()),
            ),
    {
        let size = core::mem::size_of::<T>();
        let slice = vstd::slice::slice_subrange(self.mem.as_slice(), offset, offset + size);
        T::load(slice)
    }

    /// Writes the byte image of `value` into the owned storage at byte
    /// offset `offset`, leaving every other byte and the layout as they
    /// were. The storage requirements are those of [`Self::read_at`].
    pub fn write_at<T: Storable>(&mut self, offset: usize, value: T)
        requires
            old(self).wf(),
            offset + vstd::layout::size_of::<T>() <= old(self)@.layout.size,
            old(self)@.layout.align >= vstd::layout::align_of::<T>(),
            offset as int % vstd::layout::align_of::<T>() as int == 0,
        ensures
            final(self).wf(),
            final(self)@.layout == old(self)@.layout,
            final(self).allocator() == old(self).allocator(),
            final(self)@.bytes.len() == old(self)@.bytes.len(),
            final(self)@.bytes.subrange(
                offset as int,
                offset + vstd::layout::size_of::<T>(),
            ) == value.to_bytes(),
            forall|j: int| 0 <= j < offset ==> final(self)@.bytes[j] == old(self)@.bytes[j],
            forall|j: int|
                offset + vstd::layout::size_of::<T>() <= j < old(self)@.bytes.len()
                    ==> final(self)@.bytes[j] == old(self)@.bytes[j],
    {
        proof {
            value.lemma_to_bytes_len();
        }
        let image = value.store();
        crate::alloc_shim::splice_bytes(&mut self.mem, offset, &image);
    }

    /// Reallocates the owned memory to a new layout; the grow and shrink
    /// guarantees are those of [`reallocated`]. Requires the embedded
    /// allocator to grant the request; see [`Self::try_realloc`] for the
    /// version that reports failure as a value instead.
    pub fn realloc(&mut self, new_layout: Layout)
        requires
            old(self).wf(),
            new_layout.wf(),
            realloc_granted(*old(self), new_layout),
        ensures
            final(self).wf(),
            final(self).allocator() == old(self).allocator(),
            reallocated(old(self)@, final(self)@, new_layout),
            old(self).allocator().grants_exactly() ==> final(self)@.layout == new_layout,
    {
        match self.try_realloc(new_layout) {
            Ok(()) => (),
            Err(_) => vstd::pervasive::unreached(),
        }
    }

    /// Like [`Self::realloc`], but when growing, every byte past the old
    /// size reads as zero afterwards; shrinking exposes no new bytes and
    /// zeroes nothing.
    pub fn realloc_zeroed(&mut self, new_layout: Layout)
        requires
            old(self).wf(),
            new_layout.wf(),
            realloc_granted(*old(self), new_layout),
        ensures
            final(self).wf(),
            final(self).allocator() == old(self).allocator(),
            reallocated(old(self)@, final(self)@, new_layout),
            new_layout != old(self)@.layout && new_layout.size >= old(self)@.layout.size
                ==> zero_extended(old(self)@, final(self)@),
            old(self).allocator().grants_exactly() ==> final(self)@.layout == new_layout,
    {
        match self.try_realloc_zeroed(new_layout) {
            Ok(()) => (),
            Err(_) => vstd::pervasive::unreached(),
        }
    }

    /// Reallocates the owned memory to a new layout.
    ///
    /// Succeeds exactly when the layout is unchanged (a complete no-op) or
    /// the embedded allocator grants the change. On success the handle is
    /// related to its old value by [`reallocated`]; on failure it is left
    /// fully valid and unchanged.
    pub fn try_realloc(&mut self, new_layout: Layout) -> (r: Result<(), AllocError>)
        requires
            old(self).wf(),
            new_layout.wf(),
        ensures
            final(self).wf(),
            final(self).allocator() == old(self).allocator(),
            r is Ok <==> realloc_granted(*old(self), new_layout),
            r is Ok ==> reallocated(old(self)@, final(self)@, new_layout),
            r is Ok && old(self).allocator().grants_exactly() ==> final(self)@.layout
                == new_layout,
            r is Err ==> final(self)@ == old(self)@,
    {
        if new_layout == self.layout {
            return Ok(());
        }
        // Prefer grow to shrink when all we do is change alignment.
        if new_layout.size() >= self.layout.size() {
            match grow(&self.alloc, &mut self.mem, self.layout, new_layout) {
                Ok(actual) => {
                    self.layout = actual;
                    Ok(())
                },
                Err(e) => Err(e),
            }
        } else {
            match shrink(&self.alloc, &mut self.mem, self.layout, new_layout) {
                Ok(actual) => {
                    self.layout = actual;
                    Ok(())
                },
                Err(e) => Err(e),
            }
        }
    }

    /// Like [`Self::try_realloc`], but when growing, every byte past the old
    /// size reads as zero afterwards.
    pub fn try_realloc_zeroed(&mut self, new_layout: Layout) -> (r: Result<(), AllocError>)
        requires
            old(self).wf(),
            new_layout.wf(),
        ensures
            final(self).wf(),
            final(self).allocator() == old(self).allocator(),
            r is Ok <==> realloc_granted(*old(self), new_layout),
            r is Ok ==> reallocated(old(self)@, final(self)@, new_layout),
            r is Ok && new_layout != old(self)@.layout && new_layout.size >= old(
                self,
            )@.layout.size ==> zero_extended(old(self)@, final(self)@),
            r is Ok && old(self).allocator().grants_exactly() ==> final(self)@.layout
                == new_layout,
            r is Err ==> final(self)@ == old(self)@,
    {
        if new_layout == self.layout {
            return Ok(());
        }
        // Prefer grow to shrink when all we do is change alignment.
        if new_layout.size() >= self.layout.size() {
            match grow_zeroed(&self.alloc, &mut self.mem, self.layout, new_layout) {
                Ok(actual) => {
                    self.layout = actual;
                    Ok(())
                },
                Err(e) => Err(e),
            }
        } else {
            match shrink(&self.alloc, &mut self.mem, self.layout, new_layout) {
                Ok(actual) => {
                    self.layout = actual;
                    Ok(())
                },
                Err(e) => Err(e),
            }
        }
    }

    /// Splits the allocation into its raw parts, including the allocator.
    ///
    /// Releasing the region becomes the caller's responsibility; the handle
    /// itself releases nothing.
    pub fn into_parts_with_alloc(self) -> (r: (Vec<u8>, Layout, A))
        ensures
            r.0@ == self@.bytes,
            r.1 == self@.layout,
            r.2 == self.allocator(),
    {
        let Allocation { mem, layout, alloc } = self;
        (mem, layout, alloc)
    }

    /// Rebuilds an [`Allocation`] from a region and layout information in the
    /// given allocator.
    ///
    /// The region must be currently allocated from that allocator under
    /// `layout`; the length equality in the contract states exactly that.
    pub fn from_parts_in(mem: Vec<u8>, layout: Layout, alloc: A) -> (r: Self)
        requires
            layout.wf(),
            mem@.len() == layout.size,
        ensures
            r == spec_from_parts(mem, layout, alloc),
            r@.bytes == mem@,
            r@.layout == layout,
            r.allocator() == alloc,
            r.wf(),
    {
        Allocation { mem, layout, alloc }
    }
}

// ---------------------------------------------------------------------------
// Laws about reallocation chains
// ---------------------------------------------------------------------------
/// Shrinking to `mid_layout` and then growing back (to any layout at least as
/// large) preserves exactly the bytes that survived the shrink: the prefix up
/// to `mid_layout.size`. Nothing beyond it can be assumed to survive the
/// round trip.
pub proof fn lemma_shrink_then_grow_keeps_prefix(
    a0: AllocView,
    a1: AllocView,
    a2: AllocView,
    mid_layout: Layout,
    back_layout: Layout,
)
    requires
        mid_layout.size < a0.layout.size,
        reallocated(a0, a1, mid_layout),
        back_layout.size >= a1.layout.size,
        reallocated(a1, a2, back_layout),
    ensures
        a2.bytes.subrange(0, mid_layout.size as int) == a0.bytes.subrange(
            0,
            mid_layout.size as int,
        ),
{
    assert(a1.bytes.subrange(0, mid_layout.size as int) == a0.bytes.subrange(
        0,
        mid_layout.size as int,
    ));
    if back_layout == a1.layout {
        assert(a2 == a1);
    } else {
        assert(a2.bytes.subrange(0, a1.layout.size as int) == a1.bytes.subrange(
            0,
            a1.layout.size as int,
        ));
        assert(a2.bytes.subrange(0, mid_layout.size as int) =~= a2.bytes.subrange(
            0,
            a1.layout.size as int,
        ).subrange(0, mid_layout.size as int));
        assert(a1.bytes.subrange(0, mid_layout.size as int) =~= a1.bytes.subrange(
            0,
            a1.layout.size as int,
        ).subrange(0, mid_layout.size as int));
    }
}

} // verus!
