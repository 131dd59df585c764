use crate::layout::Layout;
use vstd::layout::valid_layout;
use vstd::prelude::*;

verus! {

/// Undifferentiated allocation failure: the backend could not, or would not,
/// grant the request. It carries no reason code.
#[derive(Clone, Copy, Debug, PartialEq, Eq, Structural)]
pub struct AllocError;

/// Every byte of `s` reads as zero.
pub open spec fn all_zero(s: Seq<u8>) -> bool {
    forall|i: int| 0 <= i < s.len() ==> s[i] == 0
}

/// What every granted region promises about its byte count `n` for a request
/// of `layout`: at least as large as asked, still a representable region for
/// the requested alignment, and nothing at all for a zero-size request
/// (size-0 regions need no backing memory and no release).
pub open spec fn granted(layout: Layout, n: nat) -> bool {
    &&& n >= layout.size
    &&& n <= usize::MAX
    &&& valid_layout(n as usize, layout.align)
    &&& (layout.size == 0 ==> n == 0)
}

/// The capability every allocation backend provides: allocate, deallocate,
/// grow and shrink owned byte regions, fallibly and with layout honesty.
///
/// A region is currently allocated by an allocator under a layout when the
/// allocator handed it out (or regrew it) for that layout and it has not been
/// passed back; the region then holds exactly as many bytes as the layout's
/// size after normalization, which the `requires` clauses below state as a
/// length equality.
pub trait Allocator: Sized {
    /// Whether this allocator grants a fresh request for `layout`.
    spec fn can_allocate(&self, layout: Layout) -> bool;

    /// Whether this allocator grants regrowing a region it allocated under
    /// `old_layout` to `new_layout`.
    spec fn can_grow(&self, old_layout: Layout, new_layout: Layout) -> bool;

    /// Whether this allocator grants shrinking a region it allocated under
    /// `old_layout` to `new_layout`.
    spec fn can_shrink(&self, old_layout: Layout, new_layout: Layout) -> bool;

    /// Whether every region this allocator grants holds exactly the
    /// requested number of bytes. The default backend does; a backend that
    /// rounds requests up to size classes would not.
    spec fn grants_exactly(&self) -> bool;

    /// Allocates a fresh region for `layout`. The contents of a granted
    /// region are unspecified.
    fn allocate(&self, layout: Layout) -> (r: Result<Vec<u8>, AllocError>)
        requires
            layout.wf(),
        ensures
            r is Ok <==> self.can_allocate(layout),
            r matches Ok(m) ==> granted(layout, m@.len()),
            r matches Ok(m) ==> (self.grants_exactly() ==> m@.len() == layout.size),
    ;

    /// Allocates a fresh region for `layout` whose every byte reads as zero.
    fn allocate_zeroed(&self, layout: Layout) -> (r: Result<Vec<u8>, AllocError>)
        requires
            layout.wf(),
        ensures
            r is Ok <==> self.can_allocate(layout),
            r matches Ok(m) ==> granted(layout, m@.len()) && all_zero(m@),
            r matches Ok(m) ==> (self.grants_exactly() ==> m@.len() == layout.size),
    ;

    /// Releases a region currently allocated by this allocator under
    /// `layout`.
    fn deallocate(&self, mem: Vec<u8>, layout: Layout)
        requires
            layout.wf(),
            mem@.len() == layout.size,
    ;

    /// Regrows a region currently allocated under `old_layout` to
    /// `new_layout`. On success the bytes up to `old_layout.size` are
    /// preserved and the bytes beyond them are unspecified; on failure the
    /// region is left untouched and stays valid.
    fn grow(&self, mem: &mut Vec<u8>, old_layout: Layout, new_layout: Layout) -> (r: Result<
        (),
        AllocError,
    >)
        requires
            old_layout.wf(),
            new_layout.wf(),
            old(mem)@.len() == old_layout.size,
            new_layout.size >= old_layout.size,
        ensures
            r is Ok <==> self.can_grow(old_layout, new_layout),
            r is Ok ==> granted(new_layout, final(mem)@.len()) && final(mem)@.subrange(
                0,
                old_layout.size as int,
            ) == old(mem)@.subrange(0, old_layout.size as int),
            r is Ok && self.grants_exactly() ==> final(mem)@.len() == new_layout.size,
            r is Err ==> final(mem)@ == old(mem)@,
    ;

    /// Like [`Allocator::grow`], but on success every byte past
    /// `old_layout.size` reads as zero.
    fn grow_zeroed(&self, mem: &mut Vec<u8>, old_layout: Layout, new_layout: Layout) -> (r: Result<
        (),
        AllocError,
    >)
        requires
            old_layout.wf(),
            new_layout.wf(),
            old(mem)@.len() == old_layout.size,
            new_layout.size >= old_layout.size,
        ensures
            r is Ok <==> self.can_grow(old_layout, new_layout),
            r is Ok ==> granted(new_layout, final(mem)@.len()) && final(mem)@.subrange(
                0,
                old_layout.size as int,
            ) == old(mem)@.subrange(0, old_layout.size as int),
            r is Ok ==> forall|i: int|
                old_layout.size <= i < final(mem)@.len() ==> final(mem)@[i] == 0,
            r is Ok && self.grants_exactly() ==> final(mem)@.len() == new_layout.size,
            r is Err ==> final(mem)@ == old(mem)@,
    ;

    /// Shrinks a region currently allocated under `old_layout` to
    /// `new_layout`. On success the bytes up to `new_layout.size` are
    /// preserved; on failure the region is left untouched and stays valid.
    fn shrink(&self, mem: &mut Vec<u8>, old_layout: Layout, new_layout: Layout) -> (r: Result<
        (),
        AllocError,
    >)
        requires
            old_layout.wf(),
            new_layout.wf(),
            old(mem)@.len() == old_layout.size,
            new_layout.size <= old_layout.size,
        ensures
            r is Ok <==> self.can_shrink(old_layout, new_layout),
            r is Ok ==> granted(new_layout, final(mem)@.len()) && final(mem)@.subrange(
                0,
                new_layout.size as int,
            ) == old(mem)@.subrange(0, new_layout.size as int),
            r is Ok && self.grants_exactly() ==> final(mem)@.len() == new_layout.size,
            r is Err ==> final(mem)@ == old(mem)@,
    ;
}

/// The default backend over the host's own heap: it grants every request and
/// hands out exactly the size asked for.
#[derive(Clone, Copy, Debug, PartialEq, Eq, Structural)]
pub struct Global;

/// A fresh region of `n` bytes, each reading as zero.
pub(crate) fn fresh_bytes(n: usize) -> (v: Vec<u8>)
    ensures
        v@.len() == n,
        all_zero(v@),
{
    let mut v: Vec<u8> = Vec::new();
    while v.len() < n
        invariant
            v@.len() <= n,
            all_zero(v@),
        decreases n - v@.len(),
    {
        v.push(0u8);
    }
    v
}

/// Overwrites every byte of `mem` with zero, in place.
fn write_zeroes(mem: &mut Vec<u8>)
    ensures
        final(mem)@.len() == old(mem)@.len(),
        all_zero(final(mem)@),
{
    let mut i: usize = 0;
    while i < mem.len()
        invariant
            i <= mem@.len(),
            mem@.len() == old(mem)@.len(),
            forall|j: int| 0 <= j < i ==> mem@[j] == 0,
        decreases mem@.len() - i,
    {
        mem[i] = 0u8;
        i += 1;
    }
}

/// Copies all of `src` over the bytes of `dst` starting at `offset`, leaving
/// the rest of `dst` as it was.
pub(crate) fn splice_bytes(dst: &mut Vec<u8>, offset: usize, src: &Vec<u8>)
    requires
        offset + src@.len() <= old(dst)@.len(),
    ensures
        final(dst)@.len() == old(dst)@.len(),
        final(dst)@.subrange(offset as int, offset + src@.len()) == src@,
        forall|j: int| 0 <= j < offset ==> final(dst)@[j] == old(dst)@[j],
        forall|j: int|
            offset + src@.len() <= j < final(dst)@.len() ==> final(dst)@[j] == old(dst)@[j],
{
    let n = src.len();
    let total = dst.len();
    let mut i: usize = 0;
    while i < n
        invariant
            i <= n,
            n == src@.len(),
            offset + n <= total <= usize::MAX,
            offset + n <= dst@.len(),
            dst@.len() == old(dst)@.len(),
            forall|j: int| 0 <= j < offset ==> dst@[j] == old(dst)@[j],
            forall|j: int| offset + n <= j < dst@.len() ==> dst@[j] == old(dst)@[j],
            forall|j: int| 0 <= j < i ==> dst@[offset + j] == src@[j],
        decreases n - i,
    {
        let b = src[i];
        dst[offset + i] = b;
        i += 1;
    }
    proof {
        assert(dst@.subrange(offset as int, offset + src@.len()) =~= src@);
    }
}

/// Copies the first `n` bytes of `src` over the first `n` bytes of `dst`,
/// leaving the rest of `dst` as it was.
fn copy_prefix(dst: &mut Vec<u8>, src: &Vec<u8>, n: usize)
    requires
        n <= old(dst)@.len(),
        n <= src@.len(),
    ensures
        final(dst)@.len() == old(dst)@.len(),
        final(dst)@.subrange(0, n as int) == src@.subrange(0, n as int),
        forall|j: int| n <= j < final(dst)@.len() ==> final(dst)@[j] == old(dst)@[j],
{
    let mut i: usize = 0;
    while i < n
        invariant
            i <= n,
            n <= dst@.len(),
            n <= src@.len(),
            dst@.len() == old(dst)@.len(),
            forall|j: int| 0 <= j < i ==> dst@[j] == src@[j],
            forall|j: int| i <= j < dst@.len() ==> dst@[j] == old(dst)@[j],
        decreases n - i,
    {
        let b = src[i];
        dst[i] = b;
        i += 1;
    }
    proof {
        assert(dst@.subrange(0, n as int) =~= src@.subrange(0, n as int));
    }
}

impl Allocator for Global {
    open spec fn can_allocate(&self, layout: Layout) -> bool {
        true
    }

    open spec fn can_grow(&self, old_layout: Layout, new_layout: Layout) -> bool {
        true
    }

    open spec fn can_shrink(&self, old_layout: Layout, new_layout: Layout) -> bool {
        true
    }

    open spec fn grants_exactly(&self) -> bool {
        true
    }

    fn allocate(&self, layout: Layout) -> (r: Result<Vec<u8>, AllocError>) {
        if layout.size() == 0 {
            // A zero-size request takes the trivial path: no region is
            // reserved, and nothing will need a release.
            Ok(Vec::new())
        } else {
            Ok(fresh_bytes(layout.size()))
        }
    }

    fn allocate_zeroed(&self, layout: Layout) -> (r: Result<Vec<u8>, AllocError>) {
        let mut mem = self.allocate(layout)?;
        // the region is fresh, so zeroing it races with nothing
        write_zeroes(&mut mem);
        Ok(mem)
    }

    fn deallocate(&self, mem: Vec<u8>, layout: Layout) {
        // Dropping the region returns it to the host heap; a zero-size
        // region holds nothing to return.
        let _ = mem;
    }

    fn grow(&self, mem: &mut Vec<u8>, old_layout: Layout, new_layout: Layout) -> (r: Result<
        (),
        AllocError,
    >) {
        if old_layout.align() == new_layout.align() {
            // Extend in place, keeping the existing prefix.
            while mem.len() < new_layout.size
                invariant
                    old_layout.wf(),
                    new_layout.wf(),
                    old_layout.align == new_layout.align,
                    mem@.len() <= new_layout.size,
                    mem@.subrange(0, old_layout.size as int) == old(mem)@.subrange(
                        0,
                        old_layout.size as int,
                    ),
                    old_layout.size <= mem@.len(),
                decreases new_layout.size - mem@.len(),
            {
                mem.push(0u8);
                proof {
                    assert(mem@.subrange(0, old_layout.size as int) =~= old(mem)@.subrange(
                        0,
                        old_layout.size as int,
                    ));
                }
            }
            Ok(())
        } else {
            // The alignment changes, which no region can do in place:
            // allocate fresh, copy the old contents over, release the old
            // region.
            let mut fresh = match self.allocate(new_layout) {
                Ok(f) => f,
                Err(e) => {
                    return Err(e);
                },
            };
            copy_prefix(&mut fresh, mem, old_layout.size());
            core::mem::swap(mem, &mut fresh);
            self.deallocate(fresh, old_layout);
            Ok(())
        }
    }

    fn grow_zeroed(&self, mem: &mut Vec<u8>, old_layout: Layout, new_layout: Layout) -> (r: Result<
        (),
        AllocError,
    >) {
        let r = self.grow(mem, old_layout, new_layout);
        if r.is_err() {
            return r;
        }
        // Zero everything past the preserved prefix.
        let mut i: usize = old_layout.size();
        while i < mem.len()
            invariant
                old_layout.size <= i <= mem@.len(),
                granted(new_layout, mem@.len()),
                mem@.len() == new_layout.size,
                mem@.subrange(0, old_layout.size as int) == old(mem)@.subrange(
                    0,
                    old_layout.size as int,
                ),
                forall|j: int| old_layout.size <= j < i ==> mem@[j] == 0,
            decreases mem@.len() - i,
        {
            mem[i] = 0u8;
            proof {
                assert(mem@.subrange(0, old_layout.size as int) =~= old(mem)@.subrange(
                    0,
                    old_layout.size as int,
                ));
            }
            i += 1;
        }
        Ok(())
    }

    fn shrink(&self, mem: &mut Vec<u8>, old_layout: Layout, new_layout: Layout) -> (r: Result<
        (),
        AllocError,
    >) {
        if old_layout.align() == new_layout.align() {
            mem.truncate(new_layout.size());
            proof {
                assert(mem@.subrange(0, new_layout.size as int) =~= old(mem)@.subrange(
                    0,
                    new_layout.size as int,
                ));
            }
            Ok(())
        } else {
            let mut fresh = match self.allocate(new_layout) {
                Ok(f) => f,
                Err(e) => {
                    return Err(e);
                },
            };
            copy_prefix(&mut fresh, mem, new_layout.size());
            core::mem::swap(mem, &mut fresh);
            self.deallocate(fresh, old_layout);
            Ok(())
        }
    }
}

} // verus!
