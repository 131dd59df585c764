use vstd::arithmetic::power2::is_pow2;
use vstd::layout::valid_layout;
use vstd::prelude::*;

verus! {

/// A (size, alignment) pair describing a memory region's shape requirements.
///
/// A well-formed layout has a power-of-two alignment and a size small enough
/// that rounding it up to the alignment cannot overflow `isize`.
#[derive(Clone, Copy, Debug, PartialEq, Eq, Structural)]
pub struct Layout {
    /// The number of bytes the region must hold.
    pub size: usize,
    /// The minimum alignment of the region, always a power of two.
    pub align: usize,
}

impl Layout {
    /// The conditions every layout handed to an allocator must meet.
    pub open spec fn wf(self) -> bool {
        valid_layout(self.size, self.align)
    }

    /// The layout a value of type `T` requires.
    pub open spec fn spec_of<T>() -> Layout {
        Layout {
            size: vstd::layout::size_of::<T>() as usize,
            align: vstd::layout::align_of::<T>() as usize,
        }
    }

    /// The layout a value of type `T` requires.
    pub fn of<T>() -> (r: Layout)
        ensures
            r == Self::spec_of::<T>(),
            r.wf(),
            vstd::layout::size_of::<T>() <= usize::MAX,
            vstd::layout::align_of::<T>() <= usize::MAX,
    {
        vstd::layout::layout_for_type_is_valid::<T>();
        Layout { size: core::mem::size_of::<T>(), align: core::mem::align_of::<T>() }
    }

    /// Builds a layout after checking that `align` is a power of two and
    /// `size` does not overflow when rounded up to `align`; returns `None`
    /// exactly when one of the checks fails.
    pub fn from_size_align(size: usize, align: usize) -> (r: Option<Layout>)
        ensures
            r is Some <==> valid_layout(size, align),
            r matches Some(l) ==> l == (Layout { size, align }),
    {
        if !align_is_pow2(align) {
            return None;
        }
        let max: usize = isize::MAX as usize;
        proof {
            reveal(is_pow2);
            if align <= max {
                vstd::arithmetic::div_mod::lemma_mod_bound(max as int, align as int);
            } else {
                vstd::arithmetic::div_mod::lemma_small_mod(max as nat, align as nat);
            }
        }
        if size <= max - max % align {
            Some(Layout { size, align })
        } else {
            None
        }
    }

    /// The size of the region in bytes.
    pub fn size(&self) -> (r: usize)
        ensures
            r == self.size,
    {
        self.size
    }

    /// The alignment of the region.
    pub fn align(&self) -> (r: usize)
        ensures
            r == self.align,
    {
        self.align
    }
}

/// Decides whether `n` is a power of two, by the same recursion that defines
/// `is_pow2`.
fn align_is_pow2(n: usize) -> (b: bool)
    ensures
        b == is_pow2(n as int),
    decreases n,
{
    proof {
        reveal(is_pow2);
    }
    if n == 0 {
        false
    } else if n == 1 {
        true
    } else if n % 2 != 0 {
        false
    } else {
        align_is_pow2(n / 2)
    }
}

} // verus!
