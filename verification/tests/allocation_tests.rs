use untyped_box::{AllocError, Allocation, Allocator, Layout};

/// An allocator that grants fresh requests but refuses every grow or shrink.
struct OneShotAlloc;

impl Allocator for OneShotAlloc {
    fn can_allocate(&self, _layout: Layout) -> bool {
        true
    }

    fn grants_exactly(&self) -> bool {
        true
    }

    fn can_grow(&self, _old_layout: Layout, _new_layout: Layout) -> bool {
        false
    }

    fn can_shrink(&self, _old_layout: Layout, _new_layout: Layout) -> bool {
        false
    }

    fn allocate(&self, layout: Layout) -> Result<Vec<u8>, AllocError> {
        Ok(vec![0u8; layout.size()])
    }

    fn allocate_zeroed(&self, layout: Layout) -> Result<Vec<u8>, AllocError> {
        Ok(vec![0u8; layout.size()])
    }

    fn deallocate(&self, _mem: Vec<u8>, _layout: Layout) {}

    fn grow(
        &self,
        _mem: &mut Vec<u8>,
        _old_layout: Layout,
        _new_layout: Layout,
    ) -> Result<(), AllocError> {
        Err(AllocError)
    }

    fn grow_zeroed(
        &self,
        _mem: &mut Vec<u8>,
        _old_layout: Layout,
        _new_layout: Layout,
    ) -> Result<(), AllocError> {
        Err(AllocError)
    }

    fn shrink(
        &self,
        _mem: &mut Vec<u8>,
        _old_layout: Layout,
        _new_layout: Layout,
    ) -> Result<(), AllocError> {
        Err(AllocError)
    }
}

/// An allocator that refuses everything.
struct FailAlloc;

impl Allocator for FailAlloc {
    fn can_allocate(&self, _layout: Layout) -> bool {
        false
    }

    fn grants_exactly(&self) -> bool {
        true
    }

    fn can_grow(&self, _old_layout: Layout, _new_layout: Layout) -> bool {
        false
    }

    fn can_shrink(&self, _old_layout: Layout, _new_layout: Layout) -> bool {
        false
    }

    fn allocate(&self, _layout: Layout) -> Result<Vec<u8>, AllocError> {
        Err(AllocError)
    }

    fn allocate_zeroed(&self, _layout: Layout) -> Result<Vec<u8>, AllocError> {
        Err(AllocError)
    }

    fn deallocate(&self, _mem: Vec<u8>, _layout: Layout) {}

    fn grow(
        &self,
        _mem: &mut Vec<u8>,
        _old_layout: Layout,
        _new_layout: Layout,
    ) -> Result<(), AllocError> {
        Err(AllocError)
    }

    fn grow_zeroed(
        &self,
        _mem: &mut Vec<u8>,
        _old_layout: Layout,
        _new_layout: Layout,
    ) -> Result<(), AllocError> {
        Err(AllocError)
    }

    fn shrink(
        &self,
        _mem: &mut Vec<u8>,
        _old_layout: Layout,
        _new_layout: Layout,
    ) -> Result<(), AllocError> {
        Err(AllocError)
    }
}

#[test]
fn test_alloc() {
    let _ = Allocation::new(Layout::from_size_align(0, 1).unwrap());
    let _ = Allocation::new(Layout::from_size_align(1, 1).unwrap());
    let _ = Allocation::new(Layout::from_size_align(4, 4).unwrap());
    let _ = Allocation::new(Layout::from_size_align(1_048_576, 32).unwrap());
    let _ = Allocation::new(Layout::from_size_align(1_048_576, 65536).unwrap());
}

#[test]
fn test_realloc() {
    let mut alloc = Allocation::new(Layout::from_size_align(4, 4).unwrap());
    alloc.realloc(Layout::from_size_align(32, 4).unwrap());
    alloc.realloc(Layout::from_size_align(32, 65536).unwrap());
}

#[test]
fn test_data() {
    let mut alloc = Allocation::new(Layout::of::<i32>());
    alloc.write_at::<u32>(0, 0xdead);
    assert_eq!(alloc.read_at::<u32>(0), 0xdead);
    alloc.write_at::<u32>(0, 1000);
    assert_eq!(alloc.read_at::<u32>(0), 1000);
}

#[test]
fn zeroed() {
    let alloc = Allocation::zeroed(Layout::of::<i32>());
    assert_eq!(alloc.read_at::<i32>(0), 0);

    let mut alloc = Allocation::new(Layout::from_size_align(4, 4).unwrap());
    alloc.write_at::<i32>(0, 42);
    alloc.realloc_zeroed(Layout::from_size_align(8, 4).unwrap());
    assert_eq!(alloc.read_at::<i32>(0), 42);
    assert_eq!(alloc.read_at::<i32>(4), 0);
    alloc.realloc_zeroed(Layout::from_size_align(4, 4).unwrap());
    assert_eq!(alloc.read_at::<i32>(0), 42);
    alloc.realloc_zeroed(Layout::from_size_align(8, 4).unwrap());
    assert_eq!(alloc.read_at::<i32>(0), 42);
    assert_eq!(alloc.read_at::<i32>(4), 0);
}

#[test]
fn new_reports_requested_shape() {
    for (size, align) in [(0usize, 1usize), (1, 1), (3, 2), (17, 8), (4096, 4096)] {
        let requested = Layout::from_size_align(size, align).unwrap();
        let alloc = Allocation::new(requested);
        assert!(alloc.layout().size() >= size);
        assert!(alloc.layout().align() >= align);
        // The default backend grants exactly what was asked.
        assert_eq!(alloc.layout(), requested);
    }
}

#[test]
fn zero_size_allocation_owns_nothing() {
    let alloc = Allocation::new(Layout::from_size_align(0, 64).unwrap());
    assert_eq!(alloc.layout().size(), 0);
    assert_eq!(alloc.layout().align(), 64);
    assert!(alloc.as_slice().is_empty());

    let zeroed = Allocation::zeroed(Layout::from_size_align(0, 1).unwrap());
    assert_eq!(zeroed.layout().size(), 0);
}

#[test]
fn realloc_same_layout_is_noop() {
    let layout = Layout::from_size_align(4, 4).unwrap();
    let mut alloc = Allocation::new(layout);
    alloc.write_at::<u32>(0, 7);
    assert!(alloc.try_realloc(layout).is_ok());
    assert_eq!(alloc.layout(), layout);
    assert_eq!(alloc.read_at::<u32>(0), 7);
}

#[test]
fn grow_preserves_prefix_and_zeroes_rest() {
    let mut alloc = Allocation::new(Layout::from_size_align(4, 4).unwrap());
    alloc.write_at::<u32>(0, 42);
    alloc.realloc(Layout::from_size_align(12, 4).unwrap());
    assert_eq!(alloc.read_at::<u32>(0), 42);
    alloc.realloc_zeroed(Layout::from_size_align(16, 4).unwrap());
    assert_eq!(alloc.read_at::<u32>(0), 42);
    assert_eq!(alloc.read_at::<u32>(12), 0);
}

#[test]
fn shrink_then_grow_keeps_shrunk_prefix() {
    let mut alloc = Allocation::new(Layout::from_size_align(4, 1).unwrap());
    alloc.write_at::<u8>(0, 1);
    alloc.write_at::<u8>(1, 2);
    alloc.write_at::<u8>(2, 3);
    alloc.write_at::<u8>(3, 4);
    alloc.realloc(Layout::from_size_align(2, 1).unwrap());
    alloc.realloc(Layout::from_size_align(4, 1).unwrap());
    assert_eq!(alloc.read_at::<u8>(0), 1);
    assert_eq!(alloc.read_at::<u8>(1), 2);
}

#[test]
fn realloc_chain_keeps_first_bytes() {
    let mut alloc = Allocation::new(Layout::from_size_align(4, 4).unwrap());
    alloc.write_at::<u32>(0, 42);
    alloc.realloc(Layout::from_size_align(32, 4).unwrap());
    assert!(alloc.layout().size() >= 32);
    assert_eq!(alloc.read_at::<u32>(0), 42);
    alloc.realloc(Layout::from_size_align(32, 65536).unwrap());
    assert!(alloc.layout().align() >= 65536);
    assert_eq!(alloc.read_at::<u32>(0), 42);
}

#[test]
fn from_size_align_rejects_bad_shapes() {
    assert!(Layout::from_size_align(4, 0).is_none());
    assert!(Layout::from_size_align(4, 3).is_none());
    assert!(Layout::from_size_align(4, 6).is_none());
    assert!(Layout::from_size_align(usize::MAX, 2).is_none());
    let ok = Layout::from_size_align(12, 4).unwrap();
    assert_eq!(ok.size(), 12);
    assert_eq!(ok.align(), 4);
}

#[test]
fn layout_of_matches_the_type() {
    assert_eq!(Layout::of::<i32>(), Layout::from_size_align(4, 4).unwrap());
    assert_eq!(Layout::of::<u8>(), Layout::from_size_align(1, 1).unwrap());
}

#[test]
fn parts_round_trip() {
    let mut alloc = Allocation::new(Layout::from_size_align(8, 4).unwrap());
    alloc.write_at::<u32>(0, 0xabcd);
    let (mem, layout) = alloc.into_parts();
    assert_eq!(mem.len(), layout.size());
    let rebuilt = Allocation::from_parts(mem, layout);
    assert_eq!(rebuilt.read_at::<u32>(0), 0xabcd);

    let mut alloc = Allocation::new_in(Layout::from_size_align(4, 4).unwrap(), OneShotAlloc);
    alloc.write_at::<u32>(0, 5);
    let (mem, layout, backend) = alloc.into_parts_with_alloc();
    let rebuilt = Allocation::from_parts_in(mem, layout, backend);
    assert_eq!(rebuilt.read_at::<u32>(0), 5);
}

#[test]
fn failing_allocator_reports_alloc_error() {
    let layout = Layout::from_size_align(4, 4).unwrap();
    assert!(matches!(Allocation::try_new_in(layout, FailAlloc), Err(AllocError)));
    assert!(matches!(Allocation::try_zeroed_in(layout, FailAlloc), Err(AllocError)));
}

#[test]
fn failed_realloc_leaves_the_handle_unchanged() {
    let layout = Layout::from_size_align(4, 4).unwrap();
    let mut alloc = Allocation::try_new_in(layout, OneShotAlloc).unwrap();
    alloc.write_at::<u32>(0, 99);

    assert_eq!(alloc.try_realloc(Layout::from_size_align(8, 4).unwrap()), Err(AllocError));
    assert_eq!(alloc.layout(), layout);
    assert_eq!(alloc.read_at::<u32>(0), 99);

    assert_eq!(alloc.try_realloc_zeroed(Layout::from_size_align(2, 4).unwrap()), Err(AllocError));
    assert_eq!(alloc.layout(), layout);
    assert_eq!(alloc.read_at::<u32>(0), 99);

    // The same layout asks nothing of the backend, so it still succeeds.
    assert_eq!(alloc.try_realloc(layout), Ok(()));
    assert_eq!(alloc.read_at::<u32>(0), 99);
}

#[test]
fn zeroed_allocation_is_all_zero() {
    let alloc = Allocation::zeroed(Layout::from_size_align(16, 4).unwrap());
    for &b in alloc.as_slice() {
        assert_eq!(b, 0);
    }
}
