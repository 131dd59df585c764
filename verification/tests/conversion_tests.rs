use untyped_box::{
    Allocation, BoxConversionError, Layout, UninitBox, UninitVec, VecConversionError,
};

#[test]
fn convert_box() {
    let alloc = Allocation::new(Layout::of::<i32>());
    let _boxed = alloc.try_into_box::<i32>().unwrap();

    let boxed = UninitBox::new(42);
    let _alloc = Allocation::from(boxed);
}

#[test]
fn convert_vec() {
    let empty_alloc = Allocation::new(Layout::from_size_align(0, 4).unwrap());
    let vec = empty_alloc.try_into_vec::<i32>().unwrap();
    assert_eq!(vec.capacity(), 0);

    let filled_alloc = Allocation::new(Layout::from_size_align(128, 4).unwrap());
    let vec = filled_alloc.try_into_vec::<i32>().unwrap();
    assert_eq!(vec.capacity(), 32);
}

#[test]
fn box_round_trip_reproduces_the_value() {
    let boxed = UninitBox::new(42i32);
    let alloc: Allocation = Allocation::from(boxed);
    assert_eq!(alloc.layout(), Layout::of::<i32>());
    let boxed = alloc.try_into_box::<i32>().unwrap();
    assert_eq!(boxed.value(), 42);
}

#[test]
fn vec_round_trip_reproduces_the_elements() {
    let mut values = UninitVec::<i32>::with_capacity(2);
    values.push(-41);
    values.push(42);
    assert_eq!(values.len(), 2);

    let alloc: Allocation = Allocation::from(values);
    assert_eq!(alloc.layout(), Layout::from_size_align(8, 4).unwrap());

    let mut values = alloc.try_into_vec::<i32>().unwrap();
    // The handoff truncated the logical length; the bytes survived.
    assert_eq!(values.len(), 0);
    assert_eq!(values.capacity(), 2);
    values.set_len(2);
    assert_eq!(values.get(0), -41);
    assert_eq!(values.get(1), 42);
}

#[test]
fn box_conversion_rejects_wrong_size() {
    let alloc = Allocation::new(Layout::from_size_align(8, 4).unwrap());
    let err = match alloc.try_into_box::<i32>() {
        Ok(_) => panic!("the conversion should fail"),
        Err(e) => e,
    };
    match err {
        BoxConversionError::LayoutMismatch { expected, allocated } => {
            assert_eq!(expected, Layout::of::<i32>());
            assert_eq!(allocated, Layout::from_size_align(8, 4).unwrap());
        }
        _ => panic!("expected a layout mismatch"),
    }
}

#[test]
fn box_conversion_rejects_wrong_alignment() {
    let alloc = Allocation::new(Layout::from_size_align(4, 8).unwrap());
    let err = match alloc.try_into_box::<i32>() {
        Ok(_) => panic!("the conversion should fail"),
        Err(e) => e,
    };
    match err {
        BoxConversionError::LayoutMismatch { expected, allocated } => {
            assert_eq!(expected, Layout::of::<i32>());
            assert_eq!(allocated, Layout::from_size_align(4, 8).unwrap());
        }
        _ => panic!("expected a layout mismatch"),
    }
}

#[test]
fn vec_conversion_rejects_wrong_alignment() {
    let alloc = Allocation::new(Layout::from_size_align(8, 8).unwrap());
    let err = match alloc.try_into_vec::<i32>() {
        Ok(_) => panic!("the conversion should fail"),
        Err(e) => e,
    };
    match err {
        VecConversionError::AlignMismatch { expected, allocated } => {
            assert_eq!(expected, 4);
            assert_eq!(allocated, 8);
        }
        _ => panic!("expected an alignment mismatch"),
    }
}

#[test]
fn vec_conversion_rejects_slack_capacity() {
    let alloc = Allocation::new(Layout::from_size_align(6, 4).unwrap());
    let err = match alloc.try_into_vec::<i32>() {
        Ok(_) => panic!("the conversion should fail"),
        Err(e) => e,
    };
    match err {
        VecConversionError::SlackCapacity { element_size, allocated } => {
            assert_eq!(element_size, 4);
            assert_eq!(allocated, 6);
        }
        _ => panic!("expected slack capacity"),
    }
}

#[test]
fn vec_conversion_rejects_zero_sized_elements() {
    let empty = Allocation::new(Layout::from_size_align(0, 1).unwrap());
    assert!(matches!(
        empty.try_into_vec::<()>(),
        Err(VecConversionError::ZeroSizedElements)
    ));

    let nonempty = Allocation::new(Layout::from_size_align(4, 1).unwrap());
    assert!(matches!(
        nonempty.try_into_vec::<()>(),
        Err(VecConversionError::ZeroSizedElements)
    ));
}

#[test]
fn zeroed_allocation_boxes_to_zero() {
    let alloc = Allocation::zeroed(Layout::of::<u32>());
    let boxed = alloc.try_into_box::<u32>().unwrap();
    assert_eq!(boxed.value(), 0);
}

#[test]
fn boxed_values_read_back_bit_for_bit() {
    assert_eq!(UninitBox::new(0xdead_beefu32).value(), 0xdead_beef);
    assert_eq!(UninitBox::new(-5i32).value(), -5);
    assert_eq!(UninitBox::new(7u8).value(), 7);
}

#[test]
fn with_capacity_starts_empty() {
    let values = UninitVec::<u32>::with_capacity(3);
    assert_eq!(values.capacity(), 3);
    assert_eq!(values.len(), 0);

    let none = UninitVec::<u32>::with_capacity(0);
    assert_eq!(none.capacity(), 0);
}

#[test]
fn set_len_exposes_slots() {
    let mut values = UninitVec::<u8>::with_capacity(4);
    values.push(9);
    values.push(8);
    values.set_len(1);
    assert_eq!(values.len(), 1);
    assert_eq!(values.get(0), 9);
    values.set_len(2);
    // The second slot's bytes were never touched by set_len.
    assert_eq!(values.get(1), 8);
}
