use kernel::bitmap::Bitmap;

#[test]
fn allocate_hands_out_lowest_bits_in_order() {
    let mut bitmap: Bitmap<2> = Bitmap::new();
    assert_eq!(bitmap.allocate(), Some(0));
    assert_eq!(bitmap.allocate(), Some(1));
    assert_eq!(bitmap.allocate(), Some(2));
}

#[test]
fn find_clear_does_not_set() {
    let mut bitmap: Bitmap<1> = Bitmap::new();
    assert_eq!(bitmap.find_clear(), Some(0));
    assert_eq!(bitmap.find_clear(), Some(0));
    bitmap.set(0);
    assert_eq!(bitmap.find_clear(), Some(1));
}

#[test]
fn unset_bit_is_handed_out_again() {
    let mut bitmap: Bitmap<1> = Bitmap::new();
    for expected in 0..5 {
        assert_eq!(bitmap.allocate(), Some(expected));
    }
    bitmap.unset(2);
    assert_eq!(bitmap.allocate(), Some(2));
    assert_eq!(bitmap.allocate(), Some(5));
}

#[test]
fn set_then_unset_restores() {
    let mut bitmap: Bitmap<1> = Bitmap::new();
    bitmap.set(7);
    assert_eq!(bitmap.find_clear(), Some(0));
    bitmap.unset(7);
    bitmap.set(0);
    bitmap.unset(0);
    assert_eq!(bitmap.find_clear(), Some(0));
}

#[test]
fn bits_in_second_chunk() {
    let mut bitmap: Bitmap<2> = Bitmap::new();
    for bit in 0..128 {
        bitmap.set(bit);
    }
    assert_eq!(bitmap.find_clear(), Some(128));
    bitmap.set(128);
    bitmap.set(200);
    assert_eq!(bitmap.allocate(), Some(129));
    bitmap.unset(5);
    assert_eq!(bitmap.allocate(), Some(5));
}

#[test]
fn full_bitmap_allocates_nothing() {
    let mut bitmap: Bitmap<1> = Bitmap::new();
    for expected in 0..128 {
        assert_eq!(bitmap.allocate(), Some(expected));
    }
    assert_eq!(bitmap.allocate(), None);
    assert_eq!(bitmap.find_clear(), None);
    bitmap.unset(127);
    assert_eq!(bitmap.allocate(), Some(127));
}
