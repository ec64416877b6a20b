use skip_stone::accelerator::{accelerator_name, new_accelerator_tag, ACCEL_ID_RANGE};

#[test]
fn name_of_zero() {
    assert_eq!(accelerator_name(0), "Accel_0");
}

#[test]
fn name_of_multi_digit_ids() {
    assert_eq!(accelerator_name(7), "Accel_7");
    assert_eq!(accelerator_name(10), "Accel_10");
    assert_eq!(accelerator_name(407), "Accel_407");
    assert_eq!(accelerator_name(99999), "Accel_99999");
    assert_eq!(accelerator_name(u64::MAX), format!("Accel_{}", u64::MAX));
}

#[test]
fn tags_are_in_range_and_named_after_their_id() {
    let mut seen_nonzero = false;
    for _ in 0..200 {
        let tag = new_accelerator_tag();
        assert!(0 <= tag.id && tag.id < ACCEL_ID_RANGE);
        assert_eq!(tag.name, format!("Accel_{}", tag.id));
        if tag.id != 0 {
            seen_nonzero = true;
        }
    }
    assert!(seen_nonzero);
}
