use haproxy_api::fuzz::{
    callback, exercise_descriptors, fuzzed_descriptors, size, u16_value, u32_value, word,
};

#[test]
fn word_reads_little_endian_and_pads_with_zero() {
    let data = [0x78, 0x56, 0x34, 0x12, 0xff];
    assert_eq!(word(&data, 0), 0x1234_5678);
    assert_eq!(word(&data, 3), 0x0000_ff12);
    assert_eq!(word(&data, 5), 0);
    assert_eq!(word(&data, usize::MAX), 0);
}

#[test]
fn fields_keep_their_valid_value_unless_flagged() {
    let data = [0, 1, 0xaa, 0xbb, 0xcc, 0xdd];
    assert_eq!(size(&data, 0, 48), 48);
    assert_eq!(size(&data, 1, 48), 0xddcc_bbaa);
    assert_eq!(u32_value(&data, 1, 7), 0xddcc_bbaa);
    assert_eq!(u16_value(&data, 1, 7), 0xaa);
    assert_eq!(u16_value(&data, 9, 7), 7);
    assert_eq!(callback(&data, 1, "cb"), Some("cb"));
    assert_eq!(callback(&data, 0, "cb"), None);
    assert_eq!(callback(&data, 40, "cb"), None);
}

#[test]
fn default_input_decodes_valid_descriptors_without_names() {
    let data = [0u8; 70];
    let descriptors = fuzzed_descriptors(&data);
    assert_eq!(descriptors.module.name, 0);
    assert!(!descriptors.module.is_compatible());
    assert!(!descriptors.filter.is_compatible());
    exercise_descriptors(&data);
    exercise_descriptors(&[]);
}

#[test]
fn flagged_input_decodes_compatible_descriptors() {
    let mut data = [0u8; 70];
    data[0] = 1;
    for offset in [19, 20, 21, 22, 33, 34, 55, 67] {
        data[offset] = 1;
    }
    let descriptors = fuzzed_descriptors(&data);
    assert!(descriptors.filter.is_compatible());
    assert!(descriptors.module.is_compatible());
    assert!(!descriptors.metrics.is_compatible());
    assert!(descriptors.metrics_v2.is_compatible());
    assert!(descriptors.metrics_v3.is_compatible());
}

#[test]
fn fields_at_the_last_offset_keep_their_valid_value() {
    let data = [1, 2, 3];
    assert_eq!(size(&data, usize::MAX, 48), 48);
    assert_eq!(u32_value(&data, usize::MAX, 9), 9);
    assert_eq!(u16_value(&data, usize::MAX, 5), 5);
    assert_eq!(size(&data, 3, 48), 48);
    assert_eq!(size(&data, 2, 48), 0);
}
