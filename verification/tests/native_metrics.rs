use haproxy_api::{
    NativeMetricsDescriptor, NativeMetricsDescriptorV2, NativeMetricsDescriptorV3,
    NATIVE_METRICS_API_MAGIC, NATIVE_METRICS_API_VERSION, NATIVE_METRICS_API_VERSION_V2,
    NATIVE_METRICS_API_VERSION_V3, NATIVE_METRICS_MAX_EVENTS_V3, NATIVE_METRICS_MAX_LABELS_V2,
};

const NAME: &str = "test";
const V2: &str = "v2";
const V3: &str = "v3";

fn descriptor() -> NativeMetricsDescriptor {
    NativeMetricsDescriptor {
        magic: NATIVE_METRICS_API_MAGIC,
        version: NATIVE_METRICS_API_VERSION,
        reserved: 0,
        size: NativeMetricsDescriptor::abi_size(),
        name: NAME.as_ptr() as usize,
        name_len: 4,
        on_finish: Some(0x10),
    }
}

#[test]
fn accepts_only_complete_metric_descriptors() {
    let mut descriptor = descriptor();
    assert!(descriptor.is_compatible());

    descriptor.version = 0;
    assert!(!descriptor.is_compatible());
    descriptor.version = NATIVE_METRICS_API_VERSION;
    descriptor.size = 1;
    assert!(!descriptor.is_compatible());
    descriptor.size = NativeMetricsDescriptor::abi_size();
    descriptor.on_finish = None;
    assert!(!descriptor.is_compatible());
}

#[test]
fn v2_descriptor_is_separate_and_versioned() {
    let mut descriptor = NativeMetricsDescriptorV2 {
        magic: NATIVE_METRICS_API_MAGIC,
        version: NATIVE_METRICS_API_VERSION_V2,
        reserved: 0,
        size: NativeMetricsDescriptorV2::abi_size(),
        name: V2.as_ptr() as usize,
        name_len: 2,
        on_observation: Some(0x10),
    };
    assert!(descriptor.is_compatible());
    descriptor.version = NATIVE_METRICS_API_VERSION;
    assert!(!descriptor.is_compatible());
    descriptor.version = NATIVE_METRICS_API_VERSION_V2;
    descriptor.reserved = 1;
    assert!(!descriptor.is_compatible());
    descriptor.reserved = 0;
    descriptor.name = 0;
    assert!(!descriptor.is_compatible());
    descriptor.name = V2.as_ptr() as usize;
    descriptor.name_len = 0;
    assert!(!descriptor.is_compatible());
    descriptor.name_len = 2;
    descriptor.on_observation = None;
    assert!(!descriptor.is_compatible());
}

#[test]
fn v3_batch_descriptor_is_versioned() {
    assert_eq!(NATIVE_METRICS_MAX_EVENTS_V3, 13);
    let mut descriptor = NativeMetricsDescriptorV3 {
        magic: NATIVE_METRICS_API_MAGIC,
        version: NATIVE_METRICS_API_VERSION_V3,
        reserved: 0,
        size: NativeMetricsDescriptorV3::abi_size(),
        name: V3.as_ptr() as usize,
        name_len: 2,
        on_batch: Some(0x10),
    };
    assert!(descriptor.is_compatible());
    descriptor.version = NATIVE_METRICS_API_VERSION_V2;
    assert!(!descriptor.is_compatible());
}

#[test]
fn metric_descriptor_sizes_match_the_c_layout() {
    let expected = if usize::BITS == 64 { 40 } else { 24 };
    assert_eq!(NativeMetricsDescriptor::abi_size(), expected);
    assert_eq!(NativeMetricsDescriptorV2::abi_size(), expected);
    assert_eq!(NativeMetricsDescriptorV3::abi_size(), expected);
    assert_eq!(NATIVE_METRICS_MAX_LABELS_V2, 4);
}
