use haproxy_api::{
    native_module_descriptor_symbol, NativeModuleDescriptor, NATIVE_MODULE_API_MAGIC,
    NATIVE_MODULE_API_VERSION,
};

const NAME: &str = "test";

fn descriptor() -> NativeModuleDescriptor {
    NativeModuleDescriptor {
        magic: NATIVE_MODULE_API_MAGIC,
        version: NATIVE_MODULE_API_VERSION,
        reserved: 0,
        size: NativeModuleDescriptor::abi_size(),
        name: NAME.as_ptr() as usize,
        name_len: 4,
        init: Some(0x10),
        close: Some(0x20),
    }
}

#[test]
fn native_module_accepts_only_complete_current_descriptors() {
    let mut descriptor = descriptor();
    assert!(descriptor.is_compatible());

    descriptor.magic = 0;
    assert!(!descriptor.is_compatible());
    descriptor.magic = NATIVE_MODULE_API_MAGIC;
    descriptor.size = 1;
    assert!(!descriptor.is_compatible());
    descriptor.size = NativeModuleDescriptor::abi_size();
    descriptor.reserved = 1;
    assert!(!descriptor.is_compatible());
    descriptor.reserved = 0;
    descriptor.name_len = 0;
    assert!(!descriptor.is_compatible());
    descriptor.name_len = 4;
    descriptor.init = None;
    assert!(!descriptor.is_compatible());
}

#[test]
fn exports_the_stable_loader_symbol_name() {
    assert_eq!(
        native_module_descriptor_symbol(),
        b"ha_native_module_get_descriptor\0"
    );
}

#[test]
fn module_descriptor_size_matches_the_c_layout() {
    let expected = if usize::BITS == 64 { 48 } else { 28 };
    assert_eq!(NativeModuleDescriptor::abi_size(), expected);
}

#[test]
fn module_descriptor_rejects_null_name_and_missing_close() {
    let mut descriptor = descriptor();
    descriptor.name = 0;
    assert!(!descriptor.is_compatible());
    descriptor = self::descriptor();
    descriptor.close = None;
    assert!(!descriptor.is_compatible());
    descriptor = self::descriptor();
    descriptor.version = NATIVE_MODULE_API_VERSION + 1;
    assert!(!descriptor.is_compatible());
    descriptor = self::descriptor();
    descriptor.size = NativeModuleDescriptor::abi_size() + 8;
    assert!(descriptor.is_compatible());
}
