use vstd::prelude::*;

use crate::layout::{c_descriptor_size, descriptor_size};

verus! {

/// Magic number that opens every native module descriptor.
pub const NATIVE_MODULE_API_MAGIC: u32 = 0x484d_5331;

/// Version of the native module descriptor layout.
pub const NATIVE_MODULE_API_VERSION: u16 = 1;

/// Status an init callback returns on success.
pub const NATIVE_MODULE_STATUS_OK: i32 = 0;

/// Status an init callback returns on failure.
pub const NATIVE_MODULE_STATUS_ERROR: i32 = -1;

/// A native module descriptor as the loader reads it.
///
/// Pointer-valued fields are held as addresses: `name` is the address of the
/// module name (0 stands for a null pointer) and each callback is the address
/// of its code, `None` when the callback is absent.
#[derive(Clone, Copy, Debug)]
pub struct NativeModuleDescriptor {
    pub magic: u32,
    pub version: u16,
    pub reserved: u16,
    pub size: u32,
    pub name: usize,
    pub name_len: usize,
    pub init: Option<usize>,
    pub close: Option<usize>,
}

impl NativeModuleDescriptor {
    /// Size of the `#[repr(C)]` descriptor: the header, then the name pointer,
    /// the name length and two callback pointers.
    pub open spec fn c_size() -> int {
        c_descriptor_size(4, 0)
    }

    /// Byte size of the C layout of this descriptor on the target.
    pub fn abi_size() -> (r: u32)
        ensures
            r == Self::c_size(),
    {
        descriptor_size(4, 0)
    }

    /// The descriptor is of the current API version and complete.
    pub open spec fn compatible(&self) -> bool {
        &&& self.magic == NATIVE_MODULE_API_MAGIC
        &&& self.version == NATIVE_MODULE_API_VERSION
        &&& self.reserved == 0
        &&& self.size >= Self::c_size()
        &&& self.name != 0
        &&& self.name_len != 0
        &&& self.init is Some
        &&& self.close is Some
    }

    /// Checks that the descriptor is of the current API version and complete.
    pub fn is_compatible(&self) -> (r: bool)
        ensures
            r == self.compatible(),
            r ==> self.init is Some && self.close is Some,
            r ==> self.magic == NATIVE_MODULE_API_MAGIC && self.version == NATIVE_MODULE_API_VERSION
                && self.reserved == 0 && self.size >= Self::c_size() && self.name != 0
                && self.name_len != 0,
            self.magic == NATIVE_MODULE_API_MAGIC && self.version == NATIVE_MODULE_API_VERSION
                && self.reserved == 0 && self.size >= Self::c_size() && self.name != 0
                && self.name_len != 0 && self.init is Some
                && self.close is Some ==> r,
    {
        self.magic == NATIVE_MODULE_API_MAGIC && self.version == NATIVE_MODULE_API_VERSION
            && self.reserved == 0 && self.size >= Self::abi_size() && self.name != 0
            && self.name_len != 0 && self.init.is_some() && self.close.is_some()
    }
}

/// `ha_native_module_get_descriptor`, NUL-terminated.
const NATIVE_MODULE_DESCRIPTOR_SYMBOL: [u8; 32] = [104, 97, 95, 110, 97, 116, 105, 118, 101, 95, 109, 111, 100, 117, 108, 101, 95, 103, 101, 116, 95, 100, 101, 115, 99, 114, 105, 112, 116, 111, 114, 0];

/// The symbol the loader resolves to find a module's descriptor getter.
pub fn native_module_descriptor_symbol() -> (r: &'static [u8])
    ensures
        r@ == seq![104u8, 97, 95, 110, 97, 116, 105, 118, 101, 95, 109, 111, 100, 117, 108, 101, 95, 103, 101, 116, 95, 100, 101, 115, 99, 114, 105, 112, 116, 111, 114, 0],
{
    &NATIVE_MODULE_DESCRIPTOR_SYMBOL
}

/// A module descriptor without its `init` or `close` callback, naming no
/// module, or of another magic, version or a smaller size is never
/// compatible.
pub proof fn incomplete_module_descriptor_is_refused(descriptor: NativeModuleDescriptor)
    requires
        descriptor.init is None || descriptor.close is None || descriptor.name == 0
            || descriptor.name_len == 0 || descriptor.magic != NATIVE_MODULE_API_MAGIC
            || descriptor.version != NATIVE_MODULE_API_VERSION || descriptor.reserved != 0
            || descriptor.size < NativeModuleDescriptor::c_size(),
    ensures
        !descriptor.compatible(),
{
}

} // verus!
