use vstd::prelude::*;

use crate::native_filter::{
    NativeFilterDescriptor, NATIVE_FILTER_API_MAGIC, NATIVE_FILTER_API_VERSION,
};
use crate::native_metrics::{
    NativeMetricsDescriptor, NativeMetricsDescriptorV2, NativeMetricsDescriptorV3,
    NATIVE_METRICS_API_MAGIC, NATIVE_METRICS_API_VERSION, NATIVE_METRICS_API_VERSION_V2,
    NATIVE_METRICS_API_VERSION_V3,
};
use crate::native_module::{NativeModuleDescriptor, NATIVE_MODULE_API_MAGIC, NATIVE_MODULE_API_VERSION};

verus! {

/// Length of the name the harness hands to descriptors with a valid name.
pub const FUZZ_NAME_LEN: usize = 4;

/// Non-null address standing for the harness's static name bytes.
pub const FUZZ_NAME_ADDRESS: usize = 0x1000;

/// Non-null address standing for the harness's no-op callbacks.
pub const FUZZ_CALLBACK_ADDRESS: usize = 0x2000;

/// The byte at `index`, or 0 past the end of `data`.
pub open spec fn byte_or_zero(data: Seq<u8>, index: int) -> u8 {
    if 0 <= index < data.len() {
        data[index]
    } else {
        0
    }
}

/// The little-endian 32-bit word starting at `offset`, missing bytes read as 0.
pub open spec fn word_at(data: Seq<u8>, offset: int) -> u32 {
    (byte_or_zero(data, offset) as int + byte_or_zero(data, offset + 1) as int * 0x100
        + byte_or_zero(data, offset + 2) as int * 0x1_0000 + byte_or_zero(data, offset + 3) as int
        * 0x100_0000) as u32
}

/// The low bit of the byte at `offset` (0 past the end) is set.
pub open spec fn flag_at(data: Seq<u8>, offset: int) -> bool {
    byte_or_zero(data, offset) % 2 == 1
}

/// The byte of `data` at `offset + i`, or 0 past the end.
fn byte_after(data: &[u8], offset: usize, i: usize) -> (r: u8)
    ensures
        r == byte_or_zero(data@, offset + i),
{
    if offset < data.len() && i < data.len() - offset {
        data[offset + i]
    } else {
        0
    }
}

/// Whether the low bit of the byte at `offset` is set; false past the end.
fn flag(data: &[u8], offset: usize) -> (r: bool)
    ensures
        r == flag_at(data@, offset as int),
{
    let b = byte_after(data, offset, 0);
    assert((b & 1 == 1) == (b % 2 == 1)) by (bit_vector);
    assert(b & 1 == 0 || b & 1 == 1) by (bit_vector);
    b & 1 == 1
}

/// Reads a little-endian `u32` at `offset`, filling missing bytes with 0.
pub fn word(data: &[u8], offset: usize) -> (r: u32)
    ensures
        r == word_at(data@, offset as int),
{
    let b0 = byte_after(data, offset, 0) as u32;
    let b1 = byte_after(data, offset, 1) as u32;
    let b2 = byte_after(data, offset, 2) as u32;
    let b3 = byte_after(data, offset, 3) as u32;
    b0 + b1 * 0x100 + b2 * 0x1_0000 + b3 * 0x100_0000
}

/// A descriptor size: `valid` unless the byte at `offset` has its low bit
/// set, then the word after it.
pub fn size(data: &[u8], offset: usize, valid: u32) -> (r: u32)
    ensures
        r == field32(data@, offset as int, valid),
        r == (if offset < data@.len() && data@[offset as int] % 2 == 1 {
            word_at(data@, offset + 1)
        } else {
            valid
        }),
{
    if !flag(data, offset) {
        valid
    } else {
        let len = data.len();
        assert(offset < len);
        word(data, offset + 1)
    }
}

/// A 16-bit field: `valid` unless the byte at `offset` has its low bit set,
/// then the byte after it.
pub fn u16_value(data: &[u8], offset: usize, valid: u16) -> (r: u16)
    ensures
        r == field16(data@, offset as int, valid),
{
    if !flag(data, offset) {
        valid
    } else {
        byte_after(data, offset, 1) as u16
    }
}

/// A 32-bit field: `valid` unless the byte at `offset` has its low bit set,
/// then the word after it.
pub fn u32_value(data: &[u8], offset: usize, valid: u32) -> (r: u32)
    ensures
        r == field32(data@, offset as int, valid),
        r == (if offset < data@.len() && data@[offset as int] % 2 == 1 {
            word_at(data@, offset + 1)
        } else {
            valid
        }),
{
    if !flag(data, offset) {
        valid
    } else {
        let len = data.len();
        assert(offset < len);
        word(data, offset + 1)
    }
}

/// A callback slot: `value` when the byte at `offset` has its low bit set,
/// else empty.
pub fn callback<T>(data: &[u8], offset: usize, value: T) -> (r: Option<T>)
    ensures
        r == (if flag_at(data@, offset as int) {
            Some(value)
        } else {
            None
        }),
{
    if flag(data, offset) {
        Some(value)
    } else {
        None
    }
}

/// A 32-bit field: `valid`, or the word after `offset` when its flag is set.
pub open spec fn field32(data: Seq<u8>, offset: int, valid: u32) -> u32 {
    if flag_at(data, offset) {
        word_at(data, offset + 1)
    } else {
        valid
    }
}

/// A 16-bit field: `valid`, or the byte after `offset` when its flag is set.
pub open spec fn field16(data: Seq<u8>, offset: int, valid: u16) -> u16 {
    if flag_at(data, offset) {
        byte_or_zero(data, offset + 1) as u16
    } else {
        valid
    }
}

/// A callback slot: present exactly when the flag at `offset` is set.
pub open spec fn callback_slot(data: Seq<u8>, offset: int) -> Option<usize> {
    if flag_at(data, offset) {
        Some(FUZZ_CALLBACK_ADDRESS)
    } else {
        None
    }
}

/// Descriptors of every kind decoded from fuzzer input.
pub struct FuzzedDescriptors {
    pub filter: NativeFilterDescriptor,
    pub module: NativeModuleDescriptor,
    pub metrics: NativeMetricsDescriptor,
    pub metrics_v2: NativeMetricsDescriptorV2,
    pub metrics_v3: NativeMetricsDescriptorV3,
}

/// The name address and length the harness uses: a valid name when the
/// first byte's low bit is set, else a null name with a length read from
/// offset 5.
pub open spec fn fuzzed_name(data: Seq<u8>) -> (usize, usize) {
    if flag_at(data, 0) {
        (FUZZ_NAME_ADDRESS, FUZZ_NAME_LEN)
    } else {
        (0usize, word_at(data, 5) as usize)
    }
}

/// Decodes one descriptor of each kind from fuzzer input; each field either
/// keeps its valid value or takes a value from `data`.
pub fn fuzzed_descriptors(data: &[u8]) -> (r: FuzzedDescriptors)
    ensures
        (r.filter.name, r.filter.name_len) == fuzzed_name(data@),
        r.filter.magic == field32(data@, 9, NATIVE_FILTER_API_MAGIC),
        r.filter.version == field16(data@, 13, NATIVE_FILTER_API_VERSION),
        r.filter.reserved == field16(data@, 15, 0),
        r.filter.size == field32(data@, 17, NativeFilterDescriptor::c_size() as u32),
        r.filter.on_request == callback_slot(data@, 19),
        r.filter.on_response == callback_slot(data@, 20),
        r.filter.on_finish == callback_slot(data@, 21),
        r.filter.destroy == callback_slot(data@, 22),
        r.filter.peer_events == 0,
        (r.module.name, r.module.name_len) == fuzzed_name(data@),
        r.module.magic == field32(data@, 23, NATIVE_MODULE_API_MAGIC),
        r.module.version == field16(data@, 27, NATIVE_MODULE_API_VERSION),
        r.module.reserved == field16(data@, 29, 0),
        r.module.size == field32(data@, 31, NativeModuleDescriptor::c_size() as u32),
        r.module.init == callback_slot(data@, 33),
        r.module.close == callback_slot(data@, 34),
        (r.metrics.name, r.metrics.name_len) == fuzzed_name(data@),
        r.metrics.magic == field32(data@, 35, NATIVE_METRICS_API_MAGIC),
        r.metrics.version == field16(data@, 39, NATIVE_METRICS_API_VERSION),
        r.metrics.reserved == field16(data@, 41, 0),
        r.metrics.size == field32(data@, 43, NativeMetricsDescriptor::c_size() as u32),
        r.metrics.on_finish == callback_slot(data@, 45),
        (r.metrics_v2.name, r.metrics_v2.name_len) == fuzzed_name(data@),
        r.metrics_v2.magic == field32(data@, 45, NATIVE_METRICS_API_MAGIC),
        r.metrics_v2.version == field16(data@, 49, NATIVE_METRICS_API_VERSION_V2),
        r.metrics_v2.reserved == field16(data@, 51, 0),
        r.metrics_v2.size == field32(data@, 53, NativeMetricsDescriptorV2::c_size() as u32),
        r.metrics_v2.on_observation == callback_slot(data@, 55),
        (r.metrics_v3.name, r.metrics_v3.name_len) == fuzzed_name(data@),
        r.metrics_v3.magic == field32(data@, 57, NATIVE_METRICS_API_MAGIC),
        r.metrics_v3.version == field16(data@, 61, NATIVE_METRICS_API_VERSION_V3),
        r.metrics_v3.reserved == field16(data@, 63, 0),
        r.metrics_v3.size == field32(data@, 65, NativeMetricsDescriptorV3::c_size() as u32),
        r.metrics_v3.on_batch == callback_slot(data@, 67),
{
    let valid_name = flag(data, 0);
    let name: usize = if valid_name {
        FUZZ_NAME_ADDRESS
    } else {
        0
    };
    let name_len: usize = if valid_name {
        FUZZ_NAME_LEN
    } else {
        word(data, 5) as usize
    };
    let filter = NativeFilterDescriptor {
        magic: u32_value(data, 9, NATIVE_FILTER_API_MAGIC),
        version: u16_value(data, 13, NATIVE_FILTER_API_VERSION),
        reserved: u16_value(data, 15, 0),
        size: size(data, 17, NativeFilterDescriptor::abi_size()),
        name,
        name_len,
        on_request: callback(data, 19, FUZZ_CALLBACK_ADDRESS),
        on_response: callback(data, 20, FUZZ_CALLBACK_ADDRESS),
        on_finish: callback(data, 21, FUZZ_CALLBACK_ADDRESS),
        destroy: callback(data, 22, FUZZ_CALLBACK_ADDRESS),
        peer_events: 0,
    };
    let module = NativeModuleDescriptor {
        magic: u32_value(data, 23, NATIVE_MODULE_API_MAGIC),
        version: u16_value(data, 27, NATIVE_MODULE_API_VERSION),
        reserved: u16_value(data, 29, 0),
        size: size(data, 31, NativeModuleDescriptor::abi_size()),
        name,
        name_len,
        init: callback(data, 33, FUZZ_CALLBACK_ADDRESS),
        close: callback(data, 34, FUZZ_CALLBACK_ADDRESS),
    };
    let metrics = NativeMetricsDescriptor {
        magic: u32_value(data, 35, NATIVE_METRICS_API_MAGIC),
        version: u16_value(data, 39, NATIVE_METRICS_API_VERSION),
        reserved: u16_value(data, 41, 0),
        size: size(data, 43, NativeMetricsDescriptor::abi_size()),
        name,
        name_len,
        on_finish: callback(data, 45, FUZZ_CALLBACK_ADDRESS),
    };
    let metrics_v2 = NativeMetricsDescriptorV2 {
        magic: u32_value(data, 45, NATIVE_METRICS_API_MAGIC),
        version: u16_value(data, 49, NATIVE_METRICS_API_VERSION_V2),
        reserved: u16_value(data, 51, 0),
        size: size(data, 53, NativeMetricsDescriptorV2::abi_size()),
        name,
        name_len,
        on_observation: callback(data, 55, FUZZ_CALLBACK_ADDRESS),
    };
    let metrics_v3 = NativeMetricsDescriptorV3 {
        magic: u32_value(data, 57, NATIVE_METRICS_API_MAGIC),
        version: u16_value(data, 61, NATIVE_METRICS_API_VERSION_V3),
        reserved: u16_value(data, 63, 0),
        size: size(data, 65, NativeMetricsDescriptorV3::abi_size()),
        name,
        name_len,
        on_batch: callback(data, 67, FUZZ_CALLBACK_ADDRESS),
    };
    FuzzedDescriptors { filter, module, metrics, metrics_v2, metrics_v3 }
}

/// Fuzz harness: decodes descriptors of every kind from `data` and runs each
/// compatibility check on them, which never fails.
pub fn exercise_descriptors(data: &[u8]) {
    let descriptors = fuzzed_descriptors(data);
    let _ = descriptors.filter.is_compatible();
    let _ = descriptors.module.is_compatible();
    let _ = descriptors.metrics.is_compatible();
    let _ = descriptors.metrics_v2.is_compatible();
    let _ = descriptors.metrics_v3.is_compatible();
}

} // verus!
