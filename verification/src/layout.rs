use vstd::prelude::*;

verus! {

/// Bytes taken by the header shared by every native descriptor:
/// `magic: u32`, `version: u16`, `reserved: u16`, `size: u32`.
pub const DESCRIPTOR_HEADER_BYTES: u32 = 12;

/// Width of a pointer (and of `usize`) on the target, in bytes.
pub open spec fn pointer_width() -> int {
    usize::BITS as int / 8
}

/// `n` rounded up to the next multiple of `align`.
pub open spec fn round_up(n: int, align: int) -> int {
    if n % align == 0 { n } else { n + (align - n % align) }
}

/// Size of a `#[repr(C)]` descriptor made of the common header, then
/// `pointer_fields` pointer-sized fields, then `tail_bytes` bytes of 32-bit
/// fields, padded to pointer alignment.
pub open spec fn c_descriptor_size(pointer_fields: int, tail_bytes: int) -> int {
    round_up(
        round_up(DESCRIPTOR_HEADER_BYTES as int, pointer_width()) + pointer_fields * pointer_width()
            + tail_bytes,
        pointer_width(),
    )
}

/// Computes [`c_descriptor_size`] for the target.
pub fn descriptor_size(pointer_fields: u32, tail_bytes: u32) -> (r: u32)
    requires
        pointer_fields <= 16,
        tail_bytes <= 64,
    ensures
        r == c_descriptor_size(pointer_fields as int, tail_bytes as int),
{
    let width: u32 = usize::BITS / 8;
    assert(width == 4 || width == 8);
    let header: u32 = if DESCRIPTOR_HEADER_BYTES % width == 0 {
        DESCRIPTOR_HEADER_BYTES
    } else {
        DESCRIPTOR_HEADER_BYTES + (width - DESCRIPTOR_HEADER_BYTES % width)
    };
    let unpadded: u32 = header + pointer_fields * width + tail_bytes;
    if unpadded % width == 0 {
        unpadded
    } else {
        unpadded + (width - unpadded % width)
    }
}

} // verus!
