use vstd::prelude::*;

use crate::layout::{c_descriptor_size, descriptor_size};

verus! {

/// Magic number that opens native filter descriptors and events.
pub const NATIVE_FILTER_API_MAGIC: u32 = 0x4846_5331;

/// Version of the native filter descriptor and event layouts.
pub const NATIVE_FILTER_API_VERSION: u16 = 2;

/// Provider status: the request was accepted.
pub const NATIVE_FILTER_STATUS_OK: i32 = 0;

/// Provider status: the descriptor was rejected.
pub const NATIVE_FILTER_STATUS_INVALID: i32 = -1;

/// Provider status: another provider already holds the name.
pub const NATIVE_FILTER_STATUS_CONFLICT: i32 = -2;

/// Provider status: the provider is still in use.
pub const NATIVE_FILTER_STATUS_BUSY: i32 = -3;

/// Event kind: request headers were received.
pub const NATIVE_FILTER_EVENT_REQUEST_HEADERS: u32 = 1;

/// Event kind: response headers were received.
pub const NATIVE_FILTER_EVENT_RESPONSE_HEADERS: u32 = 2;

/// Event kind: the stream finished.
pub const NATIVE_FILTER_EVENT_FINISH: u32 = 3;

/// Bit of `peer_events` that asks for the peer address on request events.
pub const NATIVE_FILTER_PEER_REQUEST: u32 = 1 << NATIVE_FILTER_EVENT_REQUEST_HEADERS;

/// Bit of `peer_events` that asks for the peer address on response events.
pub const NATIVE_FILTER_PEER_RESPONSE: u32 = 1 << NATIVE_FILTER_EVENT_RESPONSE_HEADERS;

/// Bit of `peer_events` that asks for the peer address on finish events.
pub const NATIVE_FILTER_PEER_FINISH: u32 = 1 << NATIVE_FILTER_EVENT_FINISH;

/// A borrowed byte range: the address of its first byte and its length.
#[derive(Clone, Copy, Debug, Default)]
pub struct NativeFilterBytes {
    pub data: usize,
    pub len: usize,
}

/// One header handed to a filter callback: its name, a per-header status and
/// its value, each byte range given by address and length.
#[derive(Clone, Copy, Debug, Default)]
pub struct NativeFilterHeader {
    pub name: usize,
    pub name_len: usize,
    pub status: i32,
    pub data: usize,
    pub len: usize,
}

/// A native filter provider descriptor as HAProxy reads it.
///
/// `name` is the address of the provider name (0 stands for a null pointer);
/// each callback is the address of its code, `None` when absent.
#[derive(Clone, Copy, Debug)]
pub struct NativeFilterDescriptor {
    pub magic: u32,
    pub version: u16,
    pub reserved: u16,
    pub size: u32,
    pub name: usize,
    pub name_len: usize,
    pub on_request: Option<usize>,
    pub on_response: Option<usize>,
    pub on_finish: Option<usize>,
    pub destroy: Option<usize>,
    /// Event kinds for which HAProxy should populate the event's peer address.
    pub peer_events: u32,
}

impl NativeFilterDescriptor {
    /// Size of the `#[repr(C)]` descriptor: the header, six pointer-sized
    /// fields (name, name length, four callbacks) and the 32-bit peer mask.
    pub open spec fn c_size() -> int {
        c_descriptor_size(6, 4)
    }

    /// Byte size of the C layout of this descriptor on the target.
    pub fn abi_size() -> (r: u32)
        ensures
            r == Self::c_size(),
    {
        descriptor_size(6, 4)
    }

    /// The descriptor is of the current API version and complete.
    pub open spec fn compatible(&self) -> bool {
        &&& self.magic == NATIVE_FILTER_API_MAGIC
        &&& self.version == NATIVE_FILTER_API_VERSION
        &&& self.reserved == 0
        &&& self.size >= Self::c_size()
        &&& self.name != 0
        &&& self.name_len != 0
        &&& self.on_request is Some
        &&& self.on_response is Some
        &&& self.on_finish is Some
        &&& self.destroy is Some
    }

    /// Checks that the descriptor is of the current API version and complete.
    pub fn is_compatible(&self) -> (r: bool)
        ensures
            r == self.compatible(),
            r ==> self.on_request is Some && self.on_response is Some && self.on_finish is Some
                && self.destroy is Some,
            r ==> self.magic == NATIVE_FILTER_API_MAGIC && self.version == NATIVE_FILTER_API_VERSION
                && self.reserved == 0 && self.size >= Self::c_size() && self.name != 0
                && self.name_len != 0,
            self.magic == NATIVE_FILTER_API_MAGIC && self.version == NATIVE_FILTER_API_VERSION
                && self.reserved == 0 && self.size >= Self::c_size() && self.name != 0
                && self.name_len != 0 && self.on_request is Some && self.on_response is Some
                && self.on_finish is Some && self.destroy is Some ==> r,
    {
        self.magic == NATIVE_FILTER_API_MAGIC && self.version == NATIVE_FILTER_API_VERSION
            && self.reserved == 0 && self.size >= Self::abi_size() && self.name != 0
            && self.name_len != 0 && self.on_request.is_some() && self.on_response.is_some()
            && self.on_finish.is_some() && self.destroy.is_some()
    }
}

/// Why registering or closing a native provider failed.
#[derive(Debug, Clone, Copy, PartialEq, Eq, Structural)]
pub enum NativeFilterRegistrationError {
    /// The running HAProxy offers no registration entry point.
    Unavailable,
    /// The descriptor is incompatible, or HAProxy rejected it.
    Invalid,
    /// Another provider already holds the name.
    Conflict,
    /// The provider is still in use.
    Busy,
}

/// The error a non-OK provider status stands for.
pub open spec fn status_error(status: i32) -> NativeFilterRegistrationError {
    if status == NATIVE_FILTER_STATUS_CONFLICT {
        NativeFilterRegistrationError::Conflict
    } else if status == NATIVE_FILTER_STATUS_BUSY {
        NativeFilterRegistrationError::Busy
    } else {
        NativeFilterRegistrationError::Invalid
    }
}

/// Maps a provider status to a registration error, keeping conflicts and
/// busy providers apart from rejected descriptors.
pub fn registration_error(status: i32) -> (r: NativeFilterRegistrationError)
    ensures
        r == status_error(status),
        status == NATIVE_FILTER_STATUS_CONFLICT ==> r == NativeFilterRegistrationError::Conflict,
        status == NATIVE_FILTER_STATUS_BUSY ==> r == NativeFilterRegistrationError::Busy,
        status != NATIVE_FILTER_STATUS_CONFLICT && status != NATIVE_FILTER_STATUS_BUSY ==> r
            == NativeFilterRegistrationError::Invalid,
{
    if status == NATIVE_FILTER_STATUS_CONFLICT {
        NativeFilterRegistrationError::Conflict
    } else if status == NATIVE_FILTER_STATUS_BUSY {
        NativeFilterRegistrationError::Busy
    } else {
        NativeFilterRegistrationError::Invalid
    }
}

/// What registering (or closing) a provider yields: an incompatible
/// descriptor is `Invalid` whatever HAProxy offers; otherwise a missing entry
/// point is `Unavailable`, status OK is success and any other status is the
/// error it stands for.
pub open spec fn registration_result(
    compatible: bool,
    provider_status: Option<i32>,
) -> Result<(), NativeFilterRegistrationError> {
    if !compatible {
        Err(NativeFilterRegistrationError::Invalid)
    } else {
        match provider_status {
            None => Err(NativeFilterRegistrationError::Unavailable),
            Some(status) => if status == NATIVE_FILTER_STATUS_OK {
                Ok(())
            } else {
                Err(status_error(status))
            },
        }
    }
}

/// Decides the outcome of a register or close request.
///
/// `compatible` is the descriptor check; `provider_status` is what HAProxy's
/// entry point answered, `None` when the running HAProxy has no such entry
/// point. A caller only consults HAProxy for a compatible descriptor; the
/// status is ignored otherwise.
pub fn registration_outcome(compatible: bool, provider_status: Option<i32>) -> (r: Result<
    (),
    NativeFilterRegistrationError,
>)
    ensures
        r == registration_result(compatible, provider_status),
        !compatible ==> r == Err::<(), NativeFilterRegistrationError>(
            NativeFilterRegistrationError::Invalid,
        ),
        compatible && provider_status is None ==> r == Err::<(), NativeFilterRegistrationError>(
            NativeFilterRegistrationError::Unavailable,
        ),
        r is Ok <==> compatible && provider_status == Some(NATIVE_FILTER_STATUS_OK),
        compatible && provider_status == Some(NATIVE_FILTER_STATUS_CONFLICT) ==> r == Err::<
            (),
            NativeFilterRegistrationError,
        >(NativeFilterRegistrationError::Conflict),
        compatible && provider_status == Some(NATIVE_FILTER_STATUS_BUSY) ==> r == Err::<
            (),
            NativeFilterRegistrationError,
        >(NativeFilterRegistrationError::Busy),
{
    if !compatible {
        return Err(NativeFilterRegistrationError::Invalid);
    }
    match provider_status {
        None => Err(NativeFilterRegistrationError::Unavailable),
        Some(status) => if status == NATIVE_FILTER_STATUS_OK {
            Ok(())
        } else {
            Err(registration_error(status))
        },
    }
}

/// A filter descriptor that lacks any of its four callbacks, names no
/// provider, or is of another magic, version or a smaller size is never
/// compatible, and registering it fails with `Invalid` whatever HAProxy
/// would answer.
pub proof fn incomplete_filter_descriptor_is_invalid(
    descriptor: NativeFilterDescriptor,
    provider_status: Option<i32>,
)
    requires
        descriptor.on_request is None || descriptor.on_response is None
            || descriptor.on_finish is None || descriptor.destroy is None || descriptor.name == 0
            || descriptor.name_len == 0 || descriptor.magic != NATIVE_FILTER_API_MAGIC
            || descriptor.version != NATIVE_FILTER_API_VERSION || descriptor.reserved != 0
            || descriptor.size < NativeFilterDescriptor::c_size(),
    ensures
        !descriptor.compatible(),
        registration_result(descriptor.compatible(), provider_status) == Err::<
            (),
            NativeFilterRegistrationError,
        >(NativeFilterRegistrationError::Invalid),
{
}

/// The three peer-address bits are distinct single bits: asking for the peer
/// on one event kind never asks for it on another, and together they cover
/// exactly bits 1 to 3.
pub proof fn peer_event_masks_are_independent()
    ensures
        NATIVE_FILTER_PEER_REQUEST & NATIVE_FILTER_PEER_RESPONSE == 0,
        NATIVE_FILTER_PEER_REQUEST & NATIVE_FILTER_PEER_FINISH == 0,
        NATIVE_FILTER_PEER_RESPONSE & NATIVE_FILTER_PEER_FINISH == 0,
        NATIVE_FILTER_PEER_REQUEST | NATIVE_FILTER_PEER_RESPONSE | NATIVE_FILTER_PEER_FINISH
            == 0b1110u32,
{
    assert((1u32 << 1u32) & (1u32 << 2u32) == 0) by (bit_vector);
    assert((1u32 << 1u32) & (1u32 << 3u32) == 0) by (bit_vector);
    assert((1u32 << 2u32) & (1u32 << 3u32) == 0) by (bit_vector);
    assert((1u32 << 1u32) | (1u32 << 2u32) | (1u32 << 3u32) == 0b1110u32) by (bit_vector);
}

} // verus!
