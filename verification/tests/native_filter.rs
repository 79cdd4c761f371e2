use haproxy_api::{
    registration_error, registration_outcome, NativeFilterDescriptor,
    NativeFilterRegistrationError, NATIVE_FILTER_API_MAGIC, NATIVE_FILTER_API_VERSION,
    NATIVE_FILTER_PEER_FINISH, NATIVE_FILTER_PEER_REQUEST, NATIVE_FILTER_PEER_RESPONSE,
    NATIVE_FILTER_STATUS_BUSY, NATIVE_FILTER_STATUS_CONFLICT, NATIVE_FILTER_STATUS_INVALID,
    NATIVE_FILTER_STATUS_OK,
};

const NAME: &str = "test";

fn descriptor() -> NativeFilterDescriptor {
    NativeFilterDescriptor {
        magic: NATIVE_FILTER_API_MAGIC,
        version: NATIVE_FILTER_API_VERSION,
        reserved: 0,
        size: NativeFilterDescriptor::abi_size(),
        name: NAME.as_ptr() as usize,
        name_len: 4,
        on_request: Some(0x10),
        on_response: Some(0x10),
        on_finish: Some(0x10),
        destroy: Some(0x20),
        peer_events: 0,
    }
}

#[test]
fn native_filter_accepts_only_complete_current_descriptors() {
    let mut descriptor = descriptor();
    assert!(descriptor.is_compatible());

    descriptor.magic = 0;
    assert!(!descriptor.is_compatible());
    descriptor.magic = NATIVE_FILTER_API_MAGIC;
    descriptor.size = 1;
    assert!(!descriptor.is_compatible());
    descriptor.size = NativeFilterDescriptor::abi_size();
    descriptor.reserved = 1;
    assert!(!descriptor.is_compatible());
    descriptor.reserved = 0;
    descriptor.name_len = 0;
    assert!(!descriptor.is_compatible());
    descriptor.name_len = 4;
    descriptor.on_finish = None;
    assert!(!descriptor.is_compatible());
}

#[test]
fn peer_event_masks_are_independent() {
    assert_eq!(
        NATIVE_FILTER_PEER_REQUEST | NATIVE_FILTER_PEER_RESPONSE | NATIVE_FILTER_PEER_FINISH,
        0b1110
    );
    assert_eq!(NATIVE_FILTER_PEER_REQUEST & NATIVE_FILTER_PEER_RESPONSE, 0);
}

#[test]
fn maps_provider_conflicts_without_collapsing_them_into_invalid() {
    assert_eq!(
        registration_error(NATIVE_FILTER_STATUS_CONFLICT),
        NativeFilterRegistrationError::Conflict
    );
    assert_eq!(
        registration_error(NATIVE_FILTER_STATUS_INVALID),
        NativeFilterRegistrationError::Invalid
    );
    assert_eq!(
        registration_error(NATIVE_FILTER_STATUS_BUSY),
        NativeFilterRegistrationError::Busy
    );
}

#[test]
fn unknown_provider_statuses_are_invalid() {
    assert_eq!(registration_error(-7), NativeFilterRegistrationError::Invalid);
    assert_eq!(registration_error(5), NativeFilterRegistrationError::Invalid);
}

#[test]
fn registration_outcome_covers_every_answer() {
    assert_eq!(
        registration_outcome(false, Some(NATIVE_FILTER_STATUS_OK)),
        Err(NativeFilterRegistrationError::Invalid)
    );
    assert_eq!(
        registration_outcome(false, None),
        Err(NativeFilterRegistrationError::Invalid)
    );
    assert_eq!(
        registration_outcome(true, None),
        Err(NativeFilterRegistrationError::Unavailable)
    );
    assert_eq!(registration_outcome(true, Some(NATIVE_FILTER_STATUS_OK)), Ok(()));
    assert_eq!(
        registration_outcome(true, Some(NATIVE_FILTER_STATUS_CONFLICT)),
        Err(NativeFilterRegistrationError::Conflict)
    );
    assert_eq!(
        registration_outcome(true, Some(NATIVE_FILTER_STATUS_BUSY)),
        Err(NativeFilterRegistrationError::Busy)
    );
    assert_eq!(
        registration_outcome(true, Some(NATIVE_FILTER_STATUS_INVALID)),
        Err(NativeFilterRegistrationError::Invalid)
    );
}

#[test]
fn filter_descriptor_size_matches_the_c_layout() {
    let expected = if usize::BITS == 64 { 72 } else { 40 };
    assert_eq!(NativeFilterDescriptor::abi_size(), expected);
}

#[test]
fn peer_bits_follow_the_event_kinds() {
    assert_eq!(NATIVE_FILTER_PEER_REQUEST, 2);
    assert_eq!(NATIVE_FILTER_PEER_RESPONSE, 4);
    assert_eq!(NATIVE_FILTER_PEER_FINISH, 8);
}
