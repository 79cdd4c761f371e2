use haproxy_api::txn_slot::{
    native_slot_value, native_store_result, native_txn_slot_api, native_txn_slot_error,
    native_txn_slot_error_message, next_slot_lookup, slot_store_destructor, NativeTxnSlotApi,
    SlotLookup, SlotLookupError, SlotLookupEvent, TransactionIdCache, NATIVE_TXN_SLOT_API_MAGIC,
    NATIVE_TXN_SLOT_API_VERSION,
};
use haproxy_api::NativeTxnSlotError;

#[test]
fn native_slot_status_preserves_owner_conflicts() {
    assert_eq!(native_txn_slot_error(-2), NativeTxnSlotError::Occupied);
    assert_eq!(native_txn_slot_error(-1), NativeTxnSlotError::Invalid);
    assert_eq!(
        native_txn_slot_error_message(NativeTxnSlotError::Occupied),
        "native transaction slot belongs to another owner"
    );
}

#[test]
fn every_slot_error_has_its_message() {
    assert_eq!(
        native_txn_slot_error_message(NativeTxnSlotError::Unavailable),
        "native transaction slots are unavailable"
    );
    assert_eq!(
        native_txn_slot_error_message(NativeTxnSlotError::Invalid),
        "native transaction slot rejected value"
    );
}

#[test]
fn native_slot_rejects_value_without_destructor() {
    assert_eq!(
        slot_store_destructor(0x1000, 0),
        Err(NativeTxnSlotError::Invalid)
    );
    assert_eq!(slot_store_destructor(0x1000, 0x2000), Ok(Some(0x2000)));
    assert_eq!(slot_store_destructor(0, 0), Ok(None));
    assert_eq!(slot_store_destructor(0, 0x2000), Ok(None));
}

#[test]
fn native_get_and_take_answers_are_read_as_slots() {
    assert_eq!(native_slot_value(0, 0), Ok(None));
    assert_eq!(native_slot_value(0, 0x1234), Ok(Some(0x1234)));
    assert_eq!(native_slot_value(-2, 0x1234), Err(NativeTxnSlotError::Occupied));
    assert_eq!(native_slot_value(-1, 0), Err(NativeTxnSlotError::Invalid));
    assert_eq!(native_store_result(0), Ok(()));
    assert_eq!(native_store_result(-2), Err(NativeTxnSlotError::Occupied));
    assert_eq!(native_store_result(-9), Err(NativeTxnSlotError::Invalid));
}

fn api() -> NativeTxnSlotApi {
    NativeTxnSlotApi {
        magic: NATIVE_TXN_SLOT_API_MAGIC,
        version: NATIVE_TXN_SLOT_API_VERSION,
        reserved: 0,
        size: NativeTxnSlotApi::abi_size(),
        get: Some(0x10),
        set: Some(0x20),
        take: Some(0x30),
    }
}

#[test]
fn slot_api_is_used_only_when_complete() {
    assert!(native_txn_slot_api(Some(api())).is_some());
    assert!(native_txn_slot_api(None).is_none());
    let mut table = api();
    table.take = None;
    assert!(native_txn_slot_api(Some(table)).is_none());
    let mut table = api();
    table.magic = 0;
    assert!(native_txn_slot_api(Some(table)).is_none());
    let mut table = api();
    table.size = 8;
    assert!(native_txn_slot_api(Some(table)).is_none());
    let mut table = api();
    table.version = 2;
    assert!(native_txn_slot_api(Some(table)).is_none());
}

fn run(mut state: SlotLookup, events: &[SlotLookupEvent]) -> SlotLookup {
    for event in events {
        state = next_slot_lookup(state, *event);
    }
    state
}

#[test]
fn reads_the_native_slot_mirror_without_calling_lua() {
    let state = run(
        SlotLookup::Start,
        &[SlotLookupEvent::NativeApi(false), SlotLookupEvent::Mirror(Some(0x55))],
    );
    assert_eq!(state, SlotLookup::Done(Ok(Some(0x55))));
    let state = run(
        SlotLookup::QueryNative,
        &[
            SlotLookupEvent::NativeAnswer(Err(NativeTxnSlotError::Unavailable)),
            SlotLookupEvent::Mirror(Some(0x55)),
        ],
    );
    assert_eq!(state, SlotLookup::Done(Ok(Some(0x55))));
}

#[test]
fn native_slot_mirror_preserves_empty_slots() {
    let state = run(
        SlotLookup::Start,
        &[
            SlotLookupEvent::NativeApi(false),
            SlotLookupEvent::Mirror(None),
            SlotLookupEvent::Method(true),
        ],
    );
    assert_eq!(state, SlotLookup::CallMethod);
    assert_eq!(
        next_slot_lookup(state, SlotLookupEvent::MethodAnswer(None)),
        SlotLookup::Done(Ok(None))
    );
}

#[test]
fn older_haproxy_uses_the_compatible_slot_fallback() {
    let state = run(
        SlotLookup::Start,
        &[
            SlotLookupEvent::NativeApi(false),
            SlotLookupEvent::Mirror(None),
            SlotLookupEvent::Method(true),
            SlotLookupEvent::MethodAnswer(Some(0x77)),
        ],
    );
    assert_eq!(state, SlotLookup::Done(Ok(Some(0x77))));
}

#[test]
fn missing_slot_support_is_reported() {
    let state = run(
        SlotLookup::Start,
        &[
            SlotLookupEvent::NativeApi(false),
            SlotLookupEvent::Mirror(None),
            SlotLookupEvent::Method(false),
        ],
    );
    assert_eq!(state, SlotLookup::Done(Err(SlotLookupError::SlotsUnavailable)));
}

#[test]
fn native_answers_decide_when_the_api_is_present() {
    let state = run(
        SlotLookup::Start,
        &[
            SlotLookupEvent::NativeApi(true),
            SlotLookupEvent::NativeAnswer(Ok(Some(0x99))),
        ],
    );
    assert_eq!(state, SlotLookup::Done(Ok(Some(0x99))));
    let state = run(
        SlotLookup::Start,
        &[
            SlotLookupEvent::NativeApi(true),
            SlotLookupEvent::NativeAnswer(Err(NativeTxnSlotError::Occupied)),
        ],
    );
    assert_eq!(
        state,
        SlotLookup::Done(Err(SlotLookupError::Native(NativeTxnSlotError::Occupied)))
    );
}

#[test]
fn unexpected_events_leave_the_lookup_where_it_is() {
    assert_eq!(
        next_slot_lookup(SlotLookup::FindMethod, SlotLookupEvent::Mirror(Some(1))),
        SlotLookup::FindMethod
    );
    let done = SlotLookup::Done(Ok(None));
    assert_eq!(next_slot_lookup(done, SlotLookupEvent::NativeApi(true)), done);
}

#[test]
fn transaction_id_is_cached_after_the_first_successful_lookup() {
    let mut cache = TransactionIdCache::new();
    assert_eq!(cache.get(), None);
    assert_eq!(cache.remember(0x1000), 0x1000);
    assert_eq!(cache.get(), Some(0x1000));
    assert_eq!(cache.remember(0x2000), 0x1000);
    assert_eq!(cache.get(), Some(0x1000));
}

#[test]
fn slot_api_table_size_matches_the_c_layout() {
    let expected = if usize::BITS == 64 { 40 } else { 24 };
    assert_eq!(NativeTxnSlotApi::abi_size(), expected);
}
