use vstd::prelude::*;

use crate::layout::{c_descriptor_size, descriptor_size};

verus! {

/// Magic number of HAProxy's native transaction-slot API table.
pub const NATIVE_TXN_SLOT_API_MAGIC: u32 = 0x4854_5331;

/// Version of the native transaction-slot API table.
pub const NATIVE_TXN_SLOT_API_VERSION: u16 = 1;

/// Owner identity under which this library stores its slot.
pub const NATIVE_TXN_SLOT_OWNER_DEFAULT: u64 = 1;

/// Slot API status: success.
pub const NATIVE_TXN_SLOT_OK: i32 = 0;

/// Slot API status: the slot belongs to another owner.
pub const NATIVE_TXN_SLOT_OCCUPIED: i32 = -2;

/// Why a native transaction-slot operation failed.
#[derive(Debug, Clone, Copy, Eq, PartialEq, Structural)]
pub enum NativeTxnSlotError {
    /// The running HAProxy offers no native slot API.
    Unavailable,
    /// HAProxy rejected the request, or the value lacks a destructor.
    Invalid,
    /// The slot belongs to another owner.
    Occupied,
}

/// The error a non-OK slot status stands for.
pub open spec fn slot_status_error(status: i32) -> NativeTxnSlotError {
    if status == NATIVE_TXN_SLOT_OCCUPIED {
        NativeTxnSlotError::Occupied
    } else {
        NativeTxnSlotError::Invalid
    }
}

/// Maps a slot API status to its error, keeping owner conflicts apart.
pub fn native_txn_slot_error(status: i32) -> (r: NativeTxnSlotError)
    ensures
        r == slot_status_error(status),
{
    if status == NATIVE_TXN_SLOT_OCCUPIED {
        NativeTxnSlotError::Occupied
    } else {
        NativeTxnSlotError::Invalid
    }
}

/// The message a slot error is reported with.
pub open spec fn slot_error_message(error: NativeTxnSlotError) -> Seq<char> {
    match error {
        NativeTxnSlotError::Unavailable => "native transaction slots are unavailable"@,
        NativeTxnSlotError::Invalid => "native transaction slot rejected value"@,
        NativeTxnSlotError::Occupied => "native transaction slot belongs to another owner"@,
    }
}

/// Describes a slot error for a Lua runtime error.
pub fn native_txn_slot_error_message(error: NativeTxnSlotError) -> (r: &'static str)
    ensures
        r@ == slot_error_message(error),
{
    match error {
        NativeTxnSlotError::Unavailable => "native transaction slots are unavailable",
        NativeTxnSlotError::Invalid => "native transaction slot rejected value",
        NativeTxnSlotError::Occupied => "native transaction slot belongs to another owner",
    }
}

/// HAProxy's native slot API table as found behind its exported symbol.
///
/// Each entry point is the address of its code, `None` when absent.
#[derive(Clone, Copy, Debug)]
pub struct NativeTxnSlotApi {
    pub magic: u32,
    pub version: u16,
    pub reserved: u16,
    pub size: u32,
    pub get: Option<usize>,
    pub set: Option<usize>,
    pub take: Option<usize>,
}

impl NativeTxnSlotApi {
    /// Size of the `#[repr(C)]` table: the header and three entry points.
    pub open spec fn c_size() -> int {
        c_descriptor_size(3, 0)
    }

    /// Byte size of the C layout of the table on the target.
    pub fn abi_size() -> (r: u32)
        ensures
            r == Self::c_size(),
    {
        descriptor_size(3, 0)
    }

    /// The table is of the supported version and offers all three entry points.
    pub open spec fn usable(&self) -> bool {
        &&& self.magic == NATIVE_TXN_SLOT_API_MAGIC
        &&& self.version == NATIVE_TXN_SLOT_API_VERSION
        &&& self.size >= Self::c_size()
        &&& self.get is Some
        &&& self.set is Some
        &&& self.take is Some
    }
}

/// Accepts the slot API table HAProxy exports, if any, only when it is of the
/// supported version and complete.
pub fn native_txn_slot_api(api: Option<NativeTxnSlotApi>) -> (r: Option<NativeTxnSlotApi>)
    ensures
        r == (match api {
            Some(table) => if table.usable() {
                Some(table)
            } else {
                None
            },
            None => None,
        }),
        r is Some ==> r == api,
        r matches Some(t) ==> t.magic == NATIVE_TXN_SLOT_API_MAGIC && t.version
            == NATIVE_TXN_SLOT_API_VERSION && t.size >= NativeTxnSlotApi::c_size(),
        r matches Some(t) ==> t.get is Some && t.set is Some && t.take is Some,
        api matches Some(t) && (t.get is None || t.set is None || t.take is None) ==> r is None,
        api matches Some(t) && t.magic == NATIVE_TXN_SLOT_API_MAGIC && t.version
            == NATIVE_TXN_SLOT_API_VERSION && t.size >= NativeTxnSlotApi::c_size() && t.get is Some
            && t.set is Some && t.take is Some ==> r == api,
{
    match api {
        Some(table) => {
            if table.magic == NATIVE_TXN_SLOT_API_MAGIC && table.version
                == NATIVE_TXN_SLOT_API_VERSION && table.size >= NativeTxnSlotApi::abi_size()
                && table.get.is_some() && table.set.is_some() && table.take.is_some() {
                Some(table)
            } else {
                None
            }
        },
        None => None,
    }
}

/// A slot table that lacks any of its `get`, `set` and `take` entry points,
/// or is of another magic, version or a smaller size, is never used: slots
/// then go through the Lua methods.
pub proof fn incomplete_slot_api_is_not_used(table: NativeTxnSlotApi)
    requires
        table.get is None || table.set is None || table.take is None || table.magic
            != NATIVE_TXN_SLOT_API_MAGIC || table.version != NATIVE_TXN_SLOT_API_VERSION
            || table.size < NativeTxnSlotApi::c_size(),
    ensures
        !table.usable(),
{
}

/// What a native `get` or `take` answered: on success the slot value, where
/// a null value (address 0) is an empty slot.
pub open spec fn fetched_slot(status: i32, value: usize) -> Result<Option<usize>, NativeTxnSlotError> {
    if status == NATIVE_TXN_SLOT_OK {
        if value == 0 {
            Ok(None)
        } else {
            Ok(Some(value))
        }
    } else {
        Err(slot_status_error(status))
    }
}

/// Interprets the answer of a native `get` or `take` call.
pub fn native_slot_value(status: i32, value: usize) -> (r: Result<Option<usize>, NativeTxnSlotError>)
    ensures
        r == fetched_slot(status, value),
        status == NATIVE_TXN_SLOT_OK && value == 0 ==> r == Ok::<
            Option<usize>,
            NativeTxnSlotError,
        >(None),
        status == NATIVE_TXN_SLOT_OK && value != 0 ==> r == Ok::<
            Option<usize>,
            NativeTxnSlotError,
        >(Some(value)),
        status != NATIVE_TXN_SLOT_OK ==> r is Err,
{
    if status == NATIVE_TXN_SLOT_OK {
        if value == 0 {
            Ok(None)
        } else {
            Ok(Some(value))
        }
    } else {
        Err(native_txn_slot_error(status))
    }
}

/// Checks a value and destructor before they are stored, and gives the
/// destructor to hand to HAProxy: a non-null value needs a destructor; a
/// null value (clearing the slot) is stored without one.
pub fn slot_store_destructor(value: usize, destroy: usize) -> (r: Result<
    Option<usize>,
    NativeTxnSlotError,
>)
    ensures
        value != 0 && destroy == 0 ==> r == Err::<Option<usize>, NativeTxnSlotError>(
            NativeTxnSlotError::Invalid,
        ),
        value == 0 ==> r == Ok::<Option<usize>, NativeTxnSlotError>(None),
        value != 0 && destroy != 0 ==> r == Ok::<Option<usize>, NativeTxnSlotError>(
            Some(destroy),
        ),
{
    if value == 0 {
        Ok(None)
    } else if destroy == 0 {
        Err(NativeTxnSlotError::Invalid)
    } else {
        Ok(Some(destroy))
    }
}

/// Interprets the status of a native `set` call.
pub fn native_store_result(status: i32) -> (r: Result<(), NativeTxnSlotError>)
    ensures
        status == NATIVE_TXN_SLOT_OK ==> r == Ok::<(), NativeTxnSlotError>(()),
        status != NATIVE_TXN_SLOT_OK ==> r == Err::<(), NativeTxnSlotError>(
            slot_status_error(status),
        ),
{
    if status == NATIVE_TXN_SLOT_OK {
        Ok(())
    } else {
        Err(native_txn_slot_error(status))
    }
}

/// Why looking up the transaction slot failed.
#[derive(Debug, Clone, Copy, Eq, PartialEq, Structural)]
pub enum SlotLookupError {
    /// The native slot API answered with an error.
    Native(NativeTxnSlotError),
    /// Neither the native API, the slot mirror nor a `get_txn_slot` method exists.
    SlotsUnavailable,
}

/// The message a failed lookup is reported with.
pub open spec fn lookup_error_message(error: SlotLookupError) -> Seq<char> {
    match error {
        SlotLookupError::Native(native) => slot_error_message(native),
        SlotLookupError::SlotsUnavailable => "transaction slots are unavailable"@,
    }
}

/// Describes a failed lookup for a Lua runtime error.
pub fn slot_lookup_error_message(error: SlotLookupError) -> (r: &'static str)
    ensures
        r@ == lookup_error_message(error),
{
    match error {
        SlotLookupError::Native(native) => native_txn_slot_error_message(native),
        SlotLookupError::SlotsUnavailable => "transaction slots are unavailable",
    }
}

/// Where a transaction-slot lookup stands.
///
/// A lookup starts at [`SlotLookup::Start`] (or at
/// [`SlotLookup::QueryNative`] when the caller already knows the native API
/// is present); at each step the caller performs what the state names and
/// hands the answer to [`next_slot_lookup`], until the lookup is `Done`.
#[derive(Debug, Clone, Copy, Eq, PartialEq)]
pub enum SlotLookup {
    /// Find out whether the running HAProxy exports the native slot API.
    Start,
    /// Query the slot through the native API.
    QueryNative,
    /// Read the `__txn_slot` mirror; when it is empty, fall back to the method.
    ReadMirror,
    /// Read the `__txn_slot` mirror; its content is the answer.
    ReadMirrorOnly,
    /// Find out whether the transaction offers a `get_txn_slot` method.
    FindMethod,
    /// Call the `get_txn_slot` method; its answer is the result.
    CallMethod,
    /// The lookup finished with this result.
    Done(Result<Option<usize>, SlotLookupError>),
}

/// What the caller learned while performing a lookup step.
#[derive(Debug, Clone, Copy, Eq, PartialEq)]
pub enum SlotLookupEvent {
    /// Whether the native slot API is present.
    NativeApi(bool),
    /// The answer of the native query.
    NativeAnswer(Result<Option<usize>, NativeTxnSlotError>),
    /// The content of the `__txn_slot` mirror.
    Mirror(Option<usize>),
    /// Whether a `get_txn_slot` method exists.
    Method(bool),
    /// The answer of the `get_txn_slot` method.
    MethodAnswer(Option<usize>),
}

/// One lookup step; an event that does not answer the current state leaves
/// the state unchanged.
pub open spec fn slot_lookup_step(state: SlotLookup, event: SlotLookupEvent) -> SlotLookup {
    match (state, event) {
        (SlotLookup::Start, SlotLookupEvent::NativeApi(present)) => if present {
            SlotLookup::QueryNative
        } else {
            SlotLookup::ReadMirror
        },
        (SlotLookup::QueryNative, SlotLookupEvent::NativeAnswer(answer)) => match answer {
            Ok(value) => SlotLookup::Done(Ok(value)),
            Err(NativeTxnSlotError::Unavailable) => SlotLookup::ReadMirrorOnly,
            Err(error) => SlotLookup::Done(Err(SlotLookupError::Native(error))),
        },
        (SlotLookup::ReadMirror, SlotLookupEvent::Mirror(mirror)) => match mirror {
            Some(value) => SlotLookup::Done(Ok(Some(value))),
            None => SlotLookup::FindMethod,
        },
        (SlotLookup::ReadMirrorOnly, SlotLookupEvent::Mirror(mirror)) => SlotLookup::Done(
            Ok(mirror),
        ),
        (SlotLookup::FindMethod, SlotLookupEvent::Method(present)) => if present {
            SlotLookup::CallMethod
        } else {
            SlotLookup::Done(Err(SlotLookupError::SlotsUnavailable))
        },
        (SlotLookup::CallMethod, SlotLookupEvent::MethodAnswer(value)) => SlotLookup::Done(
            Ok(value),
        ),
        _ => state,
    }
}

/// Advances a transaction-slot lookup by one step.
pub fn next_slot_lookup(state: SlotLookup, event: SlotLookupEvent) -> (r: SlotLookup)
    ensures
        r == slot_lookup_step(state, event),
{
    match (state, event) {
        (SlotLookup::Start, SlotLookupEvent::NativeApi(present)) => if present {
            SlotLookup::QueryNative
        } else {
            SlotLookup::ReadMirror
        },
        (SlotLookup::QueryNative, SlotLookupEvent::NativeAnswer(answer)) => match answer {
            Ok(value) => SlotLookup::Done(Ok(value)),
            Err(NativeTxnSlotError::Unavailable) => SlotLookup::ReadMirrorOnly,
            Err(error) => SlotLookup::Done(Err(SlotLookupError::Native(error))),
        },
        (SlotLookup::ReadMirror, SlotLookupEvent::Mirror(mirror)) => match mirror {
            Some(value) => SlotLookup::Done(Ok(Some(value))),
            None => SlotLookup::FindMethod,
        },
        (SlotLookup::ReadMirrorOnly, SlotLookupEvent::Mirror(mirror)) => SlotLookup::Done(
            Ok(mirror),
        ),
        (SlotLookup::FindMethod, SlotLookupEvent::Method(present)) => if present {
            SlotLookup::CallMethod
        } else {
            SlotLookup::Done(Err(SlotLookupError::SlotsUnavailable))
        },
        (SlotLookup::CallMethod, SlotLookupEvent::MethodAnswer(value)) => SlotLookup::Done(
            Ok(value),
        ),
        _ => state,
    }
}

/// Everything the environment would answer during a lookup.
pub struct SlotAnswers {
    pub native_api: bool,
    pub native: Result<Option<usize>, NativeTxnSlotError>,
    pub mirror: Option<usize>,
    pub method_present: bool,
    pub method: Option<usize>,
}

/// The answer the environment gives in `state`.
pub open spec fn answer_for(state: SlotLookup, answers: SlotAnswers) -> SlotLookupEvent {
    match state {
        SlotLookup::Start => SlotLookupEvent::NativeApi(answers.native_api),
        SlotLookup::QueryNative => SlotLookupEvent::NativeAnswer(answers.native),
        SlotLookup::ReadMirror => SlotLookupEvent::Mirror(answers.mirror),
        SlotLookup::ReadMirrorOnly => SlotLookupEvent::Mirror(answers.mirror),
        SlotLookup::FindMethod => SlotLookupEvent::Method(answers.method_present),
        SlotLookup::CallMethod => SlotLookupEvent::MethodAnswer(answers.method),
        SlotLookup::Done(_) => SlotLookupEvent::NativeApi(answers.native_api),
    }
}

/// The state a lookup reaches from `state` after at most `steps` steps.
pub open spec fn run_slot_lookup(state: SlotLookup, answers: SlotAnswers, steps: nat) -> SlotLookup
    decreases steps,
{
    if steps == 0 || state is Done {
        state
    } else {
        run_slot_lookup(
            slot_lookup_step(state, answer_for(state, answers)),
            answers,
            (steps - 1) as nat,
        )
    }
}

/// What reading the slot through the native API yields: the native answer,
/// the mirror when the API turns out to be unavailable, or the native error.
pub open spec fn native_slot_outcome(answers: SlotAnswers) -> Result<Option<usize>, SlotLookupError> {
    match answers.native {
        Ok(value) => Ok(value),
        Err(NativeTxnSlotError::Unavailable) => Ok(answers.mirror),
        Err(error) => Err(SlotLookupError::Native(error)),
    }
}

/// What a full slot lookup yields: the native path when the API is present;
/// otherwise the mirror when it holds a value, else the `get_txn_slot`
/// method's answer, and an error when there is no such method.
pub open spec fn slot_lookup_outcome(answers: SlotAnswers) -> Result<Option<usize>, SlotLookupError> {
    if answers.native_api {
        native_slot_outcome(answers)
    } else {
        match answers.mirror {
            Some(value) => Ok(Some(value)),
            None => if answers.method_present {
                Ok(answers.method)
            } else {
                Err(SlotLookupError::SlotsUnavailable)
            },
        }
    }
}

/// A lookup finishes within four steps from the start and within two from a
/// native query, and its result is the one [`slot_lookup_outcome`] (and
/// [`native_slot_outcome`]) describes; in particular a populated mirror is
/// read without calling the `get_txn_slot` method.
pub proof fn slot_lookup_finishes(answers: SlotAnswers)
    ensures
        run_slot_lookup(SlotLookup::Start, answers, 4) == SlotLookup::Done(
            slot_lookup_outcome(answers),
        ),
        run_slot_lookup(SlotLookup::QueryNative, answers, 2) == SlotLookup::Done(
            native_slot_outcome(answers),
        ),
{
    reveal_with_fuel(run_slot_lookup, 5);
}

/// Caches a transaction's stream identity after its first successful lookup.
#[derive(Debug, Clone)]
pub struct TransactionIdCache {
    id: Option<usize>,
}

impl View for TransactionIdCache {
    type V = Option<usize>;

    closed spec fn view(&self) -> Option<usize> {
        self.id
    }
}

impl TransactionIdCache {
    /// An empty cache.
    pub fn new() -> (r: Self)
        ensures
            r@ == None::<usize>,
    {
        TransactionIdCache { id: None }
    }

    /// The cached identity, if a lookup has succeeded.
    pub fn get(&self) -> (r: Option<usize>)
        ensures
            r == self@,
    {
        self.id
    }

    /// Records a looked-up identity and returns the identity in force: the
    /// first one recorded, which later lookups never replace.
    pub fn remember(&mut self, id: usize) -> (r: usize)
        ensures
            r == remembered_id(old(self)@, id),
            final(self)@ == Some(r),
    {
        match self.id {
            Some(first) => first,
            None => {
                self.id = Some(id);
                id
            },
        }
    }
}

/// The identity in force after recording `id` in a cache holding `cached`.
pub open spec fn remembered_id(cached: Option<usize>, id: usize) -> usize {
    match cached {
        Some(first) => first,
        None => id,
    }
}

/// Once an identity is recorded, recording any other keeps the first: the
/// transaction identity never changes for the stream's lifetime.
pub proof fn transaction_id_is_cached(cached: Option<usize>, first: usize, later: usize)
    ensures
        remembered_id(Some(remembered_id(cached, first)), later) == remembered_id(cached, first),
        cached is None ==> remembered_id(cached, first) == first,
{
}

} // verus!
