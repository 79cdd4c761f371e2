//! Verified core of an HAProxy 2.x Lua and native-module API binding.
//!
//! The library holds the rules the binding applies around HAProxy: which
//! native descriptors a compatible HAProxy accepts, what a provider's status
//! means, how the opaque transaction slot is looked up and stored, how async
//! functions share the `coroutine.yield` replacement and its notification
//! protocol, and how header values are keyed and ordered.

mod layout;
mod text;

pub mod fetch;
pub mod fuzz;
pub mod headers;
pub mod native_filter;
pub mod native_metrics;
pub mod native_module;
pub mod notify;
pub mod pairs;
pub mod pool;
pub mod proxy;
pub mod txn_slot;
pub mod yield_fixup;

pub use crate::headers::RequestHeaders;
pub use crate::native_filter::{
    registration_error, registration_outcome, NativeFilterBytes, NativeFilterDescriptor,
    NativeFilterHeader, NativeFilterRegistrationError, NATIVE_FILTER_API_MAGIC,
    NATIVE_FILTER_API_VERSION, NATIVE_FILTER_EVENT_FINISH, NATIVE_FILTER_EVENT_REQUEST_HEADERS,
    NATIVE_FILTER_EVENT_RESPONSE_HEADERS, NATIVE_FILTER_PEER_FINISH, NATIVE_FILTER_PEER_REQUEST,
    NATIVE_FILTER_PEER_RESPONSE, NATIVE_FILTER_STATUS_BUSY, NATIVE_FILTER_STATUS_CONFLICT,
    NATIVE_FILTER_STATUS_INVALID, NATIVE_FILTER_STATUS_OK,
};
pub use crate::native_metrics::{
    NativeMetricsDescriptor, NativeMetricsDescriptorV2, NativeMetricsDescriptorV3,
    NativeMetricsLabelV2, NATIVE_METRICS_API_MAGIC, NATIVE_METRICS_API_VERSION,
    NATIVE_METRICS_API_VERSION_V2, NATIVE_METRICS_API_VERSION_V3, NATIVE_METRICS_EVENT_BATCH_V3,
    NATIVE_METRICS_EVENT_FINISH, NATIVE_METRICS_EVENT_OBSERVATION_V2,
    NATIVE_METRICS_EVENT_SNAPSHOT_V3, NATIVE_METRICS_MAX_EVENTS_V3, NATIVE_METRICS_MAX_LABELS_V2,
    NATIVE_METRIC_COUNTER_V2, NATIVE_METRIC_GAUGE_V2, NATIVE_METRIC_HISTOGRAM_V2,
    NATIVE_METRIC_TEMPORALITY_CUMULATIVE_V2, NATIVE_METRIC_TEMPORALITY_DELTA_V2,
};
pub use crate::native_module::{
    native_module_descriptor_symbol, NativeModuleDescriptor, NATIVE_MODULE_API_MAGIC,
    NATIVE_MODULE_API_VERSION, NATIVE_MODULE_STATUS_ERROR, NATIVE_MODULE_STATUS_OK,
};
pub use crate::proxy::{ProxyCapability, ProxyMode};
pub use crate::txn_slot::NativeTxnSlotError;
