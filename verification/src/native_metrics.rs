use vstd::prelude::*;

use crate::layout::{c_descriptor_size, descriptor_size};
use crate::native_filter::{NativeFilterBytes, NATIVE_FILTER_API_MAGIC};

verus! {

/// Magic number of native metrics descriptors (shared with native filters).
pub const NATIVE_METRICS_API_MAGIC: u32 = NATIVE_FILTER_API_MAGIC;

/// Version of the first metrics descriptor layout.
pub const NATIVE_METRICS_API_VERSION: u16 = 1;

/// Version 1 event kind: a stream finished.
pub const NATIVE_METRICS_EVENT_FINISH: u32 = 1;

/// Version of the observation (v2) descriptor layout.
pub const NATIVE_METRICS_API_VERSION_V2: u16 = 2;

/// Version 2 event kind: one observation.
pub const NATIVE_METRICS_EVENT_OBSERVATION_V2: u32 = 1;

/// Version of the batch (v3) descriptor layout.
pub const NATIVE_METRICS_API_VERSION_V3: u16 = 3;

/// Version 3 batch kind: observations of finished streams.
pub const NATIVE_METRICS_EVENT_BATCH_V3: u32 = 1;

/// Version 3 batch kind: a periodic snapshot.
pub const NATIVE_METRICS_EVENT_SNAPSHOT_V3: u32 = 2;

/// Metric type: counter.
pub const NATIVE_METRIC_COUNTER_V2: u32 = 1;

/// Metric type: gauge.
pub const NATIVE_METRIC_GAUGE_V2: u32 = 2;

/// Metric type: histogram.
pub const NATIVE_METRIC_HISTOGRAM_V2: u32 = 3;

/// Temporality: the value is a delta since the previous report.
pub const NATIVE_METRIC_TEMPORALITY_DELTA_V2: u32 = 1;

/// Temporality: the value is cumulative.
pub const NATIVE_METRIC_TEMPORALITY_CUMULATIVE_V2: u32 = 2;

/// Most labels one v2 observation carries.
pub const NATIVE_METRICS_MAX_LABELS_V2: usize = 4;

/// Most observations one v3 batch carries.
pub const NATIVE_METRICS_MAX_EVENTS_V3: usize = 13;

/// One label of a v2 observation: a key and a value, each a borrowed byte range.
#[derive(Clone, Copy, Debug, Default)]
pub struct NativeMetricsLabelV2 {
    pub key: NativeFilterBytes,
    pub value: NativeFilterBytes,
}

/// A version 1 metrics provider descriptor, called once per finished stream.
///
/// `name` is the address of the provider name (0 stands for a null pointer);
/// the callback is the address of its code, `None` when absent.
#[derive(Clone, Copy, Debug)]
pub struct NativeMetricsDescriptor {
    pub magic: u32,
    pub version: u16,
    pub reserved: u16,
    pub size: u32,
    pub name: usize,
    pub name_len: usize,
    pub on_finish: Option<usize>,
}

impl NativeMetricsDescriptor {
    /// Size of the `#[repr(C)]` descriptor: the header and three pointer-sized
    /// fields (name, name length, callback).
    pub open spec fn c_size() -> int {
        c_descriptor_size(3, 0)
    }

    /// Byte size of the C layout of this descriptor on the target.
    pub fn abi_size() -> (r: u32)
        ensures
            r == Self::c_size(),
    {
        descriptor_size(3, 0)
    }

    /// The descriptor is of its API version and complete.
    pub open spec fn compatible(&self) -> bool {
        &&& self.magic == NATIVE_METRICS_API_MAGIC
        &&& self.version == NATIVE_METRICS_API_VERSION
        &&& self.reserved == 0
        &&& self.size >= Self::c_size()
        &&& self.name != 0
        &&& self.name_len != 0
        &&& self.on_finish is Some
    }

    /// Checks that the descriptor is of its API version and complete.
    pub fn is_compatible(&self) -> (r: bool)
        ensures
            r == self.compatible(),
            r ==> self.on_finish is Some,
            r ==> self.magic == NATIVE_METRICS_API_MAGIC && self.version == NATIVE_METRICS_API_VERSION
                && self.reserved == 0 && self.size >= Self::c_size() && self.name != 0
                && self.name_len != 0,
            self.magic == NATIVE_METRICS_API_MAGIC && self.version == NATIVE_METRICS_API_VERSION
                && self.reserved == 0 && self.size >= Self::c_size() && self.name != 0
                && self.name_len != 0 && self.on_finish is Some ==> r,
    {
        self.magic == NATIVE_METRICS_API_MAGIC && self.version == NATIVE_METRICS_API_VERSION
            && self.reserved == 0 && self.size >= Self::abi_size() && self.name != 0
            && self.name_len != 0 && self.on_finish.is_some()
    }
}

/// A version 2 metrics provider descriptor, called once per typed observation.
///
/// `name` is the address of the provider name (0 stands for a null pointer);
/// the callback is the address of its code, `None` when absent.
#[derive(Clone, Copy, Debug)]
pub struct NativeMetricsDescriptorV2 {
    pub magic: u32,
    pub version: u16,
    pub reserved: u16,
    pub size: u32,
    pub name: usize,
    pub name_len: usize,
    pub on_observation: Option<usize>,
}

impl NativeMetricsDescriptorV2 {
    /// Size of the `#[repr(C)]` descriptor: the header and three pointer-sized
    /// fields (name, name length, callback).
    pub open spec fn c_size() -> int {
        c_descriptor_size(3, 0)
    }

    /// Byte size of the C layout of this descriptor on the target.
    pub fn abi_size() -> (r: u32)
        ensures
            r == Self::c_size(),
    {
        descriptor_size(3, 0)
    }

    /// The descriptor is of its API version and complete.
    pub open spec fn compatible(&self) -> bool {
        &&& self.magic == NATIVE_METRICS_API_MAGIC
        &&& self.version == NATIVE_METRICS_API_VERSION_V2
        &&& self.reserved == 0
        &&& self.size >= Self::c_size()
        &&& self.name != 0
        &&& self.name_len != 0
        &&& self.on_observation is Some
    }

    /// Checks that the descriptor is of its API version and complete.
    pub fn is_compatible(&self) -> (r: bool)
        ensures
            r == self.compatible(),
            r ==> self.on_observation is Some,
            r ==> self.magic == NATIVE_METRICS_API_MAGIC && self.version == NATIVE_METRICS_API_VERSION_V2
                && self.reserved == 0 && self.size >= Self::c_size() && self.name != 0
                && self.name_len != 0,
            self.magic == NATIVE_METRICS_API_MAGIC && self.version == NATIVE_METRICS_API_VERSION_V2
                && self.reserved == 0 && self.size >= Self::c_size() && self.name != 0
                && self.name_len != 0 && self.on_observation is Some ==> r,
    {
        self.magic == NATIVE_METRICS_API_MAGIC && self.version == NATIVE_METRICS_API_VERSION_V2
            && self.reserved == 0 && self.size >= Self::abi_size() && self.name != 0
            && self.name_len != 0 && self.on_observation.is_some()
    }
}

/// A version 3 metrics provider descriptor, called once per batch of observations.
///
/// `name` is the address of the provider name (0 stands for a null pointer);
/// the callback is the address of its code, `None` when absent.
#[derive(Clone, Copy, Debug)]
pub struct NativeMetricsDescriptorV3 {
    pub magic: u32,
    pub version: u16,
    pub reserved: u16,
    pub size: u32,
    pub name: usize,
    pub name_len: usize,
    pub on_batch: Option<usize>,
}

impl NativeMetricsDescriptorV3 {
    /// Size of the `#[repr(C)]` descriptor: the header and three pointer-sized
    /// fields (name, name length, callback).
    pub open spec fn c_size() -> int {
        c_descriptor_size(3, 0)
    }

    /// Byte size of the C layout of this descriptor on the target.
    pub fn abi_size() -> (r: u32)
        ensures
            r == Self::c_size(),
    {
        descriptor_size(3, 0)
    }

    /// The descriptor is of its API version and complete.
    pub open spec fn compatible(&self) -> bool {
        &&& self.magic == NATIVE_METRICS_API_MAGIC
        &&& self.version == NATIVE_METRICS_API_VERSION_V3
        &&& self.reserved == 0
        &&& self.size >= Self::c_size()
        &&& self.name != 0
        &&& self.name_len != 0
        &&& self.on_batch is Some
    }

    /// Checks that the descriptor is of its API version and complete.
    pub fn is_compatible(&self) -> (r: bool)
        ensures
            r == self.compatible(),
            r ==> self.on_batch is Some,
            r ==> self.magic == NATIVE_METRICS_API_MAGIC && self.version == NATIVE_METRICS_API_VERSION_V3
                && self.reserved == 0 && self.size >= Self::c_size() && self.name != 0
                && self.name_len != 0,
            self.magic == NATIVE_METRICS_API_MAGIC && self.version == NATIVE_METRICS_API_VERSION_V3
                && self.reserved == 0 && self.size >= Self::c_size() && self.name != 0
                && self.name_len != 0 && self.on_batch is Some ==> r,
    {
        self.magic == NATIVE_METRICS_API_MAGIC && self.version == NATIVE_METRICS_API_VERSION_V3
            && self.reserved == 0 && self.size >= Self::abi_size() && self.name != 0
            && self.name_len != 0 && self.on_batch.is_some()
    }
}

/// A `NativeMetricsDescriptor` without its `on_finish` callback, naming no provider, or of
/// another magic, version or a smaller size is never compatible.
pub proof fn metrics_descriptor_without_finish_is_invalid(descriptor: NativeMetricsDescriptor)
    requires
        descriptor.on_finish is None || descriptor.name == 0 || descriptor.name_len == 0
            || descriptor.magic != NATIVE_METRICS_API_MAGIC || descriptor.version != NATIVE_METRICS_API_VERSION
            || descriptor.reserved != 0 || descriptor.size < NativeMetricsDescriptor::c_size(),
    ensures
        !descriptor.compatible(),
{
}

/// A `NativeMetricsDescriptorV2` without its `on_observation` callback, naming no provider, or of
/// another magic, version or a smaller size is never compatible.
pub proof fn metrics_descriptor_v2_without_observation_is_invalid(descriptor: NativeMetricsDescriptorV2)
    requires
        descriptor.on_observation is None || descriptor.name == 0 || descriptor.name_len == 0
            || descriptor.magic != NATIVE_METRICS_API_MAGIC || descriptor.version != NATIVE_METRICS_API_VERSION_V2
            || descriptor.reserved != 0 || descriptor.size < NativeMetricsDescriptorV2::c_size(),
    ensures
        !descriptor.compatible(),
{
}

/// A `NativeMetricsDescriptorV3` without its `on_batch` callback, naming no provider, or of
/// another magic, version or a smaller size is never compatible.
pub proof fn metrics_descriptor_v3_without_batch_is_invalid(descriptor: NativeMetricsDescriptorV3)
    requires
        descriptor.on_batch is None || descriptor.name == 0 || descriptor.name_len == 0
            || descriptor.magic != NATIVE_METRICS_API_MAGIC || descriptor.version != NATIVE_METRICS_API_VERSION_V3
            || descriptor.reserved != 0 || descriptor.size < NativeMetricsDescriptorV3::c_size(),
    ensures
        !descriptor.compatible(),
{
}

} // verus!
