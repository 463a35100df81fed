//! The static metric registry: fixed tables of named metric descriptors
//! grouped by subsystem, built once from literal configuration and handed to
//! the telemetry instance as read-only data.

use vstd::prelude::*;

verus! {

/// Classification of how long a recorded metric value persists.
#[derive(Debug, PartialEq, Eq, Structural, Clone, Copy)]
pub enum Lifetime {
    /// The value is cleared after every ping that carries it.
    Ping,
    /// The value persists for one application run.
    Application,
    /// The value persists for the lifetime of the user profile.
    User,
}

/// Immutable metadata identifying one metric and its destination.
#[derive(Debug)]
pub struct CommonMetricData {
    pub name: String,
    pub category: String,
    pub send_in_pings: Vec<String>,
    pub lifetime: Lifetime,
    pub disabled: bool,
    pub dynamic_label: Option<String>,
}

/// Holds when a descriptor carries exactly the given identity: the given
/// name and category, a single destination ping, the given lifetime, and is
/// enabled with no dynamic label.
pub open spec fn descriptor_is(
    d: CommonMetricData,
    name: Seq<char>,
    category: Seq<char>,
    ping: Seq<char>,
    lifetime: Lifetime,
) -> bool {
    &&& d.name@ == name
    &&& d.category@ == category
    &&& d.send_in_pings@.len() == 1
    &&& d.send_in_pings@[0]@ == ping
    &&& d.lifetime == lifetime
    &&& !d.disabled
    &&& d.dynamic_label is None
}

/// Holds when two descriptors carry the same identity: equal names,
/// categories, destination ping lists, lifetimes, disabled flags and dynamic
/// labels.
pub open spec fn descriptors_agree(a: CommonMetricData, b: CommonMetricData) -> bool {
    &&& a.name@ == b.name@
    &&& a.category@ == b.category@
    &&& a.send_in_pings@.len() == b.send_in_pings@.len()
    &&& (forall|i: int|
        0 <= i < a.send_in_pings@.len() ==> #[trigger] a.send_in_pings@[i]@
            == b.send_in_pings@[i]@)
    &&& a.lifetime == b.lifetime
    &&& a.disabled == b.disabled
    &&& a.dynamic_label is Some <==> b.dynamic_label is Some
}

/// Builds a descriptor with a single destination ping, enabled, no dynamic
/// label.
fn descriptor(name: &str, category: &str, ping: &str, lifetime: Lifetime) -> (d: CommonMetricData)
    ensures
        descriptor_is(d, name@, category@, ping@, lifetime),
{
    let mut pings: Vec<String> = Vec::new();
    pings.push(ping.to_owned());
    CommonMetricData {
        name: name.to_owned(),
        category: category.to_owned(),
        send_in_pings: pings,
        lifetime,
        disabled: false,
        dynamic_label: None,
    }
}

/// Granularity a datetime metric is truncated to.
#[derive(Debug, PartialEq, Eq, Structural, Clone, Copy)]
pub enum TimeUnit {
    Nanosecond,
    Microsecond,
    Millisecond,
    Second,
    Minute,
    Hour,
    Day,
}

/// Unit a memory distribution's samples are recorded in.
#[derive(Debug, PartialEq, Eq, Structural, Clone, Copy)]
pub enum MemoryUnit {
    Byte,
    Kilobyte,
    Megabyte,
    Gigabyte,
}

/// A UUID metric's descriptor and accessor.
#[derive(Debug)]
pub struct UuidMetric {
    pub data: CommonMetricData,
}

impl UuidMetric {
    pub fn new(data: CommonMetricData) -> (r: Self)
        ensures
            r.data == data,
    {
        UuidMetric { data }
    }
}

/// A string metric's descriptor and accessor.
#[derive(Debug)]
pub struct StringMetric {
    pub data: CommonMetricData,
}

impl StringMetric {
    pub fn new(data: CommonMetricData) -> (r: Self)
        ensures
            r.data == data,
    {
        StringMetric { data }
    }
}

/// A counter metric's descriptor and accessor.
#[derive(Debug)]
pub struct CounterMetric {
    pub data: CommonMetricData,
}

impl CounterMetric {
    pub fn new(data: CommonMetricData) -> (r: Self)
        ensures
            r.data == data,
    {
        CounterMetric { data }
    }
}

/// A datetime metric's descriptor and accessor, truncated to a time unit.
#[derive(Debug)]
pub struct DatetimeMetric {
    pub data: CommonMetricData,
    pub time_unit: TimeUnit,
}

impl DatetimeMetric {
    pub fn new(data: CommonMetricData, time_unit: TimeUnit) -> (r: Self)
        ensures
            r.data == data,
            r.time_unit == time_unit,
    {
        DatetimeMetric { data, time_unit }
    }
}

/// A memory distribution metric's descriptor and accessor, with the unit its
/// samples are recorded in.
#[derive(Debug)]
pub struct MemoryDistributionMetric {
    pub data: CommonMetricData,
    pub memory_unit: MemoryUnit,
}

impl MemoryDistributionMetric {
    pub fn new(data: CommonMetricData, memory_unit: MemoryUnit) -> (r: Self)
        ensures
            r.data == data,
            r.memory_unit == memory_unit,
    {
        MemoryDistributionMetric { data, memory_unit }
    }
}

/// A labeled wrapper around a submetric: one stored value per allowed label.
#[derive(Debug)]
pub struct LabeledMetric<T> {
    pub submetric: T,
    pub labels: Option<Vec<String>>,
}

impl<T> LabeledMetric<T> {
    pub fn new(submetric: T, labels: Option<Vec<String>>) -> (r: Self)
        ensures
            r.submetric == submetric,
            r.labels == labels,
    {
        LabeledMetric { submetric, labels }
    }
}

/// The core client-info metrics: identity and platform descriptors carried
/// by the client-info ping section.
#[derive(Debug)]
pub struct CoreMetrics {
    pub client_id: UuidMetric,
    pub first_run_date: DatetimeMetric,
    pub os: StringMetric,
    // Provided by the language bindings
    pub os_version: StringMetric,
    pub device_manufacturer: StringMetric,
    pub device_model: StringMetric,
    pub architecture: StringMetric,
    pub app_build: StringMetric,
    pub app_display_version: StringMetric,
    pub app_channel: StringMetric,
    pub locale: StringMetric,
}

/// The exact descriptor table `CoreMetrics::new` builds: every value is
/// pinned, so construction is deterministic.
pub open spec fn core_metrics_built(m: CoreMetrics) -> bool {
    &&& descriptor_is(m.client_id.data, "client_id"@, ""@, "glean_client_info"@, Lifetime::User)
    &&& descriptor_is(
        m.first_run_date.data,
        "first_run_date"@,
        ""@,
        "glean_client_info"@,
        Lifetime::User,
    )
    &&& m.first_run_date.time_unit == TimeUnit::Day
    &&& descriptor_is(m.os.data, "os"@, ""@, "glean_client_info"@, Lifetime::Application)
    &&& descriptor_is(
        m.os_version.data,
        "os_version"@,
        ""@,
        "glean_client_info"@,
        Lifetime::Application,
    )
    &&& descriptor_is(
        m.device_manufacturer.data,
        "device_manufacturer"@,
        ""@,
        "glean_client_info"@,
        Lifetime::Application,
    )
    &&& descriptor_is(
        m.device_model.data,
        "device_model"@,
        ""@,
        "glean_client_info"@,
        Lifetime::Application,
    )
    &&& descriptor_is(
        m.architecture.data,
        "architecture"@,
        ""@,
        "glean_client_info"@,
        Lifetime::Application,
    )
    &&& descriptor_is(
        m.app_build.data,
        "app_build"@,
        ""@,
        "glean_client_info"@,
        Lifetime::Application,
    )
    &&& descriptor_is(
        m.app_display_version.data,
        "app_display_version"@,
        ""@,
        "glean_client_info"@,
        Lifetime::Application,
    )
    &&& descriptor_is(
        m.app_channel.data,
        "app_channel"@,
        ""@,
        "glean_client_info"@,
        Lifetime::Application,
    )
    &&& descriptor_is(m.locale.data, "locale"@, ""@, "glean_client_info"@, Lifetime::Application)
}

impl CoreMetrics {
    pub fn new() -> (m: CoreMetrics)
        ensures
            core_metrics_built(m),
    {
        CoreMetrics {
            client_id: UuidMetric::new(
                descriptor("client_id", "", "glean_client_info", Lifetime::User),
            ),
            first_run_date: DatetimeMetric::new(
                descriptor("first_run_date", "", "glean_client_info", Lifetime::User),
                TimeUnit::Day,
            ),
            os: StringMetric::new(descriptor("os", "", "glean_client_info", Lifetime::Application)),
            os_version: StringMetric::new(
                descriptor("os_version", "", "glean_client_info", Lifetime::Application),
            ),
            device_manufacturer: StringMetric::new(
                descriptor("device_manufacturer", "", "glean_client_info", Lifetime::Application),
            ),
            device_model: StringMetric::new(
                descriptor("device_model", "", "glean_client_info", Lifetime::Application),
            ),
            architecture: StringMetric::new(
                descriptor("architecture", "", "glean_client_info", Lifetime::Application),
            ),
            app_build: StringMetric::new(
                descriptor("app_build", "", "glean_client_info", Lifetime::Application),
            ),
            app_display_version: StringMetric::new(
                descriptor("app_display_version", "", "glean_client_info", Lifetime::Application),
            ),
            app_channel: StringMetric::new(
                descriptor("app_channel", "", "glean_client_info", Lifetime::Application),
            ),
            locale: StringMetric::new(
                descriptor("locale", "", "glean_client_info", Lifetime::Application),
            ),
        }
    }
}

/// The upload-subsystem metrics: failure counters and size distributions for
/// the ping uploader.
#[derive(Debug)]
pub struct UploadMetrics {
    pub ping_upload_failure: LabeledMetric<CounterMetric>,
    pub discarded_exceeding_pings_size: MemoryDistributionMetric,
    pub pending_pings_directory_size: MemoryDistributionMetric,
    pub deleted_pings_after_quota_hit: CounterMetric,
}

/// The exact descriptor table `UploadMetrics::new` builds.
pub open spec fn upload_metrics_built(m: UploadMetrics) -> bool {
    &&& descriptor_is(
        m.ping_upload_failure.submetric.data,
        "ping_upload_failure"@,
        "glean.upload"@,
        "metrics"@,
        Lifetime::Ping,
    )
    &&& (m.ping_upload_failure.labels matches Some(ls) && {
        &&& ls@.len() == 5
        &&& ls@[0]@ == "status_code_4xx"@
        &&& ls@[1]@ == "status_code_5xx"@
        &&& ls@[2]@ == "status_code_unknown"@
        &&& ls@[3]@ == "unrecoverable"@
        &&& ls@[4]@ == "recoverable"@
    })
    &&& descriptor_is(
        m.discarded_exceeding_pings_size.data,
        "discarded_exceeding_ping_size"@,
        "glean.upload"@,
        "metrics"@,
        Lifetime::Ping,
    )
    &&& m.discarded_exceeding_pings_size.memory_unit == MemoryUnit::Kilobyte
    &&& descriptor_is(
        m.pending_pings_directory_size.data,
        "pending_pings_directory_size"@,
        "glean.upload"@,
        "metrics"@,
        Lifetime::Ping,
    )
    &&& m.pending_pings_directory_size.memory_unit == MemoryUnit::Kilobyte
    &&& descriptor_is(
        m.deleted_pings_after_quota_hit.data,
        "deleted_pings_after_quota_hit"@,
        "glean.upload"@,
        "metrics"@,
        Lifetime::Ping,
    )
}

impl UploadMetrics {
    pub fn new() -> (m: UploadMetrics)
        ensures
            upload_metrics_built(m),
    {
        let mut labels: Vec<String> = Vec::new();
        labels.push("status_code_4xx".to_owned());
        labels.push("status_code_5xx".to_owned());
        labels.push("status_code_unknown".to_owned());
        labels.push("unrecoverable".to_owned());
        labels.push("recoverable".to_owned());
        UploadMetrics {
            ping_upload_failure: LabeledMetric::new(
                CounterMetric::new(
                    descriptor("ping_upload_failure", "glean.upload", "metrics", Lifetime::Ping),
                ),
                Some(labels),
            ),
            discarded_exceeding_pings_size: MemoryDistributionMetric::new(
                descriptor(
                    "discarded_exceeding_ping_size",
                    "glean.upload",
                    "metrics",
                    Lifetime::Ping,
                ),
                MemoryUnit::Kilobyte,
            ),
            pending_pings_directory_size: MemoryDistributionMetric::new(
                descriptor(
                    "pending_pings_directory_size",
                    "glean.upload",
                    "metrics",
                    Lifetime::Ping,
                ),
                MemoryUnit::Kilobyte,
            ),
            deleted_pings_after_quota_hit: CounterMetric::new(
                descriptor(
                    "deleted_pings_after_quota_hit",
                    "glean.upload",
                    "metrics",
                    Lifetime::Ping,
                ),
            ),
        }
    }
}

/// The database-subsystem metrics: the size of the on-disk store.
#[derive(Debug)]
pub struct DatabaseMetrics {
    pub size: MemoryDistributionMetric,
}

/// The exact descriptor table `DatabaseMetrics::new` builds.
pub open spec fn database_metrics_built(m: DatabaseMetrics) -> bool {
    &&& descriptor_is(m.size.data, "size"@, "glean.database"@, "metrics"@, Lifetime::Ping)
    &&& m.size.memory_unit == MemoryUnit::Byte
}

impl DatabaseMetrics {
    pub fn new() -> (m: DatabaseMetrics)
        ensures
            database_metrics_built(m),
    {
        DatabaseMetrics {
            size: MemoryDistributionMetric::new(
                descriptor("size", "glean.database", "metrics", Lifetime::Ping),
                MemoryUnit::Byte,
            ),
        }
    }
}

/// Law: registry construction is deterministic. Any two descriptor tables
/// the core-metrics constructor can return agree on every descriptor's name,
/// category, ping list and lifetime, and on every type-specific option.
pub proof fn lemma_core_metrics_deterministic(a: CoreMetrics, b: CoreMetrics)
    requires
        core_metrics_built(a),
        core_metrics_built(b),
    ensures
        descriptors_agree(a.client_id.data, b.client_id.data),
        descriptors_agree(a.first_run_date.data, b.first_run_date.data),
        a.first_run_date.time_unit == b.first_run_date.time_unit,
        descriptors_agree(a.os.data, b.os.data),
        descriptors_agree(a.os_version.data, b.os_version.data),
        descriptors_agree(a.device_manufacturer.data, b.device_manufacturer.data),
        descriptors_agree(a.device_model.data, b.device_model.data),
        descriptors_agree(a.architecture.data, b.architecture.data),
        descriptors_agree(a.app_build.data, b.app_build.data),
        descriptors_agree(a.app_display_version.data, b.app_display_version.data),
        descriptors_agree(a.app_channel.data, b.app_channel.data),
        descriptors_agree(a.locale.data, b.locale.data),
{
}

/// Law: registry construction is deterministic, upload subsystem. Two tables
/// the upload-metrics constructor can return agree on every descriptor and
/// on the allowed-label list.
pub proof fn lemma_upload_metrics_deterministic(a: UploadMetrics, b: UploadMetrics)
    requires
        upload_metrics_built(a),
        upload_metrics_built(b),
    ensures
        descriptors_agree(
            a.ping_upload_failure.submetric.data,
            b.ping_upload_failure.submetric.data,
        ),
        (a.ping_upload_failure.labels matches Some(la) && b.ping_upload_failure.labels matches Some(
            lb,
        ) && la@.len() == lb@.len() && (forall|i: int|
            0 <= i < la@.len() ==> #[trigger] la@[i]@ == lb@[i]@)),
        descriptors_agree(
            a.discarded_exceeding_pings_size.data,
            b.discarded_exceeding_pings_size.data,
        ),
        a.discarded_exceeding_pings_size.memory_unit == b.discarded_exceeding_pings_size.memory_unit,
        descriptors_agree(a.pending_pings_directory_size.data, b.pending_pings_directory_size.data),
        a.pending_pings_directory_size.memory_unit == b.pending_pings_directory_size.memory_unit,
        descriptors_agree(
            a.deleted_pings_after_quota_hit.data,
            b.deleted_pings_after_quota_hit.data,
        ),
{
}

/// Law: registry construction is deterministic, database subsystem.
pub proof fn lemma_database_metrics_deterministic(a: DatabaseMetrics, b: DatabaseMetrics)
    requires
        database_metrics_built(a),
        database_metrics_built(b),
    ensures
        descriptors_agree(a.size.data, b.size.data),
        a.size.memory_unit == b.size.memory_unit,
{
}

} // verus!
