//! Tests for the static metric registry tables.

use glean_core::internal_metrics::{
    CommonMetricData, CoreMetrics, DatabaseMetrics, Lifetime, MemoryUnit, TimeUnit, UploadMetrics,
};

fn assert_descriptor(d: &CommonMetricData, name: &str, category: &str, ping: &str, lifetime: Lifetime) {
    assert_eq!(d.name, name);
    assert_eq!(d.category, category);
    assert_eq!(d.send_in_pings, vec![ping.to_string()]);
    assert_eq!(d.lifetime, lifetime);
    assert!(!d.disabled);
    assert!(d.dynamic_label.is_none());
}

#[test]
fn core_metrics_descriptors() {
    let m = CoreMetrics::new();
    assert_descriptor(&m.client_id.data, "client_id", "", "glean_client_info", Lifetime::User);
    assert_descriptor(
        &m.first_run_date.data,
        "first_run_date",
        "",
        "glean_client_info",
        Lifetime::User,
    );
    assert_eq!(m.first_run_date.time_unit, TimeUnit::Day);
    assert_descriptor(&m.os.data, "os", "", "glean_client_info", Lifetime::Application);
    assert_descriptor(&m.os_version.data, "os_version", "", "glean_client_info", Lifetime::Application);
    assert_descriptor(
        &m.device_manufacturer.data,
        "device_manufacturer",
        "",
        "glean_client_info",
        Lifetime::Application,
    );
    assert_descriptor(
        &m.device_model.data,
        "device_model",
        "",
        "glean_client_info",
        Lifetime::Application,
    );
    assert_descriptor(
        &m.architecture.data,
        "architecture",
        "",
        "glean_client_info",
        Lifetime::Application,
    );
    assert_descriptor(&m.app_build.data, "app_build", "", "glean_client_info", Lifetime::Application);
    assert_descriptor(
        &m.app_display_version.data,
        "app_display_version",
        "",
        "glean_client_info",
        Lifetime::Application,
    );
    assert_descriptor(
        &m.app_channel.data,
        "app_channel",
        "",
        "glean_client_info",
        Lifetime::Application,
    );
    assert_descriptor(&m.locale.data, "locale", "", "glean_client_info", Lifetime::Application);
}

#[test]
fn upload_metrics_descriptors() {
    let m = UploadMetrics::new();
    assert_descriptor(
        &m.ping_upload_failure.submetric.data,
        "ping_upload_failure",
        "glean.upload",
        "metrics",
        Lifetime::Ping,
    );
    assert_eq!(
        m.ping_upload_failure.labels,
        Some(vec![
            "status_code_4xx".to_string(),
            "status_code_5xx".to_string(),
            "status_code_unknown".to_string(),
            "unrecoverable".to_string(),
            "recoverable".to_string(),
        ])
    );
    assert_descriptor(
        &m.discarded_exceeding_pings_size.data,
        "discarded_exceeding_ping_size",
        "glean.upload",
        "metrics",
        Lifetime::Ping,
    );
    assert_eq!(m.discarded_exceeding_pings_size.memory_unit, MemoryUnit::Kilobyte);
    assert_descriptor(
        &m.pending_pings_directory_size.data,
        "pending_pings_directory_size",
        "glean.upload",
        "metrics",
        Lifetime::Ping,
    );
    assert_eq!(m.pending_pings_directory_size.memory_unit, MemoryUnit::Kilobyte);
    assert_descriptor(
        &m.deleted_pings_after_quota_hit.data,
        "deleted_pings_after_quota_hit",
        "glean.upload",
        "metrics",
        Lifetime::Ping,
    );
}

#[test]
fn database_metrics_descriptors() {
    let m = DatabaseMetrics::new();
    assert_descriptor(&m.size.data, "size", "glean.database", "metrics", Lifetime::Ping);
    assert_eq!(m.size.memory_unit, MemoryUnit::Byte);
}

fn descriptors_agree(a: &CommonMetricData, b: &CommonMetricData) {
    assert_eq!(a.name, b.name);
    assert_eq!(a.category, b.category);
    assert_eq!(a.send_in_pings, b.send_in_pings);
    assert_eq!(a.lifetime, b.lifetime);
    assert_eq!(a.disabled, b.disabled);
    assert_eq!(a.dynamic_label, b.dynamic_label);
}

#[test]
fn registry_construction_is_deterministic() {
    let a = CoreMetrics::new();
    let b = CoreMetrics::new();
    descriptors_agree(&a.client_id.data, &b.client_id.data);
    descriptors_agree(&a.first_run_date.data, &b.first_run_date.data);
    assert_eq!(a.first_run_date.time_unit, b.first_run_date.time_unit);
    descriptors_agree(&a.os.data, &b.os.data);
    descriptors_agree(&a.os_version.data, &b.os_version.data);
    descriptors_agree(&a.device_manufacturer.data, &b.device_manufacturer.data);
    descriptors_agree(&a.device_model.data, &b.device_model.data);
    descriptors_agree(&a.architecture.data, &b.architecture.data);
    descriptors_agree(&a.app_build.data, &b.app_build.data);
    descriptors_agree(&a.app_display_version.data, &b.app_display_version.data);
    descriptors_agree(&a.app_channel.data, &b.app_channel.data);
    descriptors_agree(&a.locale.data, &b.locale.data);

    let ua = UploadMetrics::new();
    let ub = UploadMetrics::new();
    descriptors_agree(
        &ua.ping_upload_failure.submetric.data,
        &ub.ping_upload_failure.submetric.data,
    );
    assert_eq!(ua.ping_upload_failure.labels, ub.ping_upload_failure.labels);
    descriptors_agree(
        &ua.discarded_exceeding_pings_size.data,
        &ub.discarded_exceeding_pings_size.data,
    );
    descriptors_agree(
        &ua.pending_pings_directory_size.data,
        &ub.pending_pings_directory_size.data,
    );
    descriptors_agree(
        &ua.deleted_pings_after_quota_hit.data,
        &ub.deleted_pings_after_quota_hit.data,
    );

    let da = DatabaseMetrics::new();
    let db = DatabaseMetrics::new();
    descriptors_agree(&da.size.data, &db.size.data);
    assert_eq!(da.size.memory_unit, db.size.memory_unit);
}
