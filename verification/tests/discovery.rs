use local_control::discovery::{compatible_actionable_records, is_record_file_name, DiscoveryRecord};
use local_control::protocol::PROTOCOL_VERSION;

fn enabled_record(id: &str, pid: u32) -> DiscoveryRecord {
    DiscoveryRecord {
        instance_id: id.to_owned(),
        pid,
        channel: "dev".to_owned(),
        app_version: "1".to_owned(),
        protocol_version: PROTOCOL_VERSION,
        started_at_unix_ms: 1,
        outside_warp_control_enabled: true,
        endpoint: Some("http://127.0.0.1:1".to_owned()),
        implemented_actions: vec!["app.ping".to_owned()],
    }
}

#[test]
fn actionable_records_require_enabled_endpoint() {
    let disabled = DiscoveryRecord::disabled("disabled", 1);
    let enabled = enabled_record("enabled", 1);
    assert_eq!(
        compatible_actionable_records(&[disabled, enabled.clone()]),
        vec![enabled]
    );
}

#[test]
fn disabled_record_has_no_actionable_endpoint() {
    let record = DiscoveryRecord::disabled("instance", 123);
    assert!(!record.is_actionable());
    assert_eq!(record.endpoint, None);
    assert!(record.implemented_actions.is_empty());
    assert_eq!(record.instance_id, "instance");
    assert_eq!(record.pid, 123);
}

#[test]
fn incompatible_records_are_stale_and_not_offered() {
    let mut record = enabled_record("old", 7);
    record.protocol_version = PROTOCOL_VERSION + 1;
    assert!(record.is_stale());
    assert!(!record.is_compatible());
    assert!(compatible_actionable_records(&[record]).is_empty());
    let dead = DiscoveryRecord::disabled("dead", 0);
    assert!(dead.is_stale());
    assert!(!enabled_record("live", 3).is_stale());
}

#[test]
fn record_file_names_end_in_json() {
    assert_eq!(enabled_record("abc", 1).file_name(), "abc.json");
    assert!(is_record_file_name("abc.json"));
    assert!(is_record_file_name("a.b.json"));
    assert!(!is_record_file_name(".json"));
    assert!(!is_record_file_name("abc.json.tmp"));
    assert!(!is_record_file_name("abc.JSON"));
    assert!(!is_record_file_name("json"));
}

#[test]
fn records_of_processes_that_are_gone_are_stale() {
    let live = enabled_record("live", 3);
    assert!(!live.is_stale_given(true));
    assert!(live.is_stale_given(false));
    let mut no_pid = enabled_record("none", 0);
    assert!(no_pid.is_stale_given(true));
    no_pid.pid = 4;
    assert!(!no_pid.is_stale_given(true));
}

#[test]
fn selecting_twice_keeps_the_selection() {
    let mut off = enabled_record("off", 5);
    off.outside_warp_control_enabled = false;
    let records = vec![enabled_record("a", 1), off, enabled_record("b", 2)];
    let once = compatible_actionable_records(&records);
    let twice = compatible_actionable_records(&once);
    assert_eq!(once, twice);
    assert_eq!(once.len(), 2);
}
