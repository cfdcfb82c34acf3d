use local_control::discovery::DiscoveryRecord;
use local_control::protocol::{ErrorCode, InstanceId, PROTOCOL_VERSION};
use local_control::selection::{select_instance, InstanceSelector};

fn record(id: &str, pid: u32) -> DiscoveryRecord {
    DiscoveryRecord {
        instance_id: id.into(),
        pid,
        channel: "dev".into(),
        app_version: "1".into(),
        protocol_version: PROTOCOL_VERSION,
        started_at_unix_ms: 0,
        outside_warp_control_enabled: true,
        endpoint: Some("http://127.0.0.1:1".into()),
        implemented_actions: vec!["app.ping".into()],
    }
}

#[test]
fn default_selection_handles_zero_one_many() {
    assert_eq!(
        select_instance(&[], &InstanceSelector::Default),
        Err(ErrorCode::NoInstance)
    );
    let one = vec![record("a", 1)];
    assert_eq!(
        select_instance(&one, &InstanceSelector::Default)
            .unwrap()
            .instance_id,
        "a"
    );
    let many = vec![record("a", 1), record("b", 2)];
    assert_eq!(
        select_instance(&many, &InstanceSelector::Default),
        Err(ErrorCode::AmbiguousInstance)
    );
}

#[test]
fn explicit_id_and_pid_must_resolve_exactly() {
    let records = vec![record("a", 11), record("b", 12)];
    assert_eq!(
        select_instance(&records, &InstanceSelector::Id(InstanceId("b".into())))
            .unwrap()
            .pid,
        12
    );
    assert_eq!(
        select_instance(&records, &InstanceSelector::Pid(11))
            .unwrap()
            .instance_id,
        "a"
    );
    assert_eq!(
        select_instance(&records, &InstanceSelector::Pid(99)),
        Err(ErrorCode::NoInstance)
    );
}

#[test]
fn disabled_and_incompatible_instances_are_never_selected() {
    let mut old = record("old", 5);
    old.protocol_version = PROTOCOL_VERSION + 1;
    let records = vec![DiscoveryRecord::disabled("off", 4), old, record("live", 6)];
    assert_eq!(
        select_instance(&records, &InstanceSelector::Default).unwrap().instance_id,
        "live"
    );
    assert_eq!(
        select_instance(&records, &InstanceSelector::Pid(4)),
        Err(ErrorCode::NoInstance)
    );
    assert_eq!(
        select_instance(&records, &InstanceSelector::Id(InstanceId("old".into()))),
        Err(ErrorCode::NoInstance)
    );
    let twins = vec![record("x", 9), record("y", 9)];
    assert_eq!(
        select_instance(&twins, &InstanceSelector::Pid(9)),
        Err(ErrorCode::AmbiguousInstance)
    );
}
