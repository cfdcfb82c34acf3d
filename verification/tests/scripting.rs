use local_control::scripting::{
    utc_instant_of,
    ScriptingGrant, ScriptingIdentitySource, ScriptingScope, UtcTimestamp,
};

fn grant(expires_at: UtcTimestamp) -> ScriptingGrant {
    ScriptingGrant {
        source: ScriptingIdentitySource::ExternalApiKey { key_id: "k".to_owned() },
        subject: "user".to_owned(),
        scopes: vec![ScriptingScope::LocalControlRead, ScriptingScope::LocalControlMutateAppState],
        issued_at: UtcTimestamp { seconds: 0, nanos: 0 },
        expires_at,
    }
}

#[test]
fn grants_expire_at_their_expiry_instant() {
    let g = grant(UtcTimestamp { seconds: 100, nanos: 500 });
    assert!(!g.is_expired_at(UtcTimestamp { seconds: 100, nanos: 499 }));
    assert!(g.is_expired_at(UtcTimestamp { seconds: 100, nanos: 500 }));
    assert!(g.is_expired_at(UtcTimestamp { seconds: 101, nanos: 0 }));
    assert!(!g.is_expired_at(UtcTimestamp { seconds: 99, nanos: 999_999_999 }));
}

#[test]
fn wall_clock_expiry_uses_the_current_time() {
    assert!(grant(UtcTimestamp { seconds: 1, nanos: 0 }).is_expired());
    assert!(!grant(UtcTimestamp { seconds: i64::MAX, nanos: 0 }).is_expired());
}

#[test]
fn scopes_are_looked_up_exactly() {
    let g = grant(UtcTimestamp { seconds: 0, nanos: 0 });
    assert!(g.has_scope(&ScriptingScope::LocalControlRead));
    assert!(!g.has_scope(&ScriptingScope::LocalControlMutateUnderlyingData));
}

#[test]
fn clock_readings_become_instants_and_unreadable_clocks_count_as_lapsed() {
    assert_eq!(utc_instant_of(Some((5, 7))), Some(UtcTimestamp { seconds: 5, nanos: 7 }));
    assert_eq!(utc_instant_of(None), None);
    assert_eq!(utc_instant_of(Some((u64::MAX, 0))), None);
    let g = grant(UtcTimestamp { seconds: 100, nanos: 0 });
    assert!(g.is_expired_given(None));
    assert!(!g.is_expired_given(Some(UtcTimestamp { seconds: 99, nanos: 0 })));
    assert!(g.is_expired_given(Some(UtcTimestamp { seconds: 100, nanos: 0 })));
}
