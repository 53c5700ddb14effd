use eco_infra_aln_router::audit::{AuditError, AuditEvent, AuditLog, InMemoryAuditLog};
use eco_infra_aln_router::channel::ChannelError;
use eco_infra_aln_router::domain::{RoutingActionKind, SecurityZone, Timestamp};

fn event(event_id: &str, session_id: &str, magnitude_kw: i64, nanos: i64) -> AuditEvent {
    AuditEvent {
        event_id: event_id.to_string(),
        session_id: session_id.to_string(),
        command_id: "cmd-9".to_string(),
        actor_did: "did:example:alice".to_string(),
        zones: (SecurityZone::EcoCore, SecurityZone::GridOT),
        action: RoutingActionKind::ShedLoadMw,
        magnitude_kw,
        approved_by_human_did: None,
        decision: "ALLOWED".to_string(),
        timestamp: Timestamp { unix_nanos: nanos },
        hash_prev: Some("left by the caller".to_string()),
        hash_self: "left by the caller".to_string(),
    }
}

fn expected_hash(prev: &str, ev: &AuditEvent) -> String {
    let payload = format!(
        "{}|{}|{}|{}|{}|{}|{}|{}",
        prev,
        ev.event_id,
        ev.session_id,
        ev.command_id,
        ev.actor_did,
        ev.magnitude_kw,
        ev.decision,
        chrono::DateTime::from_timestamp_nanos(ev.timestamp.unix_nanos)
    );
    format!("{:x}", md5::compute(payload))
}

fn filled() -> InMemoryAuditLog {
    let mut log = InMemoryAuditLog::new();
    assert_eq!(log.append(event("e1", "s1", 50_000, 947_638_923_004_000_000)), Ok(()));
    assert_eq!(log.append(event("e2", "s2", -7, -1)), Ok(()));
    assert_eq!(log.append(event("e3", "s1", 0, i64::MAX)), Ok(()));
    assert_eq!(log.append(event("e4", "s1", i64::MIN, i64::MIN)), Ok(()));
    log
}

fn stored(log: &InMemoryAuditLog) -> Vec<AuditEvent> {
    let mut out = Vec::new();
    let mut i = 0;
    while let Some(ev) = log.get(i) {
        out.push(ev.clone());
        i += 1;
    }
    out
}

#[test]
fn hash_of_first_event_has_exact_value() {
    let ev = event("e1", "s1", 50_000, 947_638_923_004_000_000);
    let h = InMemoryAuditLog::compute_hash(None, &ev);
    let payload = "|e1|s1|cmd-9|did:example:alice|50000|ALLOWED|2000-01-12 01:02:03.004 UTC";
    assert_eq!(h, format!("{:x}", md5::compute(payload)));
    assert_eq!(h, expected_hash("", &ev));
    assert_eq!(h.len(), 32);
    assert!(h.chars().all(|c| c.is_ascii_digit() || ('a'..='f').contains(&c)));
}

#[test]
fn hash_ignores_the_hash_fields_of_the_event() {
    let mut a = event("e1", "s1", 5, 0);
    let mut b = event("e1", "s1", 5, 0);
    a.hash_prev = None;
    a.hash_self = String::new();
    b.hash_prev = Some("x".to_string());
    b.hash_self = "y".to_string();
    assert_eq!(InMemoryAuditLog::compute_hash(None, &a), InMemoryAuditLog::compute_hash(None, &b));
}

#[test]
fn hash_depends_on_every_canonical_field() {
    let base = event("e1", "s1", 5, 0);
    let h = InMemoryAuditLog::compute_hash(None, &base);
    let mut v = event("e1", "s1", 5, 0);
    v.event_id = "e2".to_string();
    assert_ne!(InMemoryAuditLog::compute_hash(None, &v), h);
    let mut v = event("e1", "s1", 5, 0);
    v.session_id = "s2".to_string();
    assert_ne!(InMemoryAuditLog::compute_hash(None, &v), h);
    let mut v = event("e1", "s1", 5, 0);
    v.command_id = "cmd-8".to_string();
    assert_ne!(InMemoryAuditLog::compute_hash(None, &v), h);
    let mut v = event("e1", "s1", 5, 0);
    v.actor_did = "did:example:bob".to_string();
    assert_ne!(InMemoryAuditLog::compute_hash(None, &v), h);
    let mut v = event("e1", "s1", 5, 0);
    v.magnitude_kw = 6;
    assert_ne!(InMemoryAuditLog::compute_hash(None, &v), h);
    let mut v = event("e1", "s1", 5, 0);
    v.decision = "PENDING_HITL".to_string();
    assert_ne!(InMemoryAuditLog::compute_hash(None, &v), h);
    let mut v = event("e1", "s1", 5, 0);
    v.timestamp = Timestamp { unix_nanos: 1 };
    assert_ne!(InMemoryAuditLog::compute_hash(None, &v), h);
    let mut prev = event("e0", "s1", 5, 0);
    prev.hash_self = "00ff".to_string();
    assert_ne!(InMemoryAuditLog::compute_hash(Some(&prev), &base), h);
    assert_eq!(InMemoryAuditLog::compute_hash(Some(&prev), &base), expected_hash("00ff", &base));
}

#[test]
fn append_links_each_event_to_its_predecessor() {
    let log = filled();
    let events = stored(&log);
    assert_eq!(log.len(), 4);
    assert_eq!(events.len(), 4);
    assert_eq!(events[0].hash_prev, None);
    assert_eq!(events[0].hash_self, expected_hash("", &events[0]));
    for i in 1..events.len() {
        assert_eq!(events[i].hash_prev, Some(events[i - 1].hash_self.clone()));
        assert_eq!(events[i].hash_self, expected_hash(&events[i - 1].hash_self, &events[i]));
    }
    assert_eq!(events[1].event_id, "e2");
    assert_eq!(events[1].magnitude_kw, -7);
    assert_eq!(events[3].timestamp, Timestamp { unix_nanos: i64::MIN });
}

#[test]
fn recomputation_reproduces_every_hash() {
    let log = filled();
    assert_eq!(log.verify(), None);
    assert_eq!(InMemoryAuditLog::verify_chain(&stored(&log)), None);
    assert_eq!(InMemoryAuditLog::new().verify(), None);
    assert_eq!(InMemoryAuditLog::verify_chain(&vec![]), None);
}

#[test]
fn verification_reports_the_first_divergent_index() {
    let good = stored(&filled());

    let mut changed = stored(&filled());
    changed[2].magnitude_kw = 1;
    assert_eq!(InMemoryAuditLog::verify_chain(&changed), Some(2));

    let mut changed = stored(&filled());
    changed[1].hash_self = good[0].hash_self.clone();
    assert_eq!(InMemoryAuditLog::verify_chain(&changed), Some(1));

    let mut changed = stored(&filled());
    changed[0].hash_prev = Some(String::new());
    assert_eq!(InMemoryAuditLog::verify_chain(&changed), Some(0));

    let mut changed = stored(&filled());
    changed[3].hash_prev = None;
    assert_eq!(InMemoryAuditLog::verify_chain(&changed), Some(3));

    let mut changed = stored(&filled());
    changed[1].decision = "DENIED".to_string();
    changed[3].decision = "DENIED".to_string();
    assert_eq!(InMemoryAuditLog::verify_chain(&changed), Some(1));

    let mut changed = stored(&filled());
    changed.remove(1);
    assert_eq!(InMemoryAuditLog::verify_chain(&changed), Some(1));

    let mut changed = stored(&filled());
    changed.swap(2, 3);
    assert_eq!(InMemoryAuditLog::verify_chain(&changed), Some(2));
}

#[test]
fn events_of_a_session_come_in_insertion_order() {
    let log = filled();
    let found = log.get_by_session("s1").unwrap();
    let ids: Vec<&str> = found.iter().map(|e| e.event_id.as_str()).collect();
    assert_eq!(ids, vec!["e1", "e3", "e4"]);
    let all = stored(&log);
    assert_eq!(found[0], all[0]);
    assert_eq!(found[1], all[2]);
    assert_eq!(found[2], all[3]);
    assert_eq!(log.get_by_session("s2").unwrap().len(), 1);
    assert_eq!(log.get_by_session("s3").unwrap(), vec![]);
    assert_eq!(log.get_by_session("").unwrap(), vec![]);
    assert_eq!(log.get_by_session("s1").unwrap(), found);
}

#[test]
fn get_outside_the_log_gives_nothing() {
    let log = filled();
    assert!(log.get(3).is_some());
    assert!(log.get(4).is_none());
    assert!(InMemoryAuditLog::new().get(0).is_none());
}

#[test]
fn error_texts() {
    assert_eq!(AuditError::Storage("lock poisoned".to_string()).message(), "storage error: lock poisoned");
    assert_eq!(AuditError::Storage(String::new()).message(), "storage error: ");
    assert_eq!(ChannelError::Transport("reset".to_string()).message(), "transport: reset");
}
