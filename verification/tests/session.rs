use eco_infra_aln_router::domain::{DidIdentity, Timestamp};
use eco_infra_aln_router::session::{
    expiry, InMemorySessionManager, SessionError, SessionManager, NANOS_PER_MINUTE,
};

fn actor() -> DidIdentity {
    DidIdentity { did: "did:example:alice".to_string(), verifiable_cred_id: "vc-1".to_string() }
}

fn at(nanos: i64) -> Timestamp {
    Timestamp { unix_nanos: nanos }
}

#[test]
fn expiry_adds_whole_minutes() {
    assert_eq!(NANOS_PER_MINUTE, 60_000_000_000);
    assert_eq!(expiry(at(5), 30), Some(at(1_800_000_000_005)));
    assert_eq!(expiry(at(5), 0), Some(at(5)));
    assert_eq!(expiry(at(0), -1), Some(at(-60_000_000_000)));
    assert_eq!(expiry(at(i64::MAX), 0), Some(at(i64::MAX)));
    assert_eq!(expiry(at(i64::MAX), 1), None);
    assert_eq!(expiry(at(i64::MIN), -1), None);
    assert_eq!(expiry(at(0), i64::MAX), None);
    assert_eq!(expiry(at(0), i64::MIN), None);
    assert_eq!(expiry(at(i64::MAX - 60_000_000_000), 1), Some(at(i64::MAX)));
}

#[test]
fn issued_session_is_stored_with_its_expiry() {
    let mut m = InMemorySessionManager::new(15);
    let s = m.issue_session_at(actor(), "sess-1".to_string(), at(1_000)).unwrap();
    assert_eq!(s.id, "sess-1");
    assert_eq!(s.actor, actor());
    assert_eq!(s.created_at, at(1_000));
    assert_eq!(s.expires_at, at(900_000_001_000));
    assert_eq!(m.validate_session_at("sess-1", at(2_000)), Ok(s));
}

#[test]
fn session_is_valid_up_to_its_expiry() {
    let mut m = InMemorySessionManager::new(1);
    let s = m.issue_session_at(actor(), "sess-1".to_string(), at(0)).unwrap();
    assert_eq!(m.validate_session_at("sess-1", at(60_000_000_000)), Ok(s));
    assert_eq!(m.validate_session_at("sess-1", at(60_000_000_001)), Err(SessionError::Expired));
    assert_eq!(m.validate_session_at("sess-2", at(0)), Err(SessionError::NotFound));
    assert_eq!(m.validate_session_at("", at(0)), Err(SessionError::NotFound));
}

#[test]
fn expiry_out_of_range_stores_nothing() {
    let mut m = InMemorySessionManager::new(i64::MAX);
    let r = m.issue_session_at(actor(), "sess-1".to_string(), at(0));
    assert_eq!(r, Err(SessionError::Storage("expiry out of range".to_string())));
    assert_eq!(m.validate_session_at("sess-1", at(0)), Err(SessionError::NotFound));
}

#[test]
fn same_identifier_replaces_the_session() {
    let mut m = InMemorySessionManager::new(1);
    m.issue_session_at(actor(), "sess-1".to_string(), at(0)).unwrap();
    let later = m.issue_session_at(actor(), "sess-1".to_string(), at(10)).unwrap();
    assert_eq!(m.validate_session_at("sess-1", at(60_000_000_010)), Ok(later));
}

#[test]
fn sessions_issued_at_the_clock() {
    let mut m = InMemorySessionManager::new(30);
    let a = m.issue_session(actor()).unwrap();
    let b = m.issue_session(actor()).unwrap();
    assert_eq!(a.id.len(), 36);
    assert_ne!(a.id, b.id);
    assert_eq!(a.expires_at.unix_nanos - a.created_at.unix_nanos, 30 * 60_000_000_000);
    assert!(a.created_at.unix_nanos <= b.created_at.unix_nanos);
    assert_eq!(m.validate_session(&a.id), Ok(a));
    assert_eq!(m.validate_session("missing"), Err(SessionError::NotFound));
}

#[test]
fn expired_at_the_clock() {
    let mut m = InMemorySessionManager::new(-1);
    let s = m.issue_session(actor()).unwrap();
    assert_eq!(m.validate_session(&s.id), Err(SessionError::Expired));
}

#[test]
fn clock_reads_the_present() {
    let before = chrono::Utc::now().timestamp_nanos_opt().unwrap();
    let now = Timestamp::now().unwrap();
    let after = chrono::Utc::now().timestamp_nanos_opt().unwrap();
    assert!(before <= now.unix_nanos && now.unix_nanos <= after);
}

#[test]
fn instants_are_rendered_in_utc() {
    assert_eq!(at(0).text(), "1970-01-01 00:00:00 UTC");
    assert_eq!(at(1_431_648_000_000_000_000).text(), "2015-05-15 00:00:00 UTC");
    assert_eq!(at(947_638_923_004_000_000).text(), "2000-01-12 01:02:03.004 UTC");
    assert_eq!(at(-1).text(), "1969-12-31 23:59:59.999999999 UTC");
    assert_eq!(at(i64::MAX).text(), "2262-04-11 23:47:16.854775807 UTC");
    assert_eq!(at(i64::MIN).text(), "1677-09-21 00:12:43.145224192 UTC");
}
