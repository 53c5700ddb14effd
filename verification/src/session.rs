//! Sessions: issued to an actor for a fixed time to live and checked against
//! the clock when a command refers to them.

use crate::domain::{DidIdentity, DidIdentityView, Timestamp};
use crate::ident::fresh_uuid;
use vstd::hash_map::StringHashMap;
use vstd::prelude::*;

verus! {

/// Nanoseconds in a minute.
pub const NANOS_PER_MINUTE: i64 = 60_000_000_000;

/// A session of one actor.
#[derive(Debug, PartialEq, Eq)]
pub struct SecureSession {
    pub id: String,
    pub actor: DidIdentity,
    pub created_at: Timestamp,
    pub expires_at: Timestamp,
}

/// Mathematical value of a [`SecureSession`].
pub struct SecureSessionView {
    pub id: Seq<char>,
    pub actor: DidIdentityView,
    pub created_at: Timestamp,
    pub expires_at: Timestamp,
}

impl View for SecureSession {
    type V = SecureSessionView;

    open spec fn view(&self) -> SecureSessionView {
        SecureSessionView {
            id: self.id@,
            actor: self.actor@,
            created_at: self.created_at,
            expires_at: self.expires_at,
        }
    }
}

impl Clone for SecureSession {
    fn clone(&self) -> (r: Self)
        ensures
            r@ == self@,
    {
        SecureSession {
            id: self.id.clone(),
            actor: self.actor.clone(),
            created_at: self.created_at,
            expires_at: self.expires_at,
        }
    }
}

/// The ways in which issuing or checking a session fails.
#[derive(Debug, PartialEq, Eq)]
pub enum SessionError {
    /// No session has the identifier.
    NotFound,
    /// The session has the identifier and its time is over.
    Expired,
    /// The session could not be stored or read; the text says why.
    Storage(String),
}

/// The instant at which a session issued at `now` expires, where that
/// instant can be counted within an `i64`.
pub open spec fn expiry_of(now: Timestamp, ttl_minutes: int) -> Option<Timestamp> {
    let at = now.unix_nanos + ttl_minutes * NANOS_PER_MINUTE;
    if i64::MIN <= at <= i64::MAX {
        Some(Timestamp { unix_nanos: at as i64 })
    } else {
        None
    }
}

/// Computes the instant at which a session issued at `now` expires.
pub fn expiry(now: Timestamp, ttl_minutes: i64) -> (r: Option<Timestamp>)
    ensures
        r == expiry_of(now, ttl_minutes as int),
{
    let minutes: i128 = ttl_minutes as i128;
    let unit: i128 = NANOS_PER_MINUTE as i128;
    assert(-0x8000_0000_0000_0000 * 60_000_000_000 <= minutes * unit <= 0x8000_0000_0000_0000
        * 60_000_000_000) by (nonlinear_arith)
        requires
            unit == 60_000_000_000,
            -0x8000_0000_0000_0000 <= minutes <= 0x8000_0000_0000_0000,
    ;
    let span: i128 = minutes * unit;
    let at: i128 = now.unix_nanos as i128 + span;
    if at < i64::MIN as i128 || at > i64::MAX as i128 {
        None
    } else {
        Some(Timestamp { unix_nanos: at as i64 })
    }
}

/// What checking a session at the instant `now` gives: the session must be
/// known and its expiry must not lie before `now`.
pub open spec fn checked_at(
    sessions: Map<Seq<char>, SecureSessionView>,
    session_id: Seq<char>,
    now: Timestamp,
) -> Result<SecureSessionView, SessionError> {
    if !sessions.contains_key(session_id) {
        Err(SessionError::NotFound)
    } else if sessions[session_id].expires_at.unix_nanos < now.unix_nanos {
        Err(SessionError::Expired)
    } else {
        Ok(sessions[session_id])
    }
}

/// The result `r` is what the check gave: the same error, or a session with
/// the value that the check found.
pub open spec fn agrees(
    checked: Result<SecureSessionView, SessionError>,
    r: Result<SecureSession, SessionError>,
) -> bool {
    match checked {
        Ok(v) => r matches Ok(s) && s@ == v,
        Err(e) => r == Err::<SecureSession, SessionError>(e),
    }
}

/// Issues sessions and checks them.
pub trait SessionManager {
    /// The sessions issued so far, by identifier.
    spec fn sessions(&self) -> Map<Seq<char>, SecureSessionView>;

    /// Issues a session to the actor and stores it, or fails and stores
    /// nothing.
    fn issue_session(&mut self, actor: DidIdentity) -> (r: Result<SecureSession, SessionError>)
        ensures
            r matches Ok(s) ==> s@.actor == actor@ && final(self).sessions() == old(
                self,
            ).sessions().insert(s@.id, s@),
            r is Err ==> final(self).sessions() == old(self).sessions(),
    ;

    /// Looks the session up and checks that its time is not over.
    fn validate_session(&self, session_id: &str) -> (r: Result<SecureSession, SessionError>)
        ensures
            r matches Ok(s) ==> self.sessions().contains_key(session_id@) && s@
                == self.sessions()[session_id@],
            r matches Err(SessionError::NotFound) ==> !self.sessions().contains_key(session_id@),
            r matches Err(SessionError::Expired) ==> self.sessions().contains_key(session_id@),
    ;
}

/// A session manager that keeps its sessions in memory.
pub struct InMemorySessionManager {
    store: StringHashMap<SecureSession>,
    ttl_minutes: i64,
}

impl View for InMemorySessionManager {
    type V = Map<Seq<char>, SecureSessionView>;

    closed spec fn view(&self) -> Map<Seq<char>, SecureSessionView> {
        self.store@.map_values(|s: SecureSession| s@)
    }
}

impl InMemorySessionManager {
    /// The time to live of the sessions this manager issues, in minutes.
    pub closed spec fn ttl(&self) -> int {
        self.ttl_minutes as int
    }

    pub fn new(ttl_minutes: i64) -> (r: Self)
        ensures
            r@ == Map::<Seq<char>, SecureSessionView>::empty(),
            r.ttl() == ttl_minutes,
    {
        let r = InMemorySessionManager { store: StringHashMap::new(), ttl_minutes };
        assert(r@ =~= Map::<Seq<char>, SecureSessionView>::empty());
        r
    }

    /// Issues a session with the identifier `id` at the instant `now`. It
    /// fails, and stores nothing, exactly when the expiry cannot be counted
    /// within an `i64`. A session that had the identifier before is replaced.
    pub fn issue_session_at(&mut self, actor: DidIdentity, id: String, now: Timestamp) -> (r: Result<
        SecureSession,
        SessionError,
    >)
        ensures
            final(self).ttl() == old(self).ttl(),
            match expiry_of(now, old(self).ttl()) {
                Some(expires_at) => {
                    &&& r matches Ok(s)
                    &&& s@ == (SecureSessionView {
                        id: id@,
                        actor: actor@,
                        created_at: now,
                        expires_at: expires_at,
                    })
                    &&& final(self)@ == old(self)@.insert(id@, s@)
                },
                None => (r matches Err(SessionError::Storage(_))) && final(self)@ == old(self)@,
            },
    {
        let expires_at = match expiry(now, self.ttl_minutes) {
            Some(t) => t,
            None => {
                return Err(SessionError::Storage("expiry out of range".to_owned()));
            },
        };
        let session = SecureSession { id: id, actor: actor, created_at: now, expires_at: expires_at };
        let stored = session.clone();
        self.store.insert(session.id.clone(), stored);
        assert(self@ =~= old(self)@.insert(id@, session@));
        Ok(session)
    }

    /// Checks a session at the instant `now`.
    pub fn validate_session_at(&self, session_id: &str, now: Timestamp) -> (r: Result<
        SecureSession,
        SessionError,
    >)
        ensures
            agrees(checked_at(self@, session_id@, now), r),
    {
        match self.store.get(session_id) {
            None => Err(SessionError::NotFound),
            Some(s) => {
                if s.expires_at.unix_nanos < now.unix_nanos {
                    Err(SessionError::Expired)
                } else {
                    Ok(s.clone())
                }
            },
        }
    }
}

impl SessionManager for InMemorySessionManager {
    open spec fn sessions(&self) -> Map<Seq<char>, SecureSessionView> {
        self@
    }

    /// Issues the session under a fresh identifier at the current instant.
    /// It fails where the clock gives no instant or the expiry cannot be
    /// counted within an `i64`.
    fn issue_session(&mut self, actor: DidIdentity) -> (r: Result<SecureSession, SessionError>)
        ensures
            final(self).ttl() == old(self).ttl(),
            r matches Ok(s) ==> expiry_of(s@.created_at, old(self).ttl()) == Some(s@.expires_at),
    {
        let now = match Timestamp::now() {
            Some(t) => t,
            None => {
                return Err(SessionError::Storage("clock out of range".to_owned()));
            },
        };
        self.issue_session_at(actor, fresh_uuid(), now)
    }

    /// Checks the session at the current instant: the result is what the
    /// check gives at some instant, or a storage error where the clock gives
    /// no instant.
    fn validate_session(&self, session_id: &str) -> (r: Result<SecureSession, SessionError>)
        ensures
            (r matches Err(SessionError::Storage(_))) || exists|now: Timestamp|
                agrees(checked_at(self@, session_id@, now), r),
    {
        let now = match Timestamp::now() {
            Some(t) => t,
            None => {
                return Err(SessionError::Storage("clock out of range".to_owned()));
            },
        };
        let r = self.validate_session_at(session_id, now);
        assert(agrees(checked_at(self@, session_id@, now), r));
        r
    }
}

/// A session is accepted at every instant up to its expiry and at none
/// after it.
pub proof fn lemma_session_valid_until_expiry(
    sessions: Map<Seq<char>, SecureSessionView>,
    session_id: Seq<char>,
    now: Timestamp,
)
    requires
        sessions.contains_key(session_id),
    ensures
        checked_at(sessions, session_id, now) is Ok <==> now.unix_nanos
            <= sessions[session_id].expires_at.unix_nanos,
{
}

} // verus!
