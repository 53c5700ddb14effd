//! The audit log: an append-only record of routing decisions in which every
//! event carries the digest of its predecessor.

use crate::digest::{compute_digest_hex, digest_hex};
use crate::domain::{RoutingActionKind, SecurityZone, Timestamp};
use crate::text::{push_signed_decimal, signed_decimal};
use vstd::prelude::*;
use vstd::string::StringExecFns;

verus! {

/// One recorded decision. `hash_prev` and `hash_self` are set by the log
/// when the event is appended; what a caller puts there is overwritten.
#[derive(Debug, PartialEq, Eq)]
pub struct AuditEvent {
    pub event_id: String,
    pub session_id: String,
    pub command_id: String,
    pub actor_did: String,
    pub zones: (SecurityZone, SecurityZone),
    pub action: RoutingActionKind,
    /// Size of the requested change, in kilowatts.
    pub magnitude_kw: i64,
    pub approved_by_human_did: Option<String>,
    pub decision: String,
    pub timestamp: Timestamp,
    pub hash_prev: Option<String>,
    pub hash_self: String,
}

/// Mathematical value of an [`AuditEvent`].
pub struct AuditEventView {
    pub event_id: Seq<char>,
    pub session_id: Seq<char>,
    pub command_id: Seq<char>,
    pub actor_did: Seq<char>,
    pub zones: (SecurityZone, SecurityZone),
    pub action: RoutingActionKind,
    pub magnitude_kw: int,
    pub approved_by_human_did: Option<Seq<char>>,
    pub decision: Seq<char>,
    pub timestamp: Timestamp,
    pub hash_prev: Option<Seq<char>>,
    pub hash_self: Seq<char>,
}

/// The value of an optional text.
pub open spec fn opt_text(t: Option<String>) -> Option<Seq<char>> {
    match t {
        Some(s) => Some(s@),
        None => None,
    }
}

impl View for AuditEvent {
    type V = AuditEventView;

    open spec fn view(&self) -> AuditEventView {
        AuditEventView {
            event_id: self.event_id@,
            session_id: self.session_id@,
            command_id: self.command_id@,
            actor_did: self.actor_did@,
            zones: self.zones,
            action: self.action,
            magnitude_kw: self.magnitude_kw as int,
            approved_by_human_did: opt_text(self.approved_by_human_did),
            decision: self.decision@,
            timestamp: self.timestamp,
            hash_prev: opt_text(self.hash_prev),
            hash_self: self.hash_self@,
        }
    }
}

fn clone_opt_text(t: &Option<String>) -> (r: Option<String>)
    ensures
        opt_text(r) == opt_text(*t),
{
    match t {
        Some(s) => Some(s.clone()),
        None => None,
    }
}

impl Clone for AuditEvent {
    fn clone(&self) -> (r: Self)
        ensures
            r@ == self@,
    {
        AuditEvent {
            event_id: self.event_id.clone(),
            session_id: self.session_id.clone(),
            command_id: self.command_id.clone(),
            actor_did: self.actor_did.clone(),
            zones: self.zones,
            action: self.action,
            magnitude_kw: self.magnitude_kw,
            approved_by_human_did: clone_opt_text(&self.approved_by_human_did),
            decision: self.decision.clone(),
            timestamp: self.timestamp,
            hash_prev: clone_opt_text(&self.hash_prev),
            hash_self: self.hash_self.clone(),
        }
    }
}

/// The events of a log, oldest first, as contracts see them.
pub type AuditTrail = Seq<AuditEventView>;

/// The values of a sequence of events.
pub open spec fn event_views(events: Seq<AuditEvent>) -> Seq<AuditEventView> {
    events.map_values(|e: AuditEvent| e@)
}

/// The text that stands for a predecessor digest: the digest, or nothing
/// where there is no predecessor.
pub open spec fn link_text(prev_hash: Option<Seq<char>>) -> Seq<char> {
    match prev_hash {
        Some(h) => h,
        None => Seq::empty(),
    }
}

/// The text over which the digest of an event is computed: the predecessor
/// digest, the three identifiers, the actor, the magnitude in decimal, the
/// decision and the instant, each separated from the next by a bar.
pub open spec fn canonical_payload(prev_hash: Seq<char>, ev: AuditEventView) -> Seq<char> {
    prev_hash + seq!['|'] + ev.event_id + seq!['|'] + ev.session_id + seq!['|'] + ev.command_id
        + seq!['|'] + ev.actor_did + seq!['|'] + signed_decimal(ev.magnitude_kw) + seq!['|']
        + ev.decision + seq!['|'] + ev.timestamp.display()
}

/// The digest text of an event that follows a predecessor with digest
/// `prev_hash`.
pub open spec fn event_hash(prev_hash: Option<Seq<char>>, ev: AuditEventView) -> Seq<char> {
    digest_hex(canonical_payload(link_text(prev_hash), ev))
}

/// The digest of the last event, if there is one.
pub open spec fn last_hash(events: Seq<AuditEventView>) -> Option<Seq<char>> {
    if events.len() == 0 {
        None
    } else {
        Some(events.last().hash_self)
    }
}

/// The event as the log stores it after `events`: linked to the last of
/// them and carrying its own digest.
pub open spec fn seal(events: Seq<AuditEventView>, ev: AuditEventView) -> AuditEventView {
    AuditEventView {
        hash_prev: last_hash(events),
        hash_self: event_hash(last_hash(events), ev),
        ..ev
    }
}

/// The event at index `i` is linked to its predecessor and carries the
/// digest that recomputation gives.
pub open spec fn link_ok(events: Seq<AuditEventView>, i: int) -> bool {
    &&& events[i].hash_prev == last_hash(events.take(i))
    &&& events[i].hash_self == event_hash(events[i].hash_prev, events[i])
}

/// Every event of the chain is linked and carries its recomputed digest.
pub open spec fn chain_valid(events: Seq<AuditEventView>) -> bool {
    forall|i: int| 0 <= i < events.len() ==> #[trigger] link_ok(events, i)
}

/// The log after the drafts have been appended to `events` one by one.
pub open spec fn appended(events: Seq<AuditEventView>, drafts: Seq<AuditEventView>) -> Seq<
    AuditEventView,
>
    decreases drafts.len(),
{
    if drafts.len() == 0 {
        events
    } else {
        let before = appended(events, drafts.drop_last());
        before.push(seal(before, drafts.last()))
    }
}

/// The events of one session, in the order of the log.
pub open spec fn for_session(events: Seq<AuditEventView>, session_id: Seq<char>) -> Seq<
    AuditEventView,
>
    decreases events.len(),
{
    if events.len() == 0 {
        Seq::empty()
    } else if events.last().session_id == session_id {
        for_session(events.drop_last(), session_id).push(events.last())
    } else {
        for_session(events.drop_last(), session_id)
    }
}

/// Failure of the storage behind a log.
#[derive(Debug, PartialEq, Eq)]
pub enum AuditError {
    Storage(String),
}

impl AuditError {
    /// The text of the error: what the storage reported, after a prefix.
    pub open spec fn message_text(&self) -> Seq<char> {
        match self {
            AuditError::Storage(m) => "storage error: "@ + m@,
        }
    }

    /// Returns the text of the error.
    pub fn message(&self) -> (r: String)
        ensures
            r@ == self.message_text(),
    {
        match self {
            AuditError::Storage(m) => {
                let mut out = "storage error: ".to_owned();
                out.append(m.as_str());
                out
            },
        }
    }
}

/// A store of audit events. An append links the event to the last one
/// stored and computes its digest; reading and writing of one append are not
/// interleaved with another, since an append holds the log exclusively.
pub trait AuditLog {
    /// The events stored so far, oldest first.
    spec fn events(&self) -> AuditTrail;

    /// The storage behind the log cannot fail: every append succeeds, now
    /// and after any number of appends.
    spec fn reliable(&self) -> bool;

    /// Stores the event after the others, or fails and stores nothing. A
    /// reliable log does not fail and stays reliable.
    fn append(&mut self, event: AuditEvent) -> (r: Result<(), AuditError>)
        ensures
            r is Ok ==> final(self).events() == old(self).events().push(
                seal(old(self).events(), event@),
            ),
            r is Err ==> final(self).events() == old(self).events(),
            old(self).reliable() ==> r is Ok && final(self).reliable(),
    ;

    /// The events of one session, in the order in which they were stored.
    fn get_by_session(&self, session_id: &str) -> (r: Result<Vec<AuditEvent>, AuditError>)
        ensures
            r matches Ok(found) ==> event_views(found@) == for_session(self.events(), session_id@),
    ;
}

/// An audit log held in memory.
pub struct InMemoryAuditLog {
    events: Vec<AuditEvent>,
}

impl View for InMemoryAuditLog {
    type V = Seq<AuditEventView>;

    closed spec fn view(&self) -> Seq<AuditEventView> {
        event_views(self.events@)
    }
}

impl InMemoryAuditLog {
    pub fn new() -> (r: Self)
        ensures
            r@ == Seq::<AuditEventView>::empty(),
    {
        let r = InMemoryAuditLog { events: Vec::new() };
        assert(r@ =~= Seq::<AuditEventView>::empty());
        r
    }

    /// The number of events stored.
    pub fn len(&self) -> (r: usize)
        ensures
            r == self@.len(),
    {
        self.events.len()
    }

    /// The event at index `i`, if there is one.
    pub fn get(&self, i: usize) -> (r: Option<&AuditEvent>)
        ensures
            i < self@.len() ==> r is Some && r->0@ == self@[i as int],
            i >= self@.len() ==> r is None,
    {
        if i < self.events.len() {
            Some(&self.events[i])
        } else {
            None
        }
    }

    /// Computes the digest text of `ev` as the successor of `prev`.
    pub fn compute_hash(prev: Option<&AuditEvent>, ev: &AuditEvent) -> (r: String)
        ensures
            r@ == event_hash(
                match prev {
                    Some(p) => Some(p@.hash_self),
                    None => None,
                },
                ev@,
            ),
            r@.len() == 32,
    {
        proof {
            reveal_strlit("|");
        }
        let mut payload = String::new();
        match prev {
            Some(p) => {
                payload.append(p.hash_self.as_str());
            },
            None => {},
        }
        let ghost link = payload@;
        payload.append("|");
        payload.append(ev.event_id.as_str());
        payload.append("|");
        payload.append(ev.session_id.as_str());
        payload.append("|");
        payload.append(ev.command_id.as_str());
        payload.append("|");
        payload.append(ev.actor_did.as_str());
        payload.append("|");
        push_signed_decimal(&mut payload, ev.magnitude_kw);
        payload.append("|");
        payload.append(ev.decision.as_str());
        payload.append("|");
        let instant = ev.timestamp.text();
        payload.append(instant.as_str());
        proof {
            assert("|"@ =~= seq!['|']);
            assert(payload@ =~= canonical_payload(link, ev@));
        }
        compute_digest_hex(payload.as_str())
    }

    /// Walks the chain and recomputes every digest. Returns `None` if every
    /// event is linked to its predecessor and carries the recomputed digest,
    /// and otherwise the index of the first event that does not.
    pub fn verify_chain(events: &Vec<AuditEvent>) -> (r: Option<usize>)
        ensures
            r is None <==> chain_valid(event_views(events@)),
            r matches Some(i) ==> {
                &&& i < events@.len()
                &&& !link_ok(event_views(events@), i as int)
                &&& forall|j: int| 0 <= j < i ==> #[trigger] link_ok(event_views(events@), j)
            },
    {
        let n: usize = events.len();
        let ghost views = event_views(events@);
        let mut i: usize = 0;
        while i < n
            invariant
                n == events@.len(),
                views == event_views(events@),
                i <= n,
                forall|j: int| 0 <= j < i ==> #[trigger] link_ok(views, j),
            decreases n - i,
        {
            let ev = &events[i];
            let linked = if i == 0 {
                assert(views.take(0) =~= Seq::<AuditEventView>::empty());
                ev.hash_prev.is_none()
            } else {
                assert(views.take(i as int).last() == views[i - 1]);
                match &ev.hash_prev {
                    Some(h) => *h == events[i - 1].hash_self,
                    None => false,
                }
            };
            assert(linked == (views[i as int].hash_prev == last_hash(views.take(i as int))));
            if !linked {
                assert(!link_ok(views, i as int));
                return Some(i);
            }
            let prev = if i == 0 {
                None
            } else {
                Some(&events[i - 1])
            };
            let expected = Self::compute_hash(prev, ev);
            assert(expected@ == event_hash(views[i as int].hash_prev, views[i as int]));
            if !(expected == ev.hash_self) {
                assert(!link_ok(views, i as int));
                return Some(i);
            }
            assert(link_ok(views, i as int));
            i = i + 1;
        }
        None
    }

    /// Checks the chain of this log; see [`InMemoryAuditLog::verify_chain`].
    pub fn verify(&self) -> (r: Option<usize>)
        ensures
            r is None <==> chain_valid(self@),
            r matches Some(i) ==> {
                &&& i < self@.len()
                &&& !link_ok(self@, i as int)
                &&& forall|j: int| 0 <= j < i ==> #[trigger] link_ok(self@, j)
            },
    {
        Self::verify_chain(&self.events)
    }
}

impl AuditLog for InMemoryAuditLog {
    open spec fn events(&self) -> AuditTrail {
        self@
    }

    open spec fn reliable(&self) -> bool {
        true
    }

    /// Never fails, and keeps a valid chain valid.
    fn append(&mut self, event: AuditEvent) -> (r: Result<(), AuditError>)
        ensures
            r is Ok,
            chain_valid(old(self)@) ==> chain_valid(final(self)@),
    {
        let mut event = event;
        let ghost draft = event@;
        let ghost before = self@;
        let n: usize = self.events.len();
        if n == 0 {
            event.hash_prev = None;
            event.hash_self = Self::compute_hash(None, &event);
        } else {
            let prev = &self.events[n - 1];
            assert(before.last() == prev@);
            event.hash_prev = Some(prev.hash_self.clone());
            event.hash_self = Self::compute_hash(Some(prev), &event);
        }
        assert(event@ == seal(before, draft));
        self.events.push(event);
        proof {
            assert(self@ =~= before.push(seal(before, draft)));
            if chain_valid(before) {
                lemma_seal_keeps_chain(before, draft);
            }
        }
        Ok(())
    }

    /// Never fails.
    fn get_by_session(&self, session_id: &str) -> (r: Result<Vec<AuditEvent>, AuditError>)
        ensures
            r is Ok,
    {
        let wanted = session_id.to_owned();
        let mut found: Vec<AuditEvent> = Vec::new();
        let n: usize = self.events.len();
        let ghost views = self@;
        let mut i: usize = 0;
        assert(views.take(0) =~= Seq::<AuditEventView>::empty());
        assert(event_views(found@) =~= for_session(views.take(0), session_id@));
        while i < n
            invariant
                n == self.events@.len(),
                views == self@,
                wanted@ == session_id@,
                i <= n,
                event_views(found@) == for_session(views.take(i as int), session_id@),
            decreases n - i,
        {
            let ev = &self.events[i];
            proof {
                let next = views.take(i + 1);
                assert(next.drop_last() =~= views.take(i as int));
                assert(next.last() == ev@);
            }
            let ghost so_far = found@;
            if ev.session_id == wanted {
                found.push(ev.clone());
                assert(event_views(found@) =~= event_views(so_far).push(ev@));
            }
            i = i + 1;
        }
        assert(views.take(n as int) =~= views);
        Ok(found)
    }
}

/// Appending to a valid chain gives a valid chain.
pub proof fn lemma_seal_keeps_chain(events: Seq<AuditEventView>, ev: AuditEventView)
    requires
        chain_valid(events),
    ensures
        chain_valid(events.push(seal(events, ev))),
{
    let sealed = seal(events, ev);
    let after = events.push(sealed);
    assert forall|i: int| 0 <= i < after.len() implies #[trigger] link_ok(after, i) by {
        if i < events.len() {
            assert(link_ok(events, i));
            assert(after.take(i) =~= events.take(i));
        } else {
            assert(after.take(i) =~= events);
            assert(canonical_payload(link_text(sealed.hash_prev), sealed) == canonical_payload(
                link_text(sealed.hash_prev),
                ev,
            ));
        }
    }
}

/// The log that an empty log becomes when the drafts are appended one by one.
pub open spec fn recorded(drafts: Seq<AuditEventView>) -> Seq<AuditEventView> {
    appended(Seq::empty(), drafts)
}

/// In a valid chain every event carries the digest that recomputation
/// gives; the first has no predecessor digest, and every other carries the
/// digest of the event before it.
pub proof fn lemma_chain_valid_links(events: Seq<AuditEventView>, i: int)
    requires
        chain_valid(events),
        0 <= i < events.len(),
    ensures
        events[i].hash_self == event_hash(events[i].hash_prev, events[i]),
        i == 0 ==> events[i].hash_prev is None,
        i > 0 ==> events[i].hash_prev == Some(events[i - 1].hash_self),
{
    assert(link_ok(events, i));
    if i > 0 {
        assert(events.take(i).last() == events[i - 1]);
    } else {
        assert(events.take(0).len() == 0);
    }
}

/// Chain integrity. Whatever events are appended to an empty log, and
/// however many, the log holds one event for each and its chain is valid:
/// recomputing the digests from the first event reproduces every stored
/// digest, and every event but the first carries the digest of the event
/// before it.
pub proof fn lemma_appended_chain_valid(drafts: Seq<AuditEventView>)
    ensures
        recorded(drafts).len() == drafts.len(),
        chain_valid(recorded(drafts)),
    decreases drafts.len(),
{
    if drafts.len() > 0 {
        lemma_appended_chain_valid(drafts.drop_last());
        lemma_seal_keeps_chain(recorded(drafts.drop_last()), drafts.last());
    }
}

/// A chain in which one stored digest was changed afterwards is not valid:
/// the check fails at the changed event or before it.
pub proof fn lemma_tampered_digest_detected(
    events: Seq<AuditEventView>,
    i: int,
    forged: Seq<char>,
)
    requires
        chain_valid(events),
        0 <= i < events.len(),
        forged != events[i].hash_self,
    ensures
        !link_ok(events.update(i, AuditEventView { hash_self: forged, ..events[i] }), i),
        !chain_valid(events.update(i, AuditEventView { hash_self: forged, ..events[i] })),
{
    let changed = AuditEventView { hash_self: forged, ..events[i] };
    let after = events.update(i, changed);
    assert(link_ok(events, i));
    assert(canonical_payload(link_text(changed.hash_prev), changed) == canonical_payload(
        link_text(events[i].hash_prev),
        events[i],
    ));
    assert(!link_ok(after, i));
}

} // verus!
