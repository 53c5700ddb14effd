//! The routing pipeline: segmentation, governance, audit and dispatch, in
//! that order, for one command at a time.

use crate::audit::{seal, AuditEvent, AuditEventView, AuditLog};
use crate::channel::AgentChannel;
use crate::domain::{ReasonCode, RoutingCommand, RoutingCommandView, SecurityZone, Timestamp};
use crate::hitl_typestate::PendingReview;
use crate::ident::fresh_uuid;
use crate::policy::{EcoGovernancePolicy, SegmentationPolicy};
use vstd::prelude::*;

verus! {

/// Why segmentation turned a command down.
#[derive(Clone, Copy, Debug, PartialEq, Eq, Structural)]
pub enum SegmentationDenial {
    /// The source node has no zone.
    UnknownSourceZone,
    /// The target node has no zone.
    UnknownTargetZone,
    /// Both zones are known and the policy does not admit the command.
    NotPermitted,
}

/// The ways in which routing a command fails.
#[derive(Debug, PartialEq, Eq)]
pub enum RouterError {
    /// Segmentation turned the command down.
    Segmentation(SegmentationDenial),
    /// Governance turned the command down.
    Governance(ReasonCode),
    /// The decision could not be recorded; the text says why.
    Audit(String),
    /// The command was authorized and recorded, and the channel failed; the
    /// text says why.
    Channel(String),
}

/// The ways in which routing a command succeeds.
#[derive(Debug)]
pub enum RouteOutcome {
    /// The command was handed to the channel.
    Dispatched,
    /// The command waits for a human and was not handed to the channel.
    PendingHumanGate(PendingReview<RoutingCommand>),
}

/// The decisions that an audit event can record.
#[derive(Clone, Copy, Debug, PartialEq, Eq, Structural)]
pub enum AuditDecision {
    Allowed,
    PendingHitl,
    DeniedSegmentation,
    DeniedGovernance,
}

impl AuditDecision {
    /// The text of the decision in an audit event.
    pub open spec fn label_text(self) -> Seq<char> {
        match self {
            AuditDecision::Allowed => "ALLOWED"@,
            AuditDecision::PendingHitl => "PENDING_HITL"@,
            AuditDecision::DeniedSegmentation => "DENIED_SEGMENTATION"@,
            AuditDecision::DeniedGovernance => "DENIED_GOVERNANCE"@,
        }
    }

    /// Returns the text of the decision.
    pub fn label(&self) -> (r: &'static str)
        ensures
            r@ == self.label_text(),
    {
        match self {
            AuditDecision::Allowed => "ALLOWED",
            AuditDecision::PendingHitl => "PENDING_HITL",
            AuditDecision::DeniedSegmentation => "DENIED_SEGMENTATION",
            AuditDecision::DeniedGovernance => "DENIED_GOVERNANCE",
        }
    }
}

/// What the two policies decide about a command, before anything is
/// recorded or sent.
#[derive(Clone, Copy, Debug, PartialEq, Eq, Structural)]
pub enum RoutePlan {
    /// The source node has no zone: refuse, record nothing.
    UnknownSource,
    /// The target node has no zone: refuse, record nothing.
    UnknownTarget,
    /// Segmentation does not admit the command: record, then refuse.
    DenySegmentation(SecurityZone, SecurityZone),
    /// Governance rejects the command: record, then refuse.
    DenyGovernance(SecurityZone, SecurityZone, ReasonCode),
    /// The command needs a human: record, then hold it.
    HoldForHuman(SecurityZone, SecurityZone),
    /// The command may go: record, then send.
    Dispatch(SecurityZone, SecurityZone),
}

/// The plan for a command under a segmentation and a governance policy. The
/// checks run in this order and the first that fails decides: zone of the
/// source, zone of the target, admission by segmentation, the governance
/// limits, the need for a human.
pub open spec fn route_plan<S: SegmentationPolicy, G: EcoGovernancePolicy>(
    segmentation: S,
    governance: G,
    cmd: RoutingCommandView,
) -> RoutePlan {
    match segmentation.zone_of(cmd.source) {
        None => RoutePlan::UnknownSource,
        Some(source_zone) => match segmentation.zone_of(cmd.target) {
            None => RoutePlan::UnknownTarget,
            Some(target_zone) => if !segmentation.permits(cmd) {
                RoutePlan::DenySegmentation(source_zone, target_zone)
            } else {
                match governance.rejection(cmd) {
                    Some(code) => RoutePlan::DenyGovernance(source_zone, target_zone, code),
                    None => if governance.needs_human(cmd) {
                        RoutePlan::HoldForHuman(source_zone, target_zone)
                    } else {
                        RoutePlan::Dispatch(source_zone, target_zone)
                    },
                }
            },
        },
    }
}

/// The event that records a decision about a command, before the log links
/// it: no approver, and the two digests still to be set.
pub open spec fn draft_event(
    cmd: RoutingCommandView,
    zones: (SecurityZone, SecurityZone),
    decision: AuditDecision,
    event_id: Seq<char>,
    now: Timestamp,
) -> AuditEventView {
    AuditEventView {
        event_id: event_id,
        session_id: cmd.session_id,
        command_id: cmd.id,
        actor_did: cmd.issued_by.did,
        zones: zones,
        action: cmd.action,
        magnitude_kw: cmd.magnitude_kw,
        approved_by_human_did: None,
        decision: decision.label_text(),
        timestamp: now,
        hash_prev: None,
        hash_self: Seq::empty(),
    }
}

/// The log `after` is the log `before` with the record of one decision
/// appended.
pub open spec fn logged(
    before: Seq<AuditEventView>,
    after: Seq<AuditEventView>,
    cmd: RoutingCommandView,
    zones: (SecurityZone, SecurityZone),
    decision: AuditDecision,
    event_id: Seq<char>,
    now: Timestamp,
) -> bool {
    after == before.push(seal(before, draft_event(cmd, zones, decision, event_id, now)))
}

/// What routing a command does, given the plan: what is recorded, what is
/// sent and what is returned. `event_id` and `now` are the identifier and
/// the instant of the event that is recorded. Where the log fails, nothing
/// is recorded or sent; where the channel fails, the record stays.
pub open spec fn carried_out(
    plan: RoutePlan,
    log_before: Seq<AuditEventView>,
    log_after: Seq<AuditEventView>,
    sent_before: Seq<RoutingCommandView>,
    sent_after: Seq<RoutingCommandView>,
    cmd: RoutingCommandView,
    event_id: Seq<char>,
    now: Timestamp,
    r: Result<RouteOutcome, RouterError>,
) -> bool {
    match plan {
        RoutePlan::UnknownSource => {
            &&& r matches Err(RouterError::Segmentation(SegmentationDenial::UnknownSourceZone))
            &&& log_after == log_before
            &&& sent_after == sent_before
        },
        RoutePlan::UnknownTarget => {
            &&& r matches Err(RouterError::Segmentation(SegmentationDenial::UnknownTargetZone))
            &&& log_after == log_before
            &&& sent_after == sent_before
        },
        RoutePlan::DenySegmentation(source_zone, target_zone) => {
            &&& sent_after == sent_before
            &&& {
                ||| {
                    &&& r matches Err(RouterError::Segmentation(SegmentationDenial::NotPermitted))
                    &&& logged(
                        log_before,
                        log_after,
                        cmd,
                        (source_zone, target_zone),
                        AuditDecision::DeniedSegmentation,
                        event_id,
                        now,
                    )
                }
                ||| {
                    &&& r matches Err(RouterError::Audit(_))
                    &&& log_after == log_before
                }
            }
        },
        RoutePlan::DenyGovernance(source_zone, target_zone, code) => {
            &&& sent_after == sent_before
            &&& {
                ||| {
                    &&& r matches Err(RouterError::Governance(c))
                    &&& c == code
                    &&& logged(
                        log_before,
                        log_after,
                        cmd,
                        (source_zone, target_zone),
                        AuditDecision::DeniedGovernance,
                        event_id,
                        now,
                    )
                }
                ||| {
                    &&& r matches Err(RouterError::Audit(_))
                    &&& log_after == log_before
                }
            }
        },
        RoutePlan::HoldForHuman(source_zone, target_zone) => {
            &&& sent_after == sent_before
            &&& {
                ||| {
                    &&& r matches Ok(RouteOutcome::PendingHumanGate(pending))
                    &&& pending@.payload@ == cmd
                    &&& logged(
                        log_before,
                        log_after,
                        cmd,
                        (source_zone, target_zone),
                        AuditDecision::PendingHitl,
                        event_id,
                        now,
                    )
                }
                ||| {
                    &&& r matches Err(RouterError::Audit(_))
                    &&& log_after == log_before
                }
            }
        },
        RoutePlan::Dispatch(source_zone, target_zone) => {
            ||| {
                &&& r matches Ok(RouteOutcome::Dispatched)
                &&& sent_after == sent_before.push(cmd)
                &&& logged(
                    log_before,
                    log_after,
                    cmd,
                    (source_zone, target_zone),
                    AuditDecision::Allowed,
                    event_id,
                    now,
                )
            }
            ||| {
                &&& r matches Err(RouterError::Channel(_))
                &&& sent_after == sent_before
                &&& logged(
                    log_before,
                    log_after,
                    cmd,
                    (source_zone, target_zone),
                    AuditDecision::Allowed,
                    event_id,
                    now,
                )
            }
            ||| {
                &&& r matches Err(RouterError::Audit(_))
                &&& sent_after == sent_before
                &&& log_after == log_before
            }
        },
    }
}

/// The pipeline: two policies, the audit log and the dispatch channel.
pub struct EcoInfraRouter<S: SegmentationPolicy, G: EcoGovernancePolicy, L: AuditLog, C: AgentChannel> {
    pub segmentation: S,
    pub governance: G,
    pub audit_log: L,
    pub channel: C,
}

impl<S: SegmentationPolicy, G: EcoGovernancePolicy, L: AuditLog, C: AgentChannel> EcoInfraRouter<
    S,
    G,
    L,
    C,
> {
    pub fn new(segmentation: S, governance: G, audit_log: L, channel: C) -> (r: Self)
        ensures
            r.segmentation == segmentation,
            r.governance == governance,
            r.audit_log == audit_log,
            r.channel == channel,
    {
        EcoInfraRouter { segmentation, governance, audit_log, channel }
    }

    /// What routing `cmd` did between the states `self` and `after`. The
    /// policies stay as they are. An audit error comes only from a log that
    /// is not reliable, and a channel error only from a channel that is not;
    /// a reliable log or channel stays reliable.
    pub open spec fn routed(
        self,
        after: Self,
        cmd: RoutingCommandView,
        event_id: Seq<char>,
        now: Timestamp,
        r: Result<RouteOutcome, RouterError>,
    ) -> bool {
        &&& after.segmentation == self.segmentation
        &&& after.governance == self.governance
        &&& carried_out(
            route_plan(self.segmentation, self.governance, cmd),
            self.audit_log.events(),
            after.audit_log.events(),
            self.channel.sent(),
            after.channel.sent(),
            cmd,
            event_id,
            now,
            r,
        )
        &&& self.audit_log.reliable() ==> after.audit_log.reliable() && !(r matches Err(
            RouterError::Audit(_),
        ))
        &&& self.channel.reliable() ==> after.channel.reliable() && !(r matches Err(
            RouterError::Channel(_),
        ))
    }

    /// Routing `cmd` stopped because the clock gave no instant: both zones
    /// were known, nothing was recorded or sent, and the error says so.
    pub open spec fn clock_failed(
        self,
        after: Self,
        cmd: RoutingCommandView,
        r: Result<RouteOutcome, RouterError>,
    ) -> bool {
        &&& after == self
        &&& route_plan(self.segmentation, self.governance, cmd) != RoutePlan::UnknownSource
        &&& route_plan(self.segmentation, self.governance, cmd) != RoutePlan::UnknownTarget
        &&& r matches Err(RouterError::Audit(text))
        &&& text@ == "clock out of range"@
    }

    /// Asks the two policies what is to be done with the command. Nothing is
    /// recorded or sent.
    pub fn plan(&self, cmd: &RoutingCommand) -> (r: RoutePlan)
        ensures
            r == route_plan(self.segmentation, self.governance, cmd@),
    {
        let source_zone = match self.segmentation.node_zone(&cmd.source) {
            Some(z) => z,
            None => {
                return RoutePlan::UnknownSource;
            },
        };
        let target_zone = match self.segmentation.node_zone(&cmd.target) {
            Some(z) => z,
            None => {
                return RoutePlan::UnknownTarget;
            },
        };
        if !self.segmentation.is_command_permitted(cmd) {
            return RoutePlan::DenySegmentation(source_zone, target_zone);
        }
        match self.governance.validate_routing(cmd) {
            Err(code) => {
                return RoutePlan::DenyGovernance(source_zone, target_zone, code);
            },
            Ok(_) => {},
        }
        if self.governance.requires_human_approval(cmd) {
            RoutePlan::HoldForHuman(source_zone, target_zone)
        } else {
            RoutePlan::Dispatch(source_zone, target_zone)
        }
    }

    /// Appends the record of one decision to the audit log.
    fn record(
        &mut self,
        cmd: &RoutingCommand,
        zones: (SecurityZone, SecurityZone),
        decision: AuditDecision,
        event_id: String,
        now: Timestamp,
    ) -> (r: Result<(), RouterError>)
        ensures
            final(self).segmentation == old(self).segmentation,
            final(self).governance == old(self).governance,
            final(self).channel == old(self).channel,
            r is Ok ==> logged(
                old(self).audit_log.events(),
                final(self).audit_log.events(),
                cmd@,
                zones,
                decision,
                event_id@,
                now,
            ),
            r is Err ==> (r matches Err(RouterError::Audit(_))) && final(self).audit_log.events()
                == old(self).audit_log.events(),
            old(self).audit_log.reliable() ==> r is Ok && final(self).audit_log.reliable(),
    {
        let event = AuditEvent {
            event_id: event_id,
            session_id: cmd.session_id.clone(),
            command_id: cmd.id.clone(),
            actor_did: cmd.issued_by.did.clone(),
            zones: zones,
            action: cmd.action,
            magnitude_kw: cmd.magnitude_kw,
            approved_by_human_did: None,
            decision: decision.label().to_owned(),
            timestamp: now,
            hash_prev: None,
            hash_self: String::new(),
        };
        assert(event@ == draft_event(cmd@, zones, decision, event_id@, now));
        match self.audit_log.append(event) {
            Ok(_) => Ok(()),
            Err(e) => Err(RouterError::Audit(e.message())),
        }
    }

    /// Carries a plan out: records the decision and, where the plan says so,
    /// sends the command.
    fn carry_out(&mut self, plan: RoutePlan, cmd: RoutingCommand, event_id: String, now: Timestamp) -> (r:
        Result<RouteOutcome, RouterError>)
        ensures
            final(self).segmentation == old(self).segmentation,
            final(self).governance == old(self).governance,
            carried_out(
                plan,
                old(self).audit_log.events(),
                final(self).audit_log.events(),
                old(self).channel.sent(),
                final(self).channel.sent(),
                cmd@,
                event_id@,
                now,
                r,
            ),
            old(self).audit_log.reliable() ==> final(self).audit_log.reliable() && !(r matches Err(
                RouterError::Audit(_),
            )),
            old(self).channel.reliable() ==> final(self).channel.reliable() && !(r matches Err(
                RouterError::Channel(_),
            )),
    {
        match plan {
            RoutePlan::UnknownSource => Err(
                RouterError::Segmentation(SegmentationDenial::UnknownSourceZone),
            ),
            RoutePlan::UnknownTarget => Err(
                RouterError::Segmentation(SegmentationDenial::UnknownTargetZone),
            ),
            RoutePlan::DenySegmentation(source_zone, target_zone) => {
                match self.record(
                    &cmd,
                    (source_zone, target_zone),
                    AuditDecision::DeniedSegmentation,
                    event_id,
                    now,
                ) {
                    Ok(_) => Err(RouterError::Segmentation(SegmentationDenial::NotPermitted)),
                    Err(e) => Err(e),
                }
            },
            RoutePlan::DenyGovernance(source_zone, target_zone, code) => {
                match self.record(
                    &cmd,
                    (source_zone, target_zone),
                    AuditDecision::DeniedGovernance,
                    event_id,
                    now,
                ) {
                    Ok(_) => Err(RouterError::Governance(code)),
                    Err(e) => Err(e),
                }
            },
            RoutePlan::HoldForHuman(source_zone, target_zone) => {
                match self.record(
                    &cmd,
                    (source_zone, target_zone),
                    AuditDecision::PendingHitl,
                    event_id,
                    now,
                ) {
                    Ok(_) => Ok(RouteOutcome::PendingHumanGate(PendingReview::new(cmd))),
                    Err(e) => Err(e),
                }
            },
            RoutePlan::Dispatch(source_zone, target_zone) => {
                match self.record(
                    &cmd,
                    (source_zone, target_zone),
                    AuditDecision::Allowed,
                    event_id,
                    now,
                ) {
                    Ok(_) => {},
                    Err(e) => {
                        return Err(e);
                    },
                }
                match self.channel.send_routing_command(&cmd) {
                    Ok(_) => Ok(RouteOutcome::Dispatched),
                    Err(e) => Err(RouterError::Channel(e.message())),
                }
            },
        }
    }

    /// Routes one command and records the decision under the identifier
    /// `event_id` and the instant `now`. With a reliable log and a reliable
    /// channel the plan alone fixes the outcome.
    pub fn route_at(&mut self, cmd: RoutingCommand, event_id: String, now: Timestamp) -> (r: Result<
        RouteOutcome,
        RouterError,
    >)
        ensures
            old(self).routed(*final(self), cmd@, event_id@, now, r),
    {
        let plan = self.plan(&cmd);
        self.carry_out(plan, cmd, event_id, now)
    }

    /// Routes one command. The decision is recorded under a fresh
    /// identifier and the current instant, which are read only once both
    /// zones are known. Where the clock gives no instant, nothing is
    /// recorded or sent and the attempt fails as one that could not be
    /// recorded; in every other case the command is routed as
    /// [`EcoInfraRouter::route_at`] routes it.
    ///
    /// A command with an endpoint whose zone is unknown is refused by
    /// segmentation and reaches neither the log nor the channel.
    pub fn route(&mut self, cmd: RoutingCommand) -> (r: Result<RouteOutcome, RouterError>)
        ensures
            old(self).clock_failed(*final(self), cmd@, r) || exists|
                event_id: Seq<char>,
                now: Timestamp,
            |
                old(self).routed(*final(self), cmd@, event_id, now, r),
            old(self).segmentation.zone_of(cmd@.source) is None || old(self).segmentation.zone_of(
                cmd@.target,
            ) is None ==> {
                &&& r matches Err(RouterError::Segmentation(_))
                &&& final(self).channel.sent() == old(self).channel.sent()
                &&& final(self).audit_log.events() == old(self).audit_log.events()
            },
    {
        let plan = self.plan(&cmd);
        let ghost epoch = Timestamp { unix_nanos: 0 };
        match plan {
            RoutePlan::UnknownSource => {
                let r = Err(RouterError::Segmentation(SegmentationDenial::UnknownSourceZone));
                assert(old(self).routed(*self, cmd@, Seq::empty(), epoch, r));
                return r;
            },
            RoutePlan::UnknownTarget => {
                let r = Err(RouterError::Segmentation(SegmentationDenial::UnknownTargetZone));
                assert(old(self).routed(*self, cmd@, Seq::empty(), epoch, r));
                return r;
            },
            _ => {},
        }
        let now = match Timestamp::now() {
            Some(t) => t,
            None => {
                return Err(RouterError::Audit("clock out of range".to_owned()));
            },
        };
        let event_id = fresh_uuid();
        let r = self.carry_out(plan, cmd, event_id, now);
        assert(old(self).routed(*self, cmd@, event_id@, now, r));
        r
    }
}

/// What routing does when neither the log nor the channel fails: the plan
/// fixes what is returned, what is recorded and what is sent.
pub open spec fn settled(
    plan: RoutePlan,
    log_before: Seq<AuditEventView>,
    log_after: Seq<AuditEventView>,
    sent_before: Seq<RoutingCommandView>,
    sent_after: Seq<RoutingCommandView>,
    cmd: RoutingCommandView,
    event_id: Seq<char>,
    now: Timestamp,
    r: Result<RouteOutcome, RouterError>,
) -> bool {
    match plan {
        RoutePlan::UnknownSource => {
            &&& r matches Err(RouterError::Segmentation(SegmentationDenial::UnknownSourceZone))
            &&& log_after == log_before
            &&& sent_after == sent_before
        },
        RoutePlan::UnknownTarget => {
            &&& r matches Err(RouterError::Segmentation(SegmentationDenial::UnknownTargetZone))
            &&& log_after == log_before
            &&& sent_after == sent_before
        },
        RoutePlan::DenySegmentation(source_zone, target_zone) => {
            &&& r matches Err(RouterError::Segmentation(SegmentationDenial::NotPermitted))
            &&& sent_after == sent_before
            &&& logged(
                log_before,
                log_after,
                cmd,
                (source_zone, target_zone),
                AuditDecision::DeniedSegmentation,
                event_id,
                now,
            )
        },
        RoutePlan::DenyGovernance(source_zone, target_zone, code) => {
            &&& r matches Err(RouterError::Governance(c))
            &&& c == code
            &&& sent_after == sent_before
            &&& logged(
                log_before,
                log_after,
                cmd,
                (source_zone, target_zone),
                AuditDecision::DeniedGovernance,
                event_id,
                now,
            )
        },
        RoutePlan::HoldForHuman(source_zone, target_zone) => {
            &&& r matches Ok(RouteOutcome::PendingHumanGate(pending))
            &&& pending@.payload@ == cmd
            &&& sent_after == sent_before
            &&& logged(
                log_before,
                log_after,
                cmd,
                (source_zone, target_zone),
                AuditDecision::PendingHitl,
                event_id,
                now,
            )
        },
        RoutePlan::Dispatch(source_zone, target_zone) => {
            &&& r matches Ok(RouteOutcome::Dispatched)
            &&& sent_after == sent_before.push(cmd)
            &&& logged(
                log_before,
                log_after,
                cmd,
                (source_zone, target_zone),
                AuditDecision::Allowed,
                event_id,
                now,
            )
        },
    }
}

/// With a reliable log and a reliable channel, routing never fails in the
/// log or the channel, and the plan fixes the outcome: a command that may
/// go is recorded as `ALLOWED` and sent, one that needs a human is recorded
/// as `PENDING_HITL` and held, and a denied one is recorded with its denial
/// and refused with the error of the check that denied it.
pub proof fn lemma_reliable_parts_settle_the_outcome<
    S: SegmentationPolicy,
    G: EcoGovernancePolicy,
    L: AuditLog,
    C: AgentChannel,
>(
    before: EcoInfraRouter<S, G, L, C>,
    after: EcoInfraRouter<S, G, L, C>,
    cmd: RoutingCommandView,
    event_id: Seq<char>,
    now: Timestamp,
    r: Result<RouteOutcome, RouterError>,
)
    requires
        before.routed(after, cmd, event_id, now, r),
        before.audit_log.reliable(),
        before.channel.reliable(),
    ensures
        settled(
            route_plan(before.segmentation, before.governance, cmd),
            before.audit_log.events(),
            after.audit_log.events(),
            before.channel.sent(),
            after.channel.sent(),
            cmd,
            event_id,
            now,
            r,
        ),
        after.audit_log.reliable(),
        after.channel.reliable(),
{
}

/// With a reliable log, every decision about a command with known zones is
/// recorded, whatever the channel does: a channel error leaves the record
/// `ALLOWED` in the log and the channel as it was.
pub proof fn lemma_reliable_log_records_every_decision<
    S: SegmentationPolicy,
    G: EcoGovernancePolicy,
    L: AuditLog,
    C: AgentChannel,
>(
    before: EcoInfraRouter<S, G, L, C>,
    after: EcoInfraRouter<S, G, L, C>,
    cmd: RoutingCommandView,
    event_id: Seq<char>,
    now: Timestamp,
    r: Result<RouteOutcome, RouterError>,
)
    requires
        before.routed(after, cmd, event_id, now, r),
        before.audit_log.reliable(),
        before.segmentation.zone_of(cmd.source) is Some,
        before.segmentation.zone_of(cmd.target) is Some,
    ensures
        after.audit_log.events().len() == before.audit_log.events().len() + 1,
        after.audit_log.events().drop_last() == before.audit_log.events(),
        r matches Err(RouterError::Channel(_)) ==> {
            &&& after.channel.sent() == before.channel.sent()
            &&& after.audit_log.events().last().decision == AuditDecision::Allowed.label_text()
            &&& route_plan(before.segmentation, before.governance, cmd) is Dispatch
        },
{
    let log = before.audit_log.events();
    assert forall|e: AuditEventView| after.audit_log.events() == log.push(e) implies log.push(
        e,
    ).drop_last() == log by {
        assert(log.push(e).drop_last() =~= log);
    }
}

/// A command with an endpoint whose zone is unknown is refused by
/// segmentation, leaves no record and never reaches the channel.
pub proof fn lemma_unknown_zone_never_dispatched<
    S: SegmentationPolicy,
    G: EcoGovernancePolicy,
    L: AuditLog,
    C: AgentChannel,
>(
    before: EcoInfraRouter<S, G, L, C>,
    after: EcoInfraRouter<S, G, L, C>,
    cmd: RoutingCommandView,
    event_id: Seq<char>,
    now: Timestamp,
    r: Result<RouteOutcome, RouterError>,
)
    requires
        before.routed(after, cmd, event_id, now, r),
        before.segmentation.zone_of(cmd.source) is None || before.segmentation.zone_of(cmd.target)
            is None,
    ensures
        r matches Err(RouterError::Segmentation(_)),
        after.channel.sent() == before.channel.sent(),
        after.audit_log.events() == before.audit_log.events(),
{
}

/// A command is handed to the channel only when routing succeeds with
/// `Dispatched` or fails in the channel itself; then it is the one command
/// added, and the decision `ALLOWED` was recorded first. In every other
/// case the channel is left as it was.
pub proof fn lemma_dispatch_only_after_allowed<
    S: SegmentationPolicy,
    G: EcoGovernancePolicy,
    L: AuditLog,
    C: AgentChannel,
>(
    before: EcoInfraRouter<S, G, L, C>,
    after: EcoInfraRouter<S, G, L, C>,
    cmd: RoutingCommandView,
    event_id: Seq<char>,
    now: Timestamp,
    r: Result<RouteOutcome, RouterError>,
)
    requires
        before.routed(after, cmd, event_id, now, r),
    ensures
        r matches Ok(RouteOutcome::Dispatched) <==> after.channel.sent() == before.channel.sent().push(
            cmd,
        ),
        !(r matches Ok(RouteOutcome::Dispatched)) ==> after.channel.sent() == before.channel.sent(),
        r matches Ok(RouteOutcome::Dispatched) ==> after.audit_log.events().len()
            == before.audit_log.events().len() + 1 && after.audit_log.events().last().decision
            == AuditDecision::Allowed.label_text(),
        r matches Err(RouterError::Governance(code)) ==> before.governance.rejection(cmd) == Some(
            code,
        ),
{
    let s = before.channel.sent();
    assert(s.push(cmd).len() == s.len() + 1);
}

} // verus!
