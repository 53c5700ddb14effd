//! The governance decision engine: an ordered list of checks on risk, load,
//! roles and human oversight, the first failing of which decides.

use crate::domain::ReasonCode;
use crate::governance_meta::{
    BiofieldLoadCeiling, RoleConstraint, ShardGovernanceMeta, Sp80053Impact,
};
use vstd::prelude::*;

verus! {

/// Tolerance of the two ceiling checks, in parts per billion: the
/// single-precision machine epsilon, two to the power of minus
/// twenty-three, rounded down.
pub const CEILING_TOLERANCE_PPB: u32 = 119;

/// Tolerance of the monotonicity check, in parts per billion: one millionth.
pub const MONOTONE_TOLERANCE_PPB: u32 = 1_000;

/// What the engine decides about a payload.
#[derive(Clone, Debug, PartialEq, Eq)]
pub enum GovernanceDecision<T> {
    /// The action may be dispatched.
    Allowed(T),
    /// The action is authorized in principle and waits for a human.
    RequiresHitlGate(T),
    /// The action is turned down, with the code of the check that failed.
    Rejected(ReasonCode),
}

/// Inputs of one evaluation. Risks and load are in parts per billion.
#[derive(Clone, Debug, PartialEq, Eq)]
pub struct GovernanceContext {
    /// Role labels of the caller, one per signature.
    pub caller_roles: Vec<String>,
    /// Risk of harm before the proposed change.
    pub roh_before_ppb: u32,
    /// Predicted risk of harm after the proposed change.
    pub roh_after_ppb: u32,
    /// Current normalized environmental load.
    pub biofield_load_ppb: u32,
}

/// The configured ceiling on the risk of harm.
#[derive(Clone, Copy, Debug, PartialEq, Eq, Structural)]
pub struct RiskOfHarm {
    pub ceiling_ppb: u32,
}

impl RiskOfHarm {
    pub fn roh_ceiling(&self) -> (r: u32)
        ensures
            r == self.ceiling_ppb,
    {
        self.ceiling_ppb
    }
}

/// The outcome of the checks, apart from the payload.
pub enum Verdict {
    Allow,
    HumanGate,
    Reject(ReasonCode),
}

/// How many of the caller's role labels equal `name`.
pub open spec fn role_count(roles: Seq<String>, name: Seq<char>) -> nat
    decreases roles.len(),
{
    if roles.len() == 0 {
        0
    } else {
        role_count(roles.drop_last(), name) + if roles.last()@ == name {
            1nat
        } else {
            0nat
        }
    }
}

/// Every constraint finds at least its minimum number of signatures among
/// the caller's role labels.
pub open spec fn roles_satisfy(constraints: Seq<RoleConstraint>, roles: Seq<String>) -> bool {
    forall|i: int|
        0 <= i < constraints.len() ==> role_count(roles, (#[trigger] constraints[i]).role_name@)
            >= constraints[i].min_signatures
}

/// The checks in their order.
pub open spec fn verdict(
    ceiling_ppb: int,
    meta: ShardGovernanceMeta,
    ctx: GovernanceContext,
) -> Verdict {
    if ctx.roh_after_ppb > ceiling_ppb + CEILING_TOLERANCE_PPB {
        Verdict::Reject(ReasonCode::RiskCeiling)
    } else if ctx.roh_after_ppb > ctx.roh_before_ppb + MONOTONE_TOLERANCE_PPB {
        Verdict::Reject(ReasonCode::RiskMonotonicity)
    } else if ctx.biofield_load_ppb > meta.biofield_load_ceiling.max_normalized_load_ppb
        + CEILING_TOLERANCE_PPB {
        Verdict::Reject(ReasonCode::BiofieldCeiling)
    } else if !roles_satisfy(meta.role_constraints@, ctx.caller_roles@) {
        Verdict::Reject(ReasonCode::RoleConstraint)
    } else if meta.hitl_required() && meta.sp80053_impact.high_impact() {
        Verdict::HumanGate
    } else {
        Verdict::Allow
    }
}

/// The decision that carries `payload` under the verdict `v`.
pub open spec fn decision_of<T>(v: Verdict, payload: T) -> GovernanceDecision<T> {
    match v {
        Verdict::Allow => GovernanceDecision::Allowed(payload),
        Verdict::HumanGate => GovernanceDecision::RequiresHitlGate(payload),
        Verdict::Reject(code) => GovernanceDecision::Rejected(code),
    }
}

/// Counts the role labels equal to `name`.
pub fn count_role(roles: &Vec<String>, name: &String) -> (r: usize)
    ensures
        r == role_count(roles@, name@),
{
    let n: usize = roles.len();
    let mut i: usize = 0;
    let mut found: usize = 0;
    assert(roles@.take(0) =~= Seq::<String>::empty());
    while i < n
        invariant
            n == roles@.len(),
            i <= n,
            found <= i,
            found == role_count(roles@.take(i as int), name@),
        decreases n - i,
    {
        proof {
            let next = roles@.take(i + 1);
            assert(next.drop_last() =~= roles@.take(i as int));
            assert(next.last() == roles@[i as int]);
        }
        if roles[i] == *name {
            found = found + 1;
        }
        i = i + 1;
    }
    assert(roles@.take(n as int) =~= roles@);
    found
}

/// Tells whether the caller's role labels meet every constraint.
pub fn roles_satisfy_constraints(constraints: &Vec<RoleConstraint>, roles: &Vec<String>) -> (r:
    bool)
    ensures
        r == roles_satisfy(constraints@, roles@),
{
    let n: usize = constraints.len();
    let mut i: usize = 0;
    while i < n
        invariant
            n == constraints@.len(),
            i <= n,
            forall|j: int|
                0 <= j < i ==> role_count(roles@, (#[trigger] constraints@[j]).role_name@)
                    >= constraints@[j].min_signatures,
        decreases n - i,
    {
        let have = count_role(roles, &constraints[i].role_name);
        if have < constraints[i].min_signatures as usize {
            return false;
        }
        i = i + 1;
    }
    true
}

/// The engine. It holds the risk ceiling; everything else comes with each
/// call.
#[derive(Clone, Copy, Debug, PartialEq, Eq, Structural)]
pub struct GovernanceGuard {
    pub roh: RiskOfHarm,
}

impl GovernanceGuard {
    /// Tells whether `current_load_ppb` stays within the ceiling and its
    /// tolerance.
    pub fn enforce_biofield_ceiling(&self, ceiling: &BiofieldLoadCeiling, current_load_ppb: u32) -> (r:
        bool)
        ensures
            r == (current_load_ppb <= ceiling.max_normalized_load_ppb + CEILING_TOLERANCE_PPB),
    {
        current_load_ppb as u64 <= ceiling.max_normalized_load_ppb as u64
            + CEILING_TOLERANCE_PPB as u64
    }

    /// Tells whether integrity or availability is rated `High`.
    pub fn is_high_impact(&self, impact: &Sp80053Impact) -> (r: bool)
        ensures
            r == impact.high_impact(),
    {
        let high = "High".to_owned();
        impact.integrity == high || impact.availability == high
    }

    /// Evaluates one proposed action and hands the payload back inside the
    /// decision. The result depends on the three inputs and the ceiling
    /// alone.
    pub fn evaluate<T>(&self, meta: &ShardGovernanceMeta, ctx: &GovernanceContext, payload: T) -> (r:
        GovernanceDecision<T>)
        ensures
            r == decision_of(verdict(self.roh.ceiling_ppb as int, *meta, *ctx), payload),
    {
        if ctx.roh_after_ppb as u64 > self.roh.roh_ceiling() as u64 + CEILING_TOLERANCE_PPB as u64 {
            return GovernanceDecision::Rejected(ReasonCode::RiskCeiling);
        }
        if ctx.roh_after_ppb as u64 > ctx.roh_before_ppb as u64 + MONOTONE_TOLERANCE_PPB as u64 {
            return GovernanceDecision::Rejected(ReasonCode::RiskMonotonicity);
        }
        if !self.enforce_biofield_ceiling(&meta.biofield_load_ceiling, ctx.biofield_load_ppb) {
            return GovernanceDecision::Rejected(ReasonCode::BiofieldCeiling);
        }
        if !roles_satisfy_constraints(&meta.role_constraints, &ctx.caller_roles) {
            return GovernanceDecision::Rejected(ReasonCode::RoleConstraint);
        }
        if meta.requires_hitl() && self.is_high_impact(&meta.sp80053_impact) {
            return GovernanceDecision::RequiresHitlGate(payload);
        }
        GovernanceDecision::Allowed(payload)
    }
}

/// A predicted risk above the ceiling and its tolerance is rejected with the
/// code of the ceiling, also where it does not exceed the risk before.
pub proof fn lemma_risk_above_ceiling_rejected(
    ceiling_ppb: int,
    meta: ShardGovernanceMeta,
    ctx: GovernanceContext,
)
    requires
        ctx.roh_after_ppb > ceiling_ppb + CEILING_TOLERANCE_PPB,
    ensures
        verdict(ceiling_ppb, meta, ctx) == Verdict::Reject(ReasonCode::RiskCeiling),
{
}

/// A predicted risk that stays within the ceiling but exceeds the risk
/// before by more than a millionth is rejected with the code of
/// monotonicity.
pub proof fn lemma_risk_increase_rejected(
    ceiling_ppb: int,
    meta: ShardGovernanceMeta,
    ctx: GovernanceContext,
)
    requires
        ctx.roh_after_ppb <= ceiling_ppb + CEILING_TOLERANCE_PPB,
        ctx.roh_after_ppb > ctx.roh_before_ppb + MONOTONE_TOLERANCE_PPB,
    ensures
        verdict(ceiling_ppb, meta, ctx) == Verdict::Reject(ReasonCode::RiskMonotonicity),
{
}

/// A caller who lacks the signatures of any one constraint is rejected,
/// whatever the other inputs are; where the checks on risk and load pass,
/// the code is that of the role constraints.
pub proof fn lemma_missing_role_rejected(
    ceiling_ppb: int,
    meta: ShardGovernanceMeta,
    ctx: GovernanceContext,
    i: int,
)
    requires
        0 <= i < meta.role_constraints@.len(),
        role_count(ctx.caller_roles@, meta.role_constraints@[i].role_name@)
            < meta.role_constraints@[i].min_signatures,
    ensures
        !roles_satisfy(meta.role_constraints@, ctx.caller_roles@),
        verdict(ceiling_ppb, meta, ctx) is Reject,
        ctx.roh_after_ppb <= ceiling_ppb + CEILING_TOLERANCE_PPB && ctx.roh_after_ppb
            <= ctx.roh_before_ppb + MONOTONE_TOLERANCE_PPB && ctx.biofield_load_ppb
            <= meta.biofield_load_ceiling.max_normalized_load_ppb + CEILING_TOLERANCE_PPB
            ==> verdict(ceiling_ppb, meta, ctx) == Verdict::Reject(ReasonCode::RoleConstraint),
{
}

/// The texts of a sequence of role labels.
pub open spec fn label_texts(roles: Seq<String>) -> Seq<Seq<char>> {
    roles.map_values(|r: String| r@)
}

/// The role name and the minimum of each constraint.
pub open spec fn constraint_texts(constraints: Seq<RoleConstraint>) -> Seq<(Seq<char>, u8)> {
    constraints.map_values(|c: RoleConstraint| (c.role_name@, c.min_signatures))
}

/// Role labels with the same texts give the same count for every name.
pub proof fn lemma_role_count_depends_on_texts(
    roles_a: Seq<String>,
    roles_b: Seq<String>,
    name: Seq<char>,
)
    requires
        label_texts(roles_a) == label_texts(roles_b),
    ensures
        role_count(roles_a, name) == role_count(roles_b, name),
    decreases roles_a.len(),
{
    assert(roles_a.len() == label_texts(roles_a).len());
    assert(roles_b.len() == label_texts(roles_b).len());
    if roles_a.len() > 0 {
        assert(roles_a.last()@ == label_texts(roles_a).last());
        assert(roles_b.last()@ == label_texts(roles_b).last());
        assert(label_texts(roles_a.drop_last()) =~= label_texts(roles_a).drop_last());
        assert(label_texts(roles_b.drop_last()) =~= label_texts(roles_b).drop_last());
        lemma_role_count_depends_on_texts(roles_a.drop_last(), roles_b.drop_last(), name);
    }
}

/// Whether the roles satisfy the constraints depends on the texts alone: on
/// the name and the minimum of each constraint and on the caller's role
/// labels. Two evaluations that agree on these agree on it, whatever else
/// differs between them.
pub proof fn lemma_role_check_depends_on_roles_only(
    meta_a: ShardGovernanceMeta,
    ctx_a: GovernanceContext,
    meta_b: ShardGovernanceMeta,
    ctx_b: GovernanceContext,
)
    requires
        constraint_texts(meta_a.role_constraints@) == constraint_texts(meta_b.role_constraints@),
        label_texts(ctx_a.caller_roles@) == label_texts(ctx_b.caller_roles@),
    ensures
        roles_satisfy(meta_a.role_constraints@, ctx_a.caller_roles@) == roles_satisfy(
            meta_b.role_constraints@,
            ctx_b.caller_roles@,
        ),
{
    let ca = meta_a.role_constraints@;
    let cb = meta_b.role_constraints@;
    let ra = ctx_a.caller_roles@;
    let rb = ctx_b.caller_roles@;
    assert(ca.len() == constraint_texts(ca).len());
    assert(cb.len() == constraint_texts(cb).len());
    assert forall|i: int| 0 <= i < ca.len() implies (#[trigger] ca[i]).role_name@
        == cb[i].role_name@ && ca[i].min_signatures == cb[i].min_signatures && role_count(
        ra,
        ca[i].role_name@,
    ) == role_count(rb, cb[i].role_name@) by {
        assert(constraint_texts(ca)[i] == (ca[i].role_name@, ca[i].min_signatures));
        assert(constraint_texts(cb)[i] == (cb[i].role_name@, cb[i].min_signatures));
        lemma_role_count_depends_on_texts(ra, rb, ca[i].role_name@);
    }
    if roles_satisfy(ca, ra) {
        assert forall|i: int| 0 <= i < cb.len() implies role_count(
            rb,
            (#[trigger] cb[i]).role_name@,
        ) >= cb[i].min_signatures by {
            assert(role_count(ra, ca[i].role_name@) >= ca[i].min_signatures);
        }
    }
    if roles_satisfy(cb, rb) {
        assert forall|i: int| 0 <= i < ca.len() implies role_count(
            ra,
            (#[trigger] ca[i]).role_name@,
        ) >= ca[i].min_signatures by {
            assert(role_count(rb, cb[i].role_name@) >= cb[i].min_signatures);
        }
    }
}

} // verus!
