//! Identities, zones, action kinds and the routing command.
//!
//! Quantities are fixed-point integers: power in kilowatts, instants in
//! nanoseconds since the Unix epoch. Every type that holds text has a view
//! over `Seq<char>`, and contracts elsewhere in the crate speak of views.

use vstd::prelude::*;

verus! {

/// Identifier of a controllable infrastructure node.
#[derive(Debug, PartialEq, Eq, Hash)]
pub struct AlnNodeId(pub String);

impl View for AlnNodeId {
    type V = Seq<char>;

    open spec fn view(&self) -> Seq<char> {
        self.0@
    }
}

impl Clone for AlnNodeId {
    fn clone(&self) -> (r: Self)
        ensures
            r@ == self@,
    {
        AlnNodeId(self.0.clone())
    }
}

/// A caller: a decentralized identifier and the credential that backs it.
#[derive(Debug, PartialEq, Eq)]
pub struct DidIdentity {
    pub did: String,
    pub verifiable_cred_id: String,
}

/// Mathematical value of a [`DidIdentity`].
pub struct DidIdentityView {
    pub did: Seq<char>,
    pub verifiable_cred_id: Seq<char>,
}

impl View for DidIdentity {
    type V = DidIdentityView;

    open spec fn view(&self) -> DidIdentityView {
        DidIdentityView { did: self.did@, verifiable_cred_id: self.verifiable_cred_id@ }
    }
}

impl Clone for DidIdentity {
    fn clone(&self) -> (r: Self)
        ensures
            r@ == self@,
    {
        DidIdentity { did: self.did.clone(), verifiable_cred_id: self.verifiable_cred_id.clone() }
    }
}

/// Security zone of a node. The segmentation policy assigns it; a command
/// never carries it.
#[derive(Clone, Copy, Debug, PartialEq, Eq, Structural)]
pub enum SecurityZone {
    EcoCore,
    GridOT,
    BuildingOT,
    DataCenter,
}

/// Kind of physical asset behind a node.
#[derive(Clone, Copy, Debug, PartialEq, Eq, Structural)]
pub enum AssetType {
    Substation,
    Microgrid,
    SolarFarm,
    WindFarm,
    BatteryCluster,
    DataCenter,
    BuildingCluster,
}

/// Class of the controller that executes commands on a node.
#[derive(Clone, Copy, Debug, PartialEq, Eq, Structural)]
pub enum DeviceClass {
    ApprovedCpuOnly,
    SecureHsmController,
    QuantumSafeGateway,
}

/// The control actions a command can ask for.
#[derive(Clone, Copy, Debug, PartialEq, Eq, Structural)]
pub enum RoutingActionKind {
    IncreaseExportMw,
    DecreaseExportMw,
    ShedLoadMw,
    ChargeStorageMw,
    DischargeStorageMw,
    ReconfigurePath,
}

/// An instant, counted in nanoseconds since 1970-01-01 00:00:00 UTC.
#[derive(Clone, Copy, Debug, PartialEq, Eq, Structural)]
pub struct Timestamp {
    pub unix_nanos: i64,
}

/// Why governance turned a command down. Each check has its own code, so
/// callers branch on the variant and never on message text.
#[derive(Clone, Copy, Debug, PartialEq, Eq, Structural)]
pub enum ReasonCode {
    NegativeMagnitude,
    ShedLimitExceeded,
    StepLimitExceeded,
    RiskCeiling,
    RiskMonotonicity,
    BiofieldCeiling,
    RoleConstraint,
}

impl ReasonCode {
    /// The stable text of the code.
    pub open spec fn code_text(self) -> Seq<char> {
        match self {
            ReasonCode::NegativeMagnitude => "NEGATIVE_MAGNITUDE"@,
            ReasonCode::ShedLimitExceeded => "SHED_LIMIT_EXCEEDED"@,
            ReasonCode::StepLimitExceeded => "STEP_LIMIT_EXCEEDED"@,
            ReasonCode::RiskCeiling => "ROH_LIMIT"@,
            ReasonCode::RiskMonotonicity => "ROH_MONOTONE_VIOLATION"@,
            ReasonCode::BiofieldCeiling => "BIOFIELD_LIMIT"@,
            ReasonCode::RoleConstraint => "ROLE_CONSTRAINT"@,
        }
    }

    /// Returns the stable text of the code.
    pub fn code(&self) -> (r: &'static str)
        ensures
            r@ == self.code_text(),
    {
        match self {
            ReasonCode::NegativeMagnitude => "NEGATIVE_MAGNITUDE",
            ReasonCode::ShedLimitExceeded => "SHED_LIMIT_EXCEEDED",
            ReasonCode::StepLimitExceeded => "STEP_LIMIT_EXCEEDED",
            ReasonCode::RiskCeiling => "ROH_LIMIT",
            ReasonCode::RiskMonotonicity => "ROH_MONOTONE_VIOLATION",
            ReasonCode::BiofieldCeiling => "BIOFIELD_LIMIT",
            ReasonCode::RoleConstraint => "ROLE_CONSTRAINT",
        }
    }
}

/// A request to change power flow between two nodes.
#[derive(Debug, PartialEq, Eq)]
pub struct RoutingCommand {
    pub id: String,
    pub session_id: String,
    pub issued_by: DidIdentity,
    pub source: AlnNodeId,
    pub target: AlnNodeId,
    pub action: RoutingActionKind,
    /// Size of the requested change, in kilowatts.
    pub magnitude_kw: i64,
    pub reason_code: String,
    pub created_at: Timestamp,
}

/// Mathematical value of a [`RoutingCommand`].
pub struct RoutingCommandView {
    pub id: Seq<char>,
    pub session_id: Seq<char>,
    pub issued_by: DidIdentityView,
    pub source: Seq<char>,
    pub target: Seq<char>,
    pub action: RoutingActionKind,
    pub magnitude_kw: int,
    pub reason_code: Seq<char>,
    pub created_at: Timestamp,
}

impl View for RoutingCommand {
    type V = RoutingCommandView;

    open spec fn view(&self) -> RoutingCommandView {
        RoutingCommandView {
            id: self.id@,
            session_id: self.session_id@,
            issued_by: self.issued_by@,
            source: self.source@,
            target: self.target@,
            action: self.action,
            magnitude_kw: self.magnitude_kw as int,
            reason_code: self.reason_code@,
            created_at: self.created_at,
        }
    }
}

impl Clone for RoutingCommand {
    fn clone(&self) -> (r: Self)
        ensures
            r@ == self@,
    {
        RoutingCommand {
            id: self.id.clone(),
            session_id: self.session_id.clone(),
            issued_by: self.issued_by.clone(),
            source: self.source.clone(),
            target: self.target.clone(),
            action: self.action,
            magnitude_kw: self.magnitude_kw,
            reason_code: self.reason_code.clone(),
            created_at: self.created_at,
        }
    }
}

} // verus!
