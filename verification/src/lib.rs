//! Authorization pipeline for infrastructure routing commands.
//!
//! A command passes a segmentation check, a governance check and an audit
//! write before it is handed to the dispatch channel; every decision is
//! recorded in a hash-chained log. A command that needs a human enters a
//! three-state approval lifecycle instead of the channel.

pub mod audit;
pub mod channel;
pub mod clock;
pub mod digest;
pub mod domain;
pub mod governance_guard;
pub mod governance_meta;
pub mod hitl_typestate;
pub mod ident;
pub mod policy;
pub mod router;
pub mod session;
pub mod text;

pub use crate::audit::{AuditError, AuditEvent, AuditLog, InMemoryAuditLog};
pub use crate::channel::{AgentChannel, ChannelError, LoggingAgentChannel};
pub use crate::domain::{
    AlnNodeId, AssetType, DeviceClass, DidIdentity, ReasonCode, RoutingActionKind, RoutingCommand,
    SecurityZone, Timestamp,
};
pub use crate::policy::{
    EcoGovernancePolicy, GovernanceRuleConfig, NodeConfig, RulesEcoGovernancePolicy,
    SegmentationPolicy, StaticSegmentationConfig, StaticSegmentationPolicy,
};
pub use crate::router::{
    AuditDecision, EcoInfraRouter, RouteOutcome, RoutePlan, RouterError, SegmentationDenial,
};
pub use crate::session::{InMemorySessionManager, SecureSession, SessionError, SessionManager};
