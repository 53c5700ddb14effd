//! Governance metadata of a protection domain: read-only configuration that
//! the decision engine consults.
//!
//! Loads and risks are normalized to the range from zero to one and counted
//! in parts per billion, so that one billion stands for 1.0.

use vstd::prelude::*;

verus! {

/// Parts per billion that stand for a normalized value of 1.0.
pub const PPB_ONE: u32 = 1_000_000_000;

/// The highest ceiling, in parts per billion, at which a domain still counts
/// as a sanctuary: one half.
pub const SANCTUARY_LOAD_PPB: u32 = 500_000_000;

/// Risk-management framework tags of a domain.
#[derive(Clone, Debug, PartialEq, Eq)]
pub struct AiRmfTag {
    pub functions: Vec<String>,
    pub hazard_class: Option<String>,
}

/// A family of security controls and the controls chosen from it.
#[derive(Clone, Debug, PartialEq, Eq)]
pub struct Sp80053Ref {
    pub family: String,
    pub controls: Vec<String>,
}

/// Impact levels of a domain, each one of `Low`, `Moderate`, `High`.
#[derive(Clone, Debug, PartialEq, Eq)]
pub struct Sp80053Impact {
    pub confidentiality: String,
    pub integrity: String,
    pub availability: String,
}

impl Sp80053Impact {
    /// Integrity or availability is rated `High`.
    pub open spec fn high_impact(&self) -> bool {
        self.integrity@ == "High"@ || self.availability@ == "High"@
    }
}

/// Reference to the cryptographic profile of a domain.
#[derive(Clone, Debug, PartialEq, Eq)]
pub struct Web5PqcProfile {
    pub did: String,
    pub dwn_locations: Vec<String>,
    pub kem_profile: String,
    pub sig_profile: String,
}

/// How far a human has to be involved before an action is dispatched.
#[derive(Clone, Copy, Debug, PartialEq, Eq, Structural)]
pub enum HitlLevel {
    NoneRequired,
    LowImpactOptional,
    HighImpactRequired,
}

/// Human-primacy policy of a domain.
#[derive(Clone, Debug, PartialEq, Eq)]
pub struct HumanPrimacy {
    pub hitl_level: HitlLevel,
    pub appeal_path_id: Option<String>,
}

/// A role and the number of signatures it has to contribute.
#[derive(Clone, Debug, PartialEq, Eq)]
pub struct RoleConstraint {
    pub role_name: String,
    pub min_signatures: u8,
}

/// The class of life or cognition that a domain protects.
#[derive(Clone, Debug, PartialEq, Eq)]
pub struct SpeciesNeuroclass {
    pub class_label: String,
    pub subclass_label: Option<String>,
    pub neurorights_required: bool,
}

/// Ceiling on the combined environmental load of a domain.
#[derive(Clone, Debug, PartialEq, Eq)]
pub struct BiofieldLoadCeiling {
    /// The ceiling, in parts per billion of the normalized load.
    pub max_normalized_load_ppb: u32,
    pub regime: Option<String>,
}

/// Governance metadata of one protection domain.
#[derive(Clone, Debug, PartialEq, Eq)]
pub struct ShardGovernanceMeta {
    pub airmf: AiRmfTag,
    pub sp80053_refs: Vec<Sp80053Ref>,
    pub sp80053_impact: Sp80053Impact,
    pub web5_pqc: Web5PqcProfile,
    pub human_primacy: HumanPrimacy,
    pub role_constraints: Vec<RoleConstraint>,
    pub species_neuroclass: SpeciesNeuroclass,
    pub biofield_load_ceiling: BiofieldLoadCeiling,
}

impl ShardGovernanceMeta {
    /// The domain asks for human approval of high-impact actions.
    pub open spec fn hitl_required(&self) -> bool {
        self.human_primacy.hitl_level == HitlLevel::HighImpactRequired
    }

    /// The domain has a ceiling of at most one half and asks for
    /// neurorights protection.
    pub open spec fn sanctuary_like(&self) -> bool {
        self.species_neuroclass.neurorights_required
            && self.biofield_load_ceiling.max_normalized_load_ppb <= SANCTUARY_LOAD_PPB
    }

    /// Tells whether the domain asks for human approval of high-impact
    /// actions.
    pub fn requires_hitl(&self) -> (r: bool)
        ensures
            r == self.hitl_required(),
    {
        match self.human_primacy.hitl_level {
            HitlLevel::HighImpactRequired => true,
            _ => false,
        }
    }

    /// Tells whether the domain is a sanctuary.
    pub fn is_sanctuary_like(&self) -> (r: bool)
        ensures
            r == self.sanctuary_like(),
    {
        self.species_neuroclass.neurorights_required
            && self.biofield_load_ceiling.max_normalized_load_ppb <= SANCTUARY_LOAD_PPB
    }
}

} // verus!
