use eco_infra_aln_router::domain::{
    AlnNodeId, DeviceClass, DidIdentity, ReasonCode, RoutingActionKind, RoutingCommand,
    SecurityZone, Timestamp,
};
use eco_infra_aln_router::policy::{
    EcoGovernancePolicy, GovernanceRuleConfig, NodeConfig, RulesEcoGovernancePolicy,
    SegmentationPolicy, StaticSegmentationConfig, StaticSegmentationPolicy,
};

fn id(name: &str) -> AlnNodeId {
    AlnNodeId(name.to_string())
}

fn cmd(source: &str, target: &str, action: RoutingActionKind, magnitude_kw: i64) -> RoutingCommand {
    RoutingCommand {
        id: "c".to_string(),
        session_id: "s".to_string(),
        issued_by: DidIdentity { did: "d".to_string(), verifiable_cred_id: "v".to_string() },
        source: id(source),
        target: id(target),
        action,
        magnitude_kw,
        reason_code: "r".to_string(),
        created_at: Timestamp { unix_nanos: 0 },
    }
}

fn table() -> StaticSegmentationPolicy {
    StaticSegmentationPolicy::from_config(&StaticSegmentationConfig {
        nodes: vec![
            NodeConfig {
                id: "a".to_string(),
                zone: SecurityZone::EcoCore,
                device_class: DeviceClass::ApprovedCpuOnly,
            },
            NodeConfig {
                id: "b".to_string(),
                zone: SecurityZone::BuildingOT,
                device_class: DeviceClass::SecureHsmController,
            },
            NodeConfig {
                id: "a".to_string(),
                zone: SecurityZone::DataCenter,
                device_class: DeviceClass::QuantumSafeGateway,
            },
        ],
    })
}

#[test]
fn lookup_of_known_and_unknown_nodes() {
    let p = table();
    assert_eq!(p.node_zone(&id("b")), Some(SecurityZone::BuildingOT));
    assert_eq!(p.device_class(&id("b")), Some(DeviceClass::SecureHsmController));
    assert_eq!(p.node_zone(&id("c")), None);
    assert_eq!(p.device_class(&id("c")), None);
    assert_eq!(p.node_zone(&id("")), None);
}

#[test]
fn later_row_replaces_earlier_row() {
    let p = table();
    assert_eq!(p.node_zone(&id("a")), Some(SecurityZone::DataCenter));
    assert_eq!(p.device_class(&id("a")), Some(DeviceClass::QuantumSafeGateway));
}

#[test]
fn empty_table_knows_nothing() {
    let p = StaticSegmentationPolicy::from_config(&StaticSegmentationConfig { nodes: vec![] });
    assert_eq!(p.node_zone(&id("a")), None);
    assert!(!p.is_command_permitted(&cmd("a", "a", RoutingActionKind::ShedLoadMw, 1)));
}

#[test]
fn admission_follows_the_structural_rule() {
    let p = StaticSegmentationPolicy::from_config(&StaticSegmentationConfig {
        nodes: vec![
            NodeConfig {
                id: "core".to_string(),
                zone: SecurityZone::EcoCore,
                device_class: DeviceClass::ApprovedCpuOnly,
            },
            NodeConfig {
                id: "grid".to_string(),
                zone: SecurityZone::GridOT,
                device_class: DeviceClass::ApprovedCpuOnly,
            },
        ],
    });
    assert!(p.is_command_permitted(&cmd("grid", "core", RoutingActionKind::ShedLoadMw, 1)));
    assert!(p.is_command_permitted(&cmd("grid", "grid", RoutingActionKind::IncreaseExportMw, -1)));
    assert!(p.is_command_permitted(&cmd("core", "grid", RoutingActionKind::ReconfigurePath, 1)));
    assert!(!p.is_command_permitted(&cmd("grid", "core", RoutingActionKind::ReconfigurePath, 1)));
    assert!(!p.is_command_permitted(&cmd("none", "core", RoutingActionKind::ShedLoadMw, 1)));
    assert!(!p.is_command_permitted(&cmd("core", "none", RoutingActionKind::ShedLoadMw, 1)));
}

fn rules(max_shed: i64, max_step: i64, hitl: i64) -> RulesEcoGovernancePolicy {
    RulesEcoGovernancePolicy::new(GovernanceRuleConfig {
        max_shed_load_kw: max_shed,
        max_step_change_kw: max_step,
        hitl_threshold_kw: hitl,
        protected_zones: vec![],
    })
}

#[test]
fn limits_are_inclusive() {
    let g = rules(100, 200, 150);
    assert_eq!(g.validate_routing(&cmd("a", "b", RoutingActionKind::ShedLoadMw, 100)), Ok(()));
    assert_eq!(
        g.validate_routing(&cmd("a", "b", RoutingActionKind::ShedLoadMw, 101)),
        Err(ReasonCode::ShedLimitExceeded)
    );
    assert_eq!(g.validate_routing(&cmd("a", "b", RoutingActionKind::ChargeStorageMw, 200)), Ok(()));
    assert_eq!(
        g.validate_routing(&cmd("a", "b", RoutingActionKind::ChargeStorageMw, 201)),
        Err(ReasonCode::StepLimitExceeded)
    );
    assert_eq!(g.validate_routing(&cmd("a", "b", RoutingActionKind::ChargeStorageMw, 0)), Ok(()));
}

#[test]
fn shed_limit_is_checked_before_step_limit() {
    let g = rules(100, 50, 150);
    assert_eq!(
        g.validate_routing(&cmd("a", "b", RoutingActionKind::ShedLoadMw, 101)),
        Err(ReasonCode::ShedLimitExceeded)
    );
    assert_eq!(
        g.validate_routing(&cmd("a", "b", RoutingActionKind::ShedLoadMw, 51)),
        Err(ReasonCode::StepLimitExceeded)
    );
}

#[test]
fn negative_magnitude_comes_first() {
    for g in [rules(100, 200, 150), rules(-5, -5, -5), rules(i64::MIN, i64::MIN, i64::MIN)] {
        for m in [-1, -1000, i64::MIN] {
            assert_eq!(
                g.validate_routing(&cmd("a", "b", RoutingActionKind::ShedLoadMw, m)),
                Err(ReasonCode::NegativeMagnitude)
            );
            assert_eq!(
                g.validate_routing(&cmd("x", "y", RoutingActionKind::ReconfigurePath, m)),
                Err(ReasonCode::NegativeMagnitude)
            );
        }
    }
}

#[test]
fn human_approval_from_the_threshold_on() {
    let g = rules(100, 200, 150);
    assert!(!g.requires_human_approval(&cmd("a", "b", RoutingActionKind::ShedLoadMw, 149)));
    assert!(g.requires_human_approval(&cmd("a", "b", RoutingActionKind::ShedLoadMw, 150)));
    assert!(g.requires_human_approval(&cmd("a", "b", RoutingActionKind::ShedLoadMw, i64::MAX)));
}
