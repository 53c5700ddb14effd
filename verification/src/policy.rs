//! Segmentation policy and governance rules: which commands are admissible
//! at all, and which of those stay within the configured limits.

use crate::domain::{
    AlnNodeId, DeviceClass, ReasonCode, RoutingActionKind, RoutingCommand, RoutingCommandView,
    SecurityZone,
};
use vstd::hash_map::StringHashMap;
use vstd::prelude::*;

verus! {

/// The name of a node, as contracts see it.
pub type NodeName = Seq<char>;

/// Structural admissibility of commands: which zone and device class a node
/// has, and whether a command between two nodes may be considered at all.
pub trait SegmentationPolicy {
    /// The zone the policy assigns to a node, if it knows the node.
    spec fn zone_of(&self, node: NodeName) -> Option<SecurityZone>;

    /// The device class the policy assigns to a node, if it knows one.
    spec fn class_of(&self, node: NodeName) -> Option<DeviceClass>;

    /// Whether the policy admits the command.
    spec fn permits(&self, cmd: RoutingCommandView) -> bool;

    fn node_zone(&self, node: &AlnNodeId) -> (r: Option<SecurityZone>)
        ensures
            r == self.zone_of(node@),
    ;

    fn device_class(&self, node: &AlnNodeId) -> (r: Option<DeviceClass>)
        ensures
            r == self.class_of(node@),
    ;

    fn is_command_permitted(&self, cmd: &RoutingCommand) -> (r: bool)
        ensures
            r == self.permits(cmd@),
    ;
}

/// One row of the segmentation table.
#[derive(Debug, PartialEq, Eq)]
pub struct NodeConfig {
    pub id: String,
    pub zone: SecurityZone,
    pub device_class: DeviceClass,
}

/// Mathematical value of a [`NodeConfig`].
pub struct NodeConfigView {
    pub id: Seq<char>,
    pub zone: SecurityZone,
    pub device_class: DeviceClass,
}

impl View for NodeConfig {
    type V = NodeConfigView;

    open spec fn view(&self) -> NodeConfigView {
        NodeConfigView { id: self.id@, zone: self.zone, device_class: self.device_class }
    }
}

/// The segmentation table: one row per node. Where an identifier occurs
/// twice, the later row counts.
#[derive(Debug, PartialEq, Eq)]
pub struct StaticSegmentationConfig {
    pub nodes: Vec<NodeConfig>,
}

impl View for StaticSegmentationConfig {
    type V = Seq<NodeConfigView>;

    open spec fn view(&self) -> Seq<NodeConfigView> {
        self.nodes@.map_values(|n: NodeConfig| n@)
    }
}

/// The zone of each node named in `rows`; a later row replaces an earlier one.
pub open spec fn zone_table(rows: Seq<NodeConfigView>) -> Map<Seq<char>, SecurityZone>
    decreases rows.len(),
{
    if rows.len() == 0 {
        Map::empty()
    } else {
        zone_table(rows.drop_last()).insert(rows.last().id, rows.last().zone)
    }
}

/// The device class of each node named in `rows`; a later row replaces an
/// earlier one.
pub open spec fn class_table(rows: Seq<NodeConfigView>) -> Map<Seq<char>, DeviceClass>
    decreases rows.len(),
{
    if rows.len() == 0 {
        Map::empty()
    } else {
        class_table(rows.drop_last()).insert(rows.last().id, rows.last().device_class)
    }
}

/// A node that no row names has neither zone nor device class.
pub proof fn lemma_table_unknown_node(rows: Seq<NodeConfigView>, node: Seq<char>)
    requires
        forall|i: int| 0 <= i < rows.len() ==> (#[trigger] rows[i]).id != node,
    ensures
        !zone_table(rows).contains_key(node),
        !class_table(rows).contains_key(node),
    decreases rows.len(),
{
    if rows.len() > 0 {
        let front = rows.drop_last();
        assert forall|i: int| 0 <= i < front.len() implies (#[trigger] front[i]).id != node by {
            assert(front[i] == rows[i]);
        }
        lemma_table_unknown_node(front, node);
    }
}

/// A node has the zone and the device class of the last row that names it.
pub proof fn lemma_table_last_row_counts(rows: Seq<NodeConfigView>, i: int)
    requires
        0 <= i < rows.len(),
        forall|j: int| i < j < rows.len() ==> (#[trigger] rows[j]).id != rows[i].id,
    ensures
        zone_table(rows).contains_key(rows[i].id),
        zone_table(rows)[rows[i].id] == rows[i].zone,
        class_table(rows).contains_key(rows[i].id),
        class_table(rows)[rows[i].id] == rows[i].device_class,
    decreases rows.len(),
{
    if i < rows.len() - 1 {
        let front = rows.drop_last();
        assert(front[i] == rows[i]);
        assert forall|j: int| i < j < front.len() implies (#[trigger] front[j]).id
            != front[i].id by {
            assert(front[j] == rows[j]);
        }
        lemma_table_last_row_counts(front, i);
        assert(rows.last().id != rows[i].id);
    }
}

/// The structural rule. A command is admissible when both endpoints have a
/// zone and the target has a device class; `ReconfigurePath` in addition
/// must originate in the `EcoCore` zone.
pub open spec fn structurally_permitted(
    source_zone: Option<SecurityZone>,
    target_zone: Option<SecurityZone>,
    target_class: Option<DeviceClass>,
    action: RoutingActionKind,
) -> bool {
    &&& source_zone is Some
    &&& target_zone is Some
    &&& target_class is Some
    &&& action == RoutingActionKind::ReconfigurePath ==> source_zone == Some(SecurityZone::EcoCore)
}

/// A segmentation policy read once from a table of nodes.
pub struct StaticSegmentationPolicy {
    zones: StringHashMap<SecurityZone>,
    classes: StringHashMap<DeviceClass>,
}

impl StaticSegmentationPolicy {
    /// The zone of each node the policy knows.
    pub closed spec fn zones(&self) -> Map<Seq<char>, SecurityZone> {
        self.zones@
    }

    /// The device class of each node the policy knows.
    pub closed spec fn classes(&self) -> Map<Seq<char>, DeviceClass> {
        self.classes@
    }

    /// Builds the policy from the table.
    pub fn from_config(cfg: &StaticSegmentationConfig) -> (r: Self)
        ensures
            r.zones() == zone_table(cfg@),
            r.classes() == class_table(cfg@),
    {
        let mut zones: StringHashMap<SecurityZone> = StringHashMap::new();
        let mut classes: StringHashMap<DeviceClass> = StringHashMap::new();
        let n: usize = cfg.nodes.len();
        let mut i: usize = 0;
        while i < n
            invariant
                n == cfg.nodes@.len(),
                i <= n,
                zones@ == zone_table(cfg@.take(i as int)),
                classes@ == class_table(cfg@.take(i as int)),
            decreases n - i,
        {
            let row = &cfg.nodes[i];
            zones.insert(row.id.clone(), row.zone);
            classes.insert(row.id.clone(), row.device_class);
            proof {
                let next = cfg@.take(i + 1);
                assert(next.drop_last() =~= cfg@.take(i as int));
                assert(next.last() == row@);
            }
            i = i + 1;
        }
        assert(cfg@.take(n as int) =~= cfg@);
        StaticSegmentationPolicy { zones, classes }
    }
}

impl SegmentationPolicy for StaticSegmentationPolicy {
    open spec fn zone_of(&self, node: NodeName) -> Option<SecurityZone> {
        if self.zones().contains_key(node) {
            Some(self.zones()[node])
        } else {
            None
        }
    }

    open spec fn class_of(&self, node: NodeName) -> Option<DeviceClass> {
        if self.classes().contains_key(node) {
            Some(self.classes()[node])
        } else {
            None
        }
    }

    open spec fn permits(&self, cmd: RoutingCommandView) -> bool {
        structurally_permitted(
            self.zone_of(cmd.source),
            self.zone_of(cmd.target),
            self.class_of(cmd.target),
            cmd.action,
        )
    }

    fn node_zone(&self, node: &AlnNodeId) -> (r: Option<SecurityZone>) {
        match self.zones.get(node.0.as_str()) {
            Some(z) => Some(*z),
            None => None,
        }
    }

    fn device_class(&self, node: &AlnNodeId) -> (r: Option<DeviceClass>) {
        match self.classes.get(node.0.as_str()) {
            Some(c) => Some(*c),
            None => None,
        }
    }

    fn is_command_permitted(&self, cmd: &RoutingCommand) -> (r: bool) {
        let source_zone = match self.node_zone(&cmd.source) {
            Some(z) => z,
            None => {
                return false;
            },
        };
        if self.node_zone(&cmd.target).is_none() {
            return false;
        }
        if self.device_class(&cmd.target).is_none() {
            return false;
        }
        match cmd.action {
            RoutingActionKind::ReconfigurePath => source_zone == SecurityZone::EcoCore,
            _ => true,
        }
    }
}

/// Quantitative admissibility of commands: limits on what may be asked, and
/// the point from which a human has to approve.
pub trait EcoGovernancePolicy {
    /// The code with which the policy turns the command down, or `None` if
    /// it accepts the command.
    spec fn rejection(&self, cmd: RoutingCommandView) -> Option<ReasonCode>;

    /// Whether the command has to wait for a human to approve it.
    spec fn needs_human(&self, cmd: RoutingCommandView) -> bool;

    fn validate_routing(&self, cmd: &RoutingCommand) -> (r: Result<(), ReasonCode>)
        ensures
            r == (match self.rejection(cmd@) {
                Some(code) => Err::<(), ReasonCode>(code),
                None => Ok(()),
            }),
    ;

    fn requires_human_approval(&self, cmd: &RoutingCommand) -> (r: bool)
        ensures
            r == self.needs_human(cmd@),
    ;
}

/// Numeric limits of the governance rules, in kilowatts, and the zones under
/// special protection.
#[derive(Debug, PartialEq, Eq)]
pub struct GovernanceRuleConfig {
    pub max_shed_load_kw: i64,
    pub max_step_change_kw: i64,
    pub hitl_threshold_kw: i64,
    pub protected_zones: Vec<SecurityZone>,
}

/// The rule checks in their order: a negative magnitude, then the limit on
/// load shedding, then the limit on any single step. The first that fails
/// gives the code.
pub open spec fn rule_rejection(
    max_shed_load_kw: int,
    max_step_change_kw: int,
    action: RoutingActionKind,
    magnitude_kw: int,
) -> Option<ReasonCode> {
    if magnitude_kw < 0 {
        Some(ReasonCode::NegativeMagnitude)
    } else if action == RoutingActionKind::ShedLoadMw && magnitude_kw > max_shed_load_kw {
        Some(ReasonCode::ShedLimitExceeded)
    } else if magnitude_kw > max_step_change_kw {
        Some(ReasonCode::StepLimitExceeded)
    } else {
        None
    }
}

/// A governance policy that applies a [`GovernanceRuleConfig`].
pub struct RulesEcoGovernancePolicy {
    rules: GovernanceRuleConfig,
}

impl RulesEcoGovernancePolicy {
    /// The limits the policy applies.
    pub closed spec fn rules(&self) -> GovernanceRuleConfig {
        self.rules
    }

    pub fn new(rules: GovernanceRuleConfig) -> (r: Self)
        ensures
            r.rules() == rules,
    {
        RulesEcoGovernancePolicy { rules }
    }
}

impl EcoGovernancePolicy for RulesEcoGovernancePolicy {
    open spec fn rejection(&self, cmd: RoutingCommandView) -> Option<ReasonCode> {
        rule_rejection(
            self.rules().max_shed_load_kw as int,
            self.rules().max_step_change_kw as int,
            cmd.action,
            cmd.magnitude_kw,
        )
    }

    open spec fn needs_human(&self, cmd: RoutingCommandView) -> bool {
        cmd.magnitude_kw >= self.rules().hitl_threshold_kw
    }

    fn validate_routing(&self, cmd: &RoutingCommand) -> (r: Result<(), ReasonCode>) {
        if cmd.magnitude_kw < 0 {
            return Err(ReasonCode::NegativeMagnitude);
        }
        match cmd.action {
            RoutingActionKind::ShedLoadMw => {
                if cmd.magnitude_kw > self.rules.max_shed_load_kw {
                    return Err(ReasonCode::ShedLimitExceeded);
                }
            },
            _ => {},
        }
        if cmd.magnitude_kw > self.rules.max_step_change_kw {
            return Err(ReasonCode::StepLimitExceeded);
        }
        Ok(())
    }

    fn requires_human_approval(&self, cmd: &RoutingCommand) -> (r: bool) {
        cmd.magnitude_kw >= self.rules.hitl_threshold_kw
    }
}

/// Whatever the limits and the other fields of a command, a negative
/// magnitude is rejected, and with the code for a negative magnitude.
pub proof fn lemma_negative_magnitude_rejected(
    policy: RulesEcoGovernancePolicy,
    cmd: RoutingCommandView,
)
    requires
        cmd.magnitude_kw < 0,
    ensures
        policy.rejection(cmd) == Some(ReasonCode::NegativeMagnitude),
{
}

/// A command with an endpoint whose zone is unknown is never admitted by a
/// static policy.
pub proof fn lemma_unknown_zone_not_permitted(
    policy: StaticSegmentationPolicy,
    cmd: RoutingCommandView,
)
    requires
        policy.zone_of(cmd.source) is None || policy.zone_of(cmd.target) is None,
    ensures
        !policy.permits(cmd),
{
}

} // verus!
