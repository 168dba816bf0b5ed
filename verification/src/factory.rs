//! Building an action from a planned candidate: one factory per candidate family, a
//! registry that looks the family up, and the policy each built action runs under.
use vstd::prelude::*;

use crate::cgroup::CgroupPlacementAction;
use crate::cpu_affinity::{CpuAffinityProfileAction, Profile};
use crate::cpu_power::{cpu_set, BatteryPolicy, CpuPowerAction, CpuPowerPolicy};
use crate::error::{is_phase_failure, ActionError};
use crate::gpu_power::{GpuBatteryPolicy, GpuPowerAction, GpuPowerMode, GpuPowerPolicy};
use crate::ioprio::IoPrioAction;
use crate::irq_affinity::{IrqAffinityAction, IrqAffinityPolicy};
use crate::model::ActionPhase;
use crate::nice::NiceAction;
use crate::text::{cat, str_eq};

verus! {

/// The factory of one candidate family.
#[derive(Debug, Clone, Copy, PartialEq, Eq, Structural)]
pub enum ActionFactory {
    CpuAffinityProfile,
    Nice,
    IoPrio,
    Uclamp,
    CgroupPlacement,
    IrqAffinity,
    CpuPower,
    GpuPower,
    VmKnob,
}

/// The candidate family a factory builds.
pub open spec fn family_name(f: ActionFactory) -> Seq<char> {
    match f {
        ActionFactory::CpuAffinityProfile => "cpu_affinity_profile"@,
        ActionFactory::Nice => "nice"@,
        ActionFactory::IoPrio => "ionice"@,
        ActionFactory::Uclamp => "uclamp"@,
        ActionFactory::CgroupPlacement => "cgroup_placement"@,
        ActionFactory::IrqAffinity => "irq_affinity"@,
        ActionFactory::CpuPower => "cpu_power"@,
        ActionFactory::GpuPower => "gpu_power"@,
        ActionFactory::VmKnob => "vm_knob"@,
    }
}

/// A planned candidate, with the action it asks for.
pub enum CandidateAction {
    CpuAffinityProfile { tree_pid: u32, profile: Profile },
    Nice(NiceAction),
    IoPrio(IoPrioAction),
    CgroupPlacement(CgroupPlacementAction),
    IrqAffinity(IrqAffinityAction),
    CpuPower(CpuPowerAction),
    GpuPower(GpuPowerAction),
}

/// The family a candidate belongs to.
pub open spec fn candidate_family(c: CandidateAction) -> Seq<char> {
    match c {
        CandidateAction::CpuAffinityProfile { .. } => "cpu_affinity_profile"@,
        CandidateAction::Nice(_) => "nice"@,
        CandidateAction::IoPrio(_) => "ionice"@,
        CandidateAction::CgroupPlacement(_) => "cgroup_placement"@,
        CandidateAction::IrqAffinity(_) => "irq_affinity"@,
        CandidateAction::CpuPower(_) => "cpu_power"@,
        CandidateAction::GpuPower(_) => "gpu_power"@,
    }
}

/// The factory that serves a candidate's own family.
pub open spec fn serves(f: ActionFactory, c: CandidateAction) -> bool {
    match (f, c) {
        (ActionFactory::CpuAffinityProfile, CandidateAction::CpuAffinityProfile { .. }) => true,
        (ActionFactory::Nice, CandidateAction::Nice(_)) => true,
        (ActionFactory::IoPrio, CandidateAction::IoPrio(_)) => true,
        (ActionFactory::CgroupPlacement, CandidateAction::CgroupPlacement(_)) => true,
        (ActionFactory::IrqAffinity, CandidateAction::IrqAffinity(_)) => true,
        (ActionFactory::CpuPower, CandidateAction::CpuPower(_)) => true,
        (ActionFactory::GpuPower, CandidateAction::GpuPower(_)) => true,
        _ => false,
    }
}

/// An action ready to run, with the policy it runs under where it has one.
pub enum BuiltAction {
    CpuAffinityProfile(CpuAffinityProfileAction),
    Nice(NiceAction),
    IoPrio(IoPrioAction),
    CgroupPlacement(CgroupPlacementAction),
    IrqAffinity { action: IrqAffinityAction, policy: IrqAffinityPolicy },
    CpuPower { action: CpuPowerAction, policy: CpuPowerPolicy },
    GpuPower { action: GpuPowerAction, policy: GpuPowerPolicy },
}

/// The policy a planned IRQ affinity change runs under: changes allowed, high-risk
/// devices refused, every kind of evidence required.
pub open spec fn planned_irq_policy() -> IrqAffinityPolicy {
    IrqAffinityPolicy {
        allow_irq_affinity_changes: true,
        allow_high_risk_devices: false,
        require_strong_irq_evidence: true,
        require_stable_irq_identity: true,
        require_known_device_mapping: true,
    }
}

/// The policy a planned CPU power change runs under: exactly the requested CPUs, and
/// exactly the requested kinds of write.
pub open spec fn planned_cpu_policy(p: CpuPowerPolicy, a: CpuPowerAction) -> bool {
    &&& p.allow_cpu_power_changes
    &&& p.allowed_cpus@ == a.cpus@.to_set()
    &&& p.allow_governor_changes == (a.scaling_governor is Some)
    &&& p.allow_epp_changes == (a.energy_performance_preference is Some)
    &&& p.battery_policy == BatteryPolicy::Never
    &&& !p.explicit_battery_override
}

/// The policy a planned GPU power change runs under: manual apply on the requested card
/// only, and exactly the requested kinds of write.
pub open spec fn planned_gpu_policy(p: GpuPowerPolicy, a: GpuPowerAction) -> bool {
    &&& p.allow_gpu_power_changes
    &&& p.mode == GpuPowerMode::ManualApply
    &&& p.allowed_drm_cards@.len() == 1
    &&& p.allowed_drm_cards@[0]@ == a.drm_card@
    &&& p.allow_force_performance_level == (a.power_dpm_force_performance_level is Some)
    &&& p.allow_power_profile_mode == (a.pp_power_profile_mode is Some)
    &&& p.battery_policy == GpuBatteryPolicy::Never
    &&& !p.explicit_battery_override
}

/// What a factory builds of a candidate it serves.
pub open spec fn built_from(b: BuiltAction, c: CandidateAction) -> bool {
    match (b, c) {
        (BuiltAction::CpuAffinityProfile(a), CandidateAction::CpuAffinityProfile { tree_pid, profile }) =>
            a.tree_pid == tree_pid && a.profile == profile && !a.force_restore_overwrite,
        (BuiltAction::Nice(a), CandidateAction::Nice(n)) => a == n,
        (BuiltAction::IoPrio(a), CandidateAction::IoPrio(n)) => a == n,
        (BuiltAction::CgroupPlacement(a), CandidateAction::CgroupPlacement(n)) => a == n,
        (BuiltAction::IrqAffinity { action, policy }, CandidateAction::IrqAffinity(n)) =>
            action == n && policy == planned_irq_policy(),
        (BuiltAction::CpuPower { action, policy }, CandidateAction::CpuPower(n)) =>
            action == n && planned_cpu_policy(policy, n),
        (BuiltAction::GpuPower { action, policy }, CandidateAction::GpuPower(n)) =>
            action == n && planned_gpu_policy(policy, n),
        _ => false,
    }
}

impl CandidateAction {
    /// The family the candidate belongs to.
    pub fn action_kind(&self) -> (r: &'static str)
        ensures
            r@ == candidate_family(*self),
    {
        match self {
            CandidateAction::CpuAffinityProfile { .. } => "cpu_affinity_profile",
            CandidateAction::Nice(_) => "nice",
            CandidateAction::IoPrio(_) => "ionice",
            CandidateAction::CgroupPlacement(_) => "cgroup_placement",
            CandidateAction::IrqAffinity(_) => "irq_affinity",
            CandidateAction::CpuPower(_) => "cpu_power",
            CandidateAction::GpuPower(_) => "gpu_power",
        }
    }
}

/// The policy a planned CPU power change runs under.
pub fn planned_cpu_power_policy(action: &CpuPowerAction) -> (r: CpuPowerPolicy)
    ensures
        planned_cpu_policy(r, *action),
{
    CpuPowerPolicy {
        allow_cpu_power_changes: true,
        allowed_cpus: cpu_set(&action.cpus),
        allow_governor_changes: action.scaling_governor.is_some(),
        allow_epp_changes: action.energy_performance_preference.is_some(),
        battery_policy: BatteryPolicy::Never,
        explicit_battery_override: false,
    }
}

/// The policy a planned GPU power change runs under.
pub fn planned_gpu_power_policy(action: &GpuPowerAction) -> (r: GpuPowerPolicy)
    ensures
        planned_gpu_policy(r, *action),
{
    let mut cards: Vec<String> = Vec::new();
    cards.push(action.drm_card.clone());
    GpuPowerPolicy {
        allow_gpu_power_changes: true,
        mode: GpuPowerMode::ManualApply,
        allowed_drm_cards: cards,
        allow_force_performance_level: action.power_dpm_force_performance_level.is_some(),
        allow_power_profile_mode: action.pp_power_profile_mode.is_some(),
        battery_policy: GpuBatteryPolicy::Never,
        explicit_battery_override: false,
    }
}

/// The policy a planned IRQ affinity change runs under.
pub fn planned_irq_affinity_policy() -> (r: IrqAffinityPolicy)
    ensures
        r == planned_irq_policy(),
{
    IrqAffinityPolicy {
        allow_irq_affinity_changes: true,
        allow_high_risk_devices: false,
        require_strong_irq_evidence: true,
        require_stable_irq_identity: true,
        require_known_device_mapping: true,
    }
}

impl ActionFactory {
    /// The candidate family this factory builds.
    pub fn family(&self) -> (r: &'static str)
        ensures
            r@ == family_name(*self),
    {
        match self {
            ActionFactory::CpuAffinityProfile => "cpu_affinity_profile",
            ActionFactory::Nice => "nice",
            ActionFactory::IoPrio => "ionice",
            ActionFactory::Uclamp => "uclamp",
            ActionFactory::CgroupPlacement => "cgroup_placement",
            ActionFactory::IrqAffinity => "irq_affinity",
            ActionFactory::CpuPower => "cpu_power",
            ActionFactory::GpuPower => "gpu_power",
            ActionFactory::VmKnob => "vm_knob",
        }
    }

    /// The action this factory builds of `plan`; a plan of another family is refused
    /// at preflight as a mismatch.
    pub fn build(&self, plan: CandidateAction) -> (r: Result<BuiltAction, ActionError>)
        ensures
            serves(*self, plan) ==> (r matches Ok(b) && built_from(b, plan)),
            !serves(*self, plan) ==> (r matches Err(e)
                && is_phase_failure(e.failure_of(), ActionPhase::Preflight, "candidate family mismatch"@)),
    {
        match (self, plan) {
            (ActionFactory::CpuAffinityProfile, CandidateAction::CpuAffinityProfile { tree_pid, profile }) => {
                Ok(BuiltAction::CpuAffinityProfile(CpuAffinityProfileAction {
                    tree_pid,
                    profile,
                    force_restore_overwrite: false,
                }))
            },
            (ActionFactory::Nice, CandidateAction::Nice(a)) => Ok(BuiltAction::Nice(a)),
            (ActionFactory::IoPrio, CandidateAction::IoPrio(a)) => Ok(BuiltAction::IoPrio(a)),
            (ActionFactory::CgroupPlacement, CandidateAction::CgroupPlacement(a)) => Ok(
                BuiltAction::CgroupPlacement(a),
            ),
            (ActionFactory::IrqAffinity, CandidateAction::IrqAffinity(a)) => {
                let policy = planned_irq_affinity_policy();
                Ok(BuiltAction::IrqAffinity { action: a, policy })
            },
            (ActionFactory::CpuPower, CandidateAction::CpuPower(a)) => {
                let policy = planned_cpu_power_policy(&a);
                Ok(BuiltAction::CpuPower { action: a, policy })
            },
            (ActionFactory::GpuPower, CandidateAction::GpuPower(a)) => {
                let policy = planned_gpu_power_policy(&a);
                Ok(BuiltAction::GpuPower { action: a, policy })
            },
            _ => Err(ActionError::preflight("candidate family mismatch")),
        }
    }
}

/// The factories of the default registry, in the order they are registered.
pub open spec fn default_factories() -> Seq<ActionFactory> {
    seq![
        ActionFactory::CpuAffinityProfile,
        ActionFactory::Nice,
        ActionFactory::IoPrio,
        ActionFactory::Uclamp,
        ActionFactory::CgroupPlacement,
        ActionFactory::IrqAffinity,
        ActionFactory::CpuPower,
        ActionFactory::GpuPower,
        ActionFactory::VmKnob,
    ]
}

/// The index of the first factory of `family`, if one is registered.
pub open spec fn first_of_family(fs: Seq<ActionFactory>, family: Seq<char>) -> Option<int> {
    if exists|i: int| 0 <= i < fs.len() && #[trigger] family_name(fs[i]) == family {
        Some(choose|i: int| 0 <= i < fs.len() && family_name(fs[i]) == family
            && forall|j: int| 0 <= j < i ==> #[trigger] family_name(fs[j]) != family)
    } else {
        None
    }
}

/// The factories in registration order.
pub struct ActionFactoryRegistry {
    factories: Vec<ActionFactory>,
}

impl View for ActionFactoryRegistry {
    type V = Seq<ActionFactory>;

    closed spec fn view(&self) -> Seq<ActionFactory> {
        self.factories@
    }
}

impl Default for ActionFactoryRegistry {
    /// No factory registered.
    fn default() -> (r: Self)
        ensures
            r@ == Seq::<ActionFactory>::empty(),
    {
        ActionFactoryRegistry { factories: Vec::new() }
    }
}

/// The message of a plan whose family no factory serves.
pub open spec fn unregistered_text(family: Seq<char>) -> Seq<char> {
    "no action factory registered for candidate family "@ + family
}

impl ActionFactoryRegistry {
    /// Add `factory` after those registered so far.
    pub fn register(&mut self, factory: ActionFactory)
        ensures
            final(self)@ == old(self)@.push(factory),
    {
        self.factories.push(factory);
    }

    /// The registry of every concrete candidate family.
    pub fn default_registry() -> (r: Self)
        ensures
            r@ == default_factories(),
    {
        let mut registry = ActionFactoryRegistry::default();
        registry.register(ActionFactory::CpuAffinityProfile);
        registry.register(ActionFactory::Nice);
        registry.register(ActionFactory::IoPrio);
        registry.register(ActionFactory::Uclamp);
        registry.register(ActionFactory::CgroupPlacement);
        registry.register(ActionFactory::IrqAffinity);
        registry.register(ActionFactory::CpuPower);
        registry.register(ActionFactory::GpuPower);
        registry.register(ActionFactory::VmKnob);
        assert(registry@ =~= default_factories());
        registry
    }

    /// The families of the registered factories, in order.
    pub fn families(&self) -> (r: Vec<&'static str>)
        ensures
            r@.len() == self@.len(),
            forall|i: int| 0 <= i < r@.len() ==> (#[trigger] r@[i])@ == family_name(self@[i]),
    {
        let mut out: Vec<&'static str> = Vec::new();
        let mut i: usize = 0;
        while i < self.factories.len()
            invariant
                0 <= i <= self@.len(),
                out@.len() == i,
                forall|j: int| 0 <= j < i ==> (#[trigger] out@[j])@ == family_name(self@[j]),
            decreases self@.len() - i,
        {
            out.push(self.factories[i].family());
            i = i + 1;
        }
        out
    }

    /// The first registered factory of `family`.
    pub fn factory_for(&self, family: &str) -> (r: Option<ActionFactory>)
        ensures
            match first_of_family(self@, family@) {
                Some(i) => 0 <= i < self@.len() && r == Some(self@[i]) && family_name(self@[i]) == family@,
                None => r is None,
            },
    {
        let mut i: usize = 0;
        while i < self.factories.len()
            invariant
                0 <= i <= self@.len(),
                forall|j: int| 0 <= j < i ==> #[trigger] family_name(self@[j]) != family@,
            decreases self@.len() - i,
        {
            let f = self.factories[i];
            if str_eq(f.family(), family) {
                proof {
                    let k = i as int;
                    assert(0 <= k < self@.len() && family_name(self@[k]) == family@);
                    let c = choose|c: int| 0 <= c < self@.len() && family_name(self@[c]) == family@
                        && forall|j: int| 0 <= j < c ==> #[trigger] family_name(self@[j]) != family@;
                    assert(0 <= k < self@.len() && family_name(self@[k]) == family@
                        && forall|j: int| 0 <= j < k ==> #[trigger] family_name(self@[j]) != family@);
                    if c < k {
                        assert(family_name(self@[c]) != family@);
                    } else if k < c {
                        assert(family_name(self@[k]) != family@);
                    }
                    assert(c == k);
                }
                return Some(f);
            }
            i = i + 1;
        }
        None
    }

    /// The action built of `plan` by the first factory of its family; a family with no
    /// factory is refused at preflight.
    pub fn build(&self, plan: CandidateAction) -> (r: Result<BuiltAction, ActionError>)
        ensures
            match first_of_family(self@, candidate_family(plan)) {
                Some(i) => r matches Ok(b) && built_from(b, plan),
                None => r matches Err(e) && is_phase_failure(
                    e.failure_of(),
                    ActionPhase::Preflight,
                    unregistered_text(candidate_family(plan)),
                ),
            },
    {
        let family = plan.action_kind();
        match self.factory_for(family) {
            Some(f) => {
                proof {
                    lemma_serves_same_family(f, plan);
                }
                f.build(plan)
            },
            None => {
                let message = cat("no action factory registered for candidate family ", family);
                Err(ActionError::preflight(message.as_str()))
            },
        }
    }
}

/// The registry of every concrete candidate family.
pub fn default_action_factory_registry() -> (r: ActionFactoryRegistry)
    ensures
        r@ == default_factories(),
{
    ActionFactoryRegistry::default_registry()
}

/// The factory of a candidate's own family.
pub open spec fn factory_of(plan: CandidateAction) -> ActionFactory {
    match plan {
        CandidateAction::CpuAffinityProfile { .. } => ActionFactory::CpuAffinityProfile,
        CandidateAction::Nice(_) => ActionFactory::Nice,
        CandidateAction::IoPrio(_) => ActionFactory::IoPrio,
        CandidateAction::CgroupPlacement(_) => ActionFactory::CgroupPlacement,
        CandidateAction::IrqAffinity(_) => ActionFactory::IrqAffinity,
        CandidateAction::CpuPower(_) => ActionFactory::CpuPower,
        CandidateAction::GpuPower(_) => ActionFactory::GpuPower,
    }
}

/// No two factories build the same family.
pub proof fn lemma_family_names_distinct(f: ActionFactory, g: ActionFactory)
    ensures
        family_name(f) == family_name(g) <==> f == g,
{
    reveal_strlit("cpu_affinity_profile");
    reveal_strlit("nice");
    reveal_strlit("ionice");
    reveal_strlit("uclamp");
    reveal_strlit("cgroup_placement");
    reveal_strlit("irq_affinity");
    reveal_strlit("cpu_power");
    reveal_strlit("gpu_power");
    reveal_strlit("vm_knob");
    if family_name(f) == family_name(g) {
        assert(family_name(f).len() == family_name(g).len());
        assert(family_name(f)[0] == family_name(g)[0]);
    }
}

/// A factory serves a plan exactly when the plan's family is the factory's own.
pub proof fn lemma_serves_same_family(f: ActionFactory, plan: CandidateAction)
    ensures
        serves(f, plan) <==> family_name(f) == candidate_family(plan),
{
    assert(candidate_family(plan) == family_name(factory_of(plan)));
    lemma_family_names_distinct(f, factory_of(plan));
}

/// The default registry covers every family a plan can have, and building a plan there
/// gives the action its own family's factory builds.
pub proof fn lemma_default_registry_builds_every_plan(plan: CandidateAction)
    ensures
        first_of_family(default_factories(), candidate_family(plan)) matches Some(i)
            && serves(default_factories()[i], plan),
{
    let fs = default_factories();
    let fam = candidate_family(plan);
    let k: int = match plan {
        CandidateAction::CpuAffinityProfile { .. } => 0,
        CandidateAction::Nice(_) => 1,
        CandidateAction::IoPrio(_) => 2,
        CandidateAction::CgroupPlacement(_) => 4,
        CandidateAction::IrqAffinity(_) => 5,
        CandidateAction::CpuPower(_) => 6,
        CandidateAction::GpuPower(_) => 7,
    };
    lemma_serves_same_family(fs[k], plan);
    assert(family_name(fs[k]) == fam);
    let c = choose|c: int| 0 <= c < fs.len() && family_name(fs[c]) == fam
        && forall|j: int| 0 <= j < c ==> #[trigger] family_name(fs[j]) != fam;
    assert forall|j: int| 0 <= j < k implies #[trigger] family_name(fs[j]) != fam by {
        lemma_serves_same_family(fs[j], plan);
    }
    assert(0 <= k < fs.len() && family_name(fs[k]) == fam
        && forall|j: int| 0 <= j < k ==> #[trigger] family_name(fs[j]) != fam);
    if c < k {
        assert(family_name(fs[c]) != fam);
    } else if k < c {
        assert(family_name(fs[k]) != fam);
    }
    lemma_serves_same_family(fs[c], plan);
}

} // verus!
