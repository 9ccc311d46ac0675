//! Planned actions and plans.

use vstd::prelude::*;
use crate::keyed::StrMap;
use crate::mesh::subnet::Warning;
use crate::net::Ipv4Net;

verus! {

/// What can be done on a host.
#[derive(Clone, Copy, Debug, PartialEq, Eq, Structural)]
pub enum ActionType {
    InstallWg,
    GenKeyPair,
    AllocateMgmtIp,
    AllocateContainerSubnet,
    WriteConfig,
    EnableService,
    ReloadService,
    AddPeer,
    RemovePeer,
    InstallPodman,
    EnablePodmanSocket,
    EnableIpForward,
    CreatePodmanNetwork,
    RecreatePodmanNetwork,
    InstallFirewall,
    InstallCorrosion,
    InstallCoold,
    WriteCorrosionConfig,
    WriteCorrosionSchema,
    InstallCorrosionService,
    InstallCooldService,
    InstallCoolify,
    InstallScheduler,
    InstallBuilder,
    GenerateJwtKeypair,
    InstallCoolifyService,
    InstallSchedulerService,
    WriteHostJwt,
    UpdateCooldSchedulerEnv,
}

impl ActionType {
    /// The name of the action in plans and reports.
    pub open spec fn label(self) -> Seq<char> {
        match self {
            ActionType::InstallWg => "install-wg"@,
            ActionType::GenKeyPair => "gen-key-pair"@,
            ActionType::AllocateMgmtIp => "allocate-mgmt-ip"@,
            ActionType::AllocateContainerSubnet => "allocate-container-subnet"@,
            ActionType::WriteConfig => "write-config"@,
            ActionType::EnableService => "enable-service"@,
            ActionType::ReloadService => "reload-service"@,
            ActionType::AddPeer => "add-peer"@,
            ActionType::RemovePeer => "remove-peer"@,
            ActionType::InstallPodman => "install-podman"@,
            ActionType::EnablePodmanSocket => "enable-podman-socket"@,
            ActionType::EnableIpForward => "enable-ip-forward"@,
            ActionType::CreatePodmanNetwork => "create-podman-network"@,
            ActionType::RecreatePodmanNetwork => "recreate-podman-network"@,
            ActionType::InstallFirewall => "install-firewall"@,
            ActionType::InstallCorrosion => "install-corrosion"@,
            ActionType::InstallCoold => "install-coold"@,
            ActionType::WriteCorrosionConfig => "write-corrosion-config"@,
            ActionType::WriteCorrosionSchema => "write-corrosion-schema"@,
            ActionType::InstallCorrosionService => "install-corrosion-service"@,
            ActionType::InstallCooldService => "install-coold-service"@,
            ActionType::InstallCoolify => "install-coolify"@,
            ActionType::InstallScheduler => "install-scheduler"@,
            ActionType::InstallBuilder => "install-builder"@,
            ActionType::GenerateJwtKeypair => "generate-jwt-keypair"@,
            ActionType::InstallCoolifyService => "install-coolify-service"@,
            ActionType::InstallSchedulerService => "install-scheduler-service"@,
            ActionType::WriteHostJwt => "write-host-jwt"@,
            ActionType::UpdateCooldSchedulerEnv => "update-coold-scheduler-env"@,
        }
    }

    pub fn name(&self) -> (r: &'static str)
        ensures
            r@ == self.label(),
    {
        match self {
            ActionType::InstallWg => "install-wg",
            ActionType::GenKeyPair => "gen-key-pair",
            ActionType::AllocateMgmtIp => "allocate-mgmt-ip",
            ActionType::AllocateContainerSubnet => "allocate-container-subnet",
            ActionType::WriteConfig => "write-config",
            ActionType::EnableService => "enable-service",
            ActionType::ReloadService => "reload-service",
            ActionType::AddPeer => "add-peer",
            ActionType::RemovePeer => "remove-peer",
            ActionType::InstallPodman => "install-podman",
            ActionType::EnablePodmanSocket => "enable-podman-socket",
            ActionType::EnableIpForward => "enable-ip-forward",
            ActionType::CreatePodmanNetwork => "create-podman-network",
            ActionType::RecreatePodmanNetwork => "recreate-podman-network",
            ActionType::InstallFirewall => "install-firewall",
            ActionType::InstallCorrosion => "install-corrosion",
            ActionType::InstallCoold => "install-coold",
            ActionType::WriteCorrosionConfig => "write-corrosion-config",
            ActionType::WriteCorrosionSchema => "write-corrosion-schema",
            ActionType::InstallCorrosionService => "install-corrosion-service",
            ActionType::InstallCooldService => "install-coold-service",
            ActionType::InstallCoolify => "install-coolify",
            ActionType::InstallScheduler => "install-scheduler",
            ActionType::InstallBuilder => "install-builder",
            ActionType::GenerateJwtKeypair => "generate-jwt-keypair",
            ActionType::InstallCoolifyService => "install-coolify-service",
            ActionType::InstallSchedulerService => "install-scheduler-service",
            ActionType::WriteHostJwt => "write-host-jwt",
            ActionType::UpdateCooldSchedulerEnv => "update-coold-scheduler-env",
        }
    }
}

/// One thing to do on one host, in a namespace where it concerns one.
#[derive(Clone, Debug)]
pub struct PlannedAction {
    pub host: String,
    pub namespace: String,
    pub action_type: ActionType,
    pub detail: String,
}

/// What a `PlannedAction` says.
#[verifier::ext_equal]
pub struct ActionView {
    pub host: Seq<char>,
    pub namespace: Seq<char>,
    pub action_type: ActionType,
    pub detail: Seq<char>,
}

impl View for PlannedAction {
    type V = ActionView;

    open spec fn view(&self) -> ActionView {
        ActionView {
            host: self.host@,
            namespace: self.namespace@,
            action_type: self.action_type,
            detail: self.detail@,
        }
    }
}

impl PlannedAction {
    /// A copy of the action.
    pub fn copied(&self) -> (r: Self)
        ensures
            r@ == self@,
    {
        PlannedAction {
            host: self.host.clone(),
            namespace: self.namespace.clone(),
            action_type: self.action_type,
            detail: self.detail.clone(),
        }
    }
}

pub open spec fn action_views(s: Seq<PlannedAction>) -> Seq<ActionView> {
    Seq::new(s.len(), |i: int| s[i]@)
}

pub broadcast proof fn action_views_push(s: Seq<PlannedAction>, x: PlannedAction)
    ensures
        #[trigger] action_views(s.push(x)) == action_views(s).push(x@),
{
    assert(action_views(s.push(x)) =~= action_views(s).push(x@));
}

/// An action that the intent left out, and why.
#[derive(Clone, Debug)]
pub struct SkippedAction {
    pub action: PlannedAction,
    pub reason: String,
}

/// What a `SkippedAction` says.
#[verifier::ext_equal]
pub struct SkippedView {
    pub action: ActionView,
    pub reason: Seq<char>,
}

impl View for SkippedAction {
    type V = SkippedView;

    open spec fn view(&self) -> SkippedView {
        SkippedView { action: self.action@, reason: self.reason@ }
    }
}

pub open spec fn skipped_views(s: Seq<SkippedAction>) -> Seq<SkippedView> {
    Seq::new(s.len(), |i: int| s[i]@)
}

pub broadcast proof fn skipped_views_push(s: Seq<SkippedAction>, x: SkippedAction)
    ensures
        #[trigger] skipped_views(s.push(x)) == skipped_views(s).push(x@),
{
    assert(skipped_views(s.push(x)) =~= skipped_views(s).push(x@));
}

/// What to do on which host, the addresses it rests on, and what was noted or left out.
#[derive(Clone, Debug)]
pub struct Plan {
    pub actions: Vec<PlannedAction>,
    pub mgmt_assignments: StrMap<u32>,
    pub subnet_assignments: StrMap<StrMap<Ipv4Net>>,
    pub warnings: Vec<Warning>,
    pub skipped: Vec<SkippedAction>,
}

impl Plan {
    /// Whether there is nothing to do.
    pub fn is_empty(&self) -> (r: bool)
        ensures
            r == (self.actions@.len() == 0),
    {
        self.actions.len() == 0
    }
}

} // verus!
