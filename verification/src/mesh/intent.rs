//! What an operator means a run to do, and which actions that leaves.

use vstd::prelude::*;
use vstd::string::StringExecFns;
use crate::mesh::action;
use crate::mesh::action::{ActionType, ActionView, Plan, PlannedAction, SkippedAction, SkippedView};
use crate::mesh::state::DesiredMesh;
use crate::text;

verus! {

/// The purpose of a run.
#[derive(Clone, Copy, Debug, PartialEq, Eq, Structural)]
pub enum Intent {
    Bootstrap,
    Extend,
    Upgrade,
}

/// How far an action reaches on a host that already serves.
#[derive(Clone, Copy, Debug, PartialEq, Eq, Structural)]
pub enum Category {
    SafeAlways,
    PeerRefresh,
    DestructiveReplace,
    VersionBump,
    WipeDb,
    SchemaFirstWrite,
}

/// The category of an action. A schema is written for the first time, or its database
/// is reset, as the detail says.
pub open spec fn category(a: ActionView) -> Category {
    match a.action_type {
        ActionType::InstallWg
        | ActionType::GenKeyPair
        | ActionType::AllocateMgmtIp
        | ActionType::AllocateContainerSubnet
        | ActionType::EnableService
        | ActionType::InstallPodman
        | ActionType::EnablePodmanSocket
        | ActionType::EnableIpForward
        | ActionType::CreatePodmanNetwork
        | ActionType::GenerateJwtKeypair
        | ActionType::AddPeer
        | ActionType::RemovePeer => Category::SafeAlways,
        ActionType::WriteConfig
        | ActionType::ReloadService
        | ActionType::InstallFirewall
        | ActionType::WriteCorrosionConfig
        | ActionType::InstallCorrosionService
        | ActionType::InstallCooldService
        | ActionType::InstallCoolifyService
        | ActionType::InstallSchedulerService
        | ActionType::WriteHostJwt
        | ActionType::UpdateCooldSchedulerEnv => Category::PeerRefresh,
        ActionType::RecreatePodmanNetwork => Category::DestructiveReplace,
        ActionType::InstallCorrosion
        | ActionType::InstallCoold
        | ActionType::InstallCoolify
        | ActionType::InstallScheduler
        | ActionType::InstallBuilder => Category::VersionBump,
        ActionType::WriteCorrosionSchema => if text::has_text(a.detail, "DB will be reset"@) {
            Category::WipeDb
        } else {
            Category::SchemaFirstWrite
        },
    }
}

pub fn categorize(a: &PlannedAction) -> (r: Category)
    ensures
        r == category(a@),
{
    match a.action_type {
        ActionType::InstallWg
        | ActionType::GenKeyPair
        | ActionType::AllocateMgmtIp
        | ActionType::AllocateContainerSubnet
        | ActionType::EnableService
        | ActionType::InstallPodman
        | ActionType::EnablePodmanSocket
        | ActionType::EnableIpForward
        | ActionType::CreatePodmanNetwork
        | ActionType::GenerateJwtKeypair
        | ActionType::AddPeer
        | ActionType::RemovePeer => Category::SafeAlways,
        ActionType::WriteConfig
        | ActionType::ReloadService
        | ActionType::InstallFirewall
        | ActionType::WriteCorrosionConfig
        | ActionType::InstallCorrosionService
        | ActionType::InstallCooldService
        | ActionType::InstallCoolifyService
        | ActionType::InstallSchedulerService
        | ActionType::WriteHostJwt
        | ActionType::UpdateCooldSchedulerEnv => Category::PeerRefresh,
        ActionType::RecreatePodmanNetwork => Category::DestructiveReplace,
        ActionType::InstallCorrosion
        | ActionType::InstallCoold
        | ActionType::InstallCoolify
        | ActionType::InstallScheduler
        | ActionType::InstallBuilder => Category::VersionBump,
        ActionType::WriteCorrosionSchema => if text::contains(a.detail.as_str(), "DB will be reset") {
            Category::WipeDb
        } else {
            Category::SchemaFirstWrite
        },
    }
}

/// Whether the action reinstalls a service of the agent stack.
pub open spec fn is_service(t: ActionType) -> bool {
    t == ActionType::InstallCorrosionService || t == ActionType::InstallCooldService || t
        == ActionType::InstallCoolifyService || t == ActionType::InstallSchedulerService
}

/// Why the intent leaves the action out, or nothing when it stays.
pub open spec fn decision(
    a: ActionView,
    intent: Intent,
    allow_replace: bool,
    new_hosts: Seq<Seq<char>>,
) -> Option<Seq<char>> {
    match intent {
        Intent::Bootstrap => None,
        Intent::Extend => if new_hosts.contains(a.host) {
            None
        } else {
            match category(a) {
                Category::SafeAlways | Category::PeerRefresh | Category::SchemaFirstWrite => None,
                Category::DestructiveReplace => if allow_replace {
                    None
                } else {
                    Some("extend: destructive-replace on existing host blocked; pass --allow-replace to override"@)
                },
                Category::VersionBump => Some("extend: version-bump on existing host skipped; use `cooldctl init upgrade` to bump versions"@),
                Category::WipeDb => Some("extend: corrosion DB wipe on existing host is never allowed; resolve schema drift with `cooldctl init upgrade` on a fresh schema"@),
            }
        },
        Intent::Upgrade => match category(a) {
            Category::VersionBump => None,
            Category::PeerRefresh => if is_service(a.action_type) {
                None
            } else {
                Some("upgrade: peer-refresh skipped; use `cooldctl init extend` for mesh topology changes"@)
            },
            _ => Some("upgrade: non-version-bump action skipped"@),
        },
    }
}

fn decide(a: &PlannedAction, d: &DesiredMesh) -> (r: Option<String>)
    ensures
        text::opt_view(r) == decision(a@, d.intent, d.allow_replace, text::views(d.new_nodes@)),
{
    match d.intent {
        Intent::Bootstrap => None,
        Intent::Extend => if text::has_string(&d.new_nodes, a.host.as_str()) {
            None
        } else {
            match categorize(a) {
                Category::SafeAlways | Category::PeerRefresh | Category::SchemaFirstWrite => None,
                Category::DestructiveReplace => if d.allow_replace {
                    None
                } else {
                    Some("extend: destructive-replace on existing host blocked; pass --allow-replace to override".to_owned())
                },
                Category::VersionBump => Some("extend: version-bump on existing host skipped; use `cooldctl init upgrade` to bump versions".to_owned()),
                Category::WipeDb => Some("extend: corrosion DB wipe on existing host is never allowed; resolve schema drift with `cooldctl init upgrade` on a fresh schema".to_owned()),
            }
        },
        Intent::Upgrade => match categorize(a) {
            Category::VersionBump => None,
            Category::PeerRefresh => if is_service_exec(a.action_type) {
                None
            } else {
                Some("upgrade: peer-refresh skipped; use `cooldctl init extend` for mesh topology changes".to_owned())
            },
            _ => Some("upgrade: non-version-bump action skipped".to_owned()),
        },
    }
}

fn is_service_exec(t: ActionType) -> (r: bool)
    ensures
        r == is_service(t),
{
    match t {
        ActionType::InstallCorrosionService
        | ActionType::InstallCooldService
        | ActionType::InstallCoolifyService
        | ActionType::InstallSchedulerService => true,
        _ => false,
    }
}

/// The actions that stay, in order.
pub open spec fn kept_actions(
    s: Seq<ActionView>,
    intent: Intent,
    allow_replace: bool,
    new_hosts: Seq<Seq<char>>,
) -> Seq<ActionView>
    decreases s.len(),
{
    if s.len() == 0 {
        Seq::empty()
    } else {
        let k = kept_actions(s.drop_last(), intent, allow_replace, new_hosts);
        if decision(s.last(), intent, allow_replace, new_hosts) is None {
            k.push(s.last())
        } else {
            k
        }
    }
}

/// The actions that are left out with their reasons, in order.
pub open spec fn skipped_actions(
    s: Seq<ActionView>,
    intent: Intent,
    allow_replace: bool,
    new_hosts: Seq<Seq<char>>,
) -> Seq<SkippedView>
    decreases s.len(),
{
    if s.len() == 0 {
        Seq::empty()
    } else {
        let k = skipped_actions(s.drop_last(), intent, allow_replace, new_hosts);
        match decision(s.last(), intent, allow_replace, new_hosts) {
            None => k,
            Some(reason) => k.push(SkippedView { action: s.last(), reason }),
        }
    }
}

/// Moves the actions that the intent leaves out to the skipped ones.
pub fn filter_by_intent(plan: &mut Plan, d: &DesiredMesh)
    ensures
        action::action_views(final(plan).actions@) == kept_actions(
            action::action_views(old(plan).actions@),
            d.intent,
            d.allow_replace,
            text::views(d.new_nodes@),
        ),
        action::skipped_views(final(plan).skipped@) == action::skipped_views(old(plan).skipped@)
            + skipped_actions(
            action::action_views(old(plan).actions@),
            d.intent,
            d.allow_replace,
            text::views(d.new_nodes@),
        ),
        final(plan).mgmt_assignments == old(plan).mgmt_assignments,
        final(plan).subnet_assignments == old(plan).subnet_assignments,
        final(plan).warnings == old(plan).warnings,
{
    broadcast use {action::action_views_push, action::skipped_views_push};

    let ghost acts = action::action_views(plan.actions@);
    let ghost nodes = text::views(d.new_nodes@);
    let ghost skipped0 = action::skipped_views(plan.skipped@);
    let mut kept: Vec<PlannedAction> = Vec::new();
    let mut i: usize = 0;
    proof {
        assert(acts.take(0) =~= Seq::empty());
        assert(action::action_views(kept@) =~= Seq::empty());
        assert(skipped0 + Seq::<SkippedView>::empty() =~= skipped0);
    }
    while i < plan.actions.len()
        invariant
            i <= plan.actions@.len(),
            plan.actions@ == old(plan).actions@,
            acts == action::action_views(plan.actions@),
            nodes == text::views(d.new_nodes@),
            skipped0 == action::skipped_views(old(plan).skipped@),
            plan.mgmt_assignments == old(plan).mgmt_assignments,
            plan.subnet_assignments == old(plan).subnet_assignments,
            plan.warnings == old(plan).warnings,
            action::action_views(kept@) == kept_actions(
                acts.take(i as int),
                d.intent,
                d.allow_replace,
                nodes,
            ),
            action::skipped_views(plan.skipped@) == skipped0 + skipped_actions(
                acts.take(i as int),
                d.intent,
                d.allow_replace,
                nodes,
            ),
        decreases plan.actions@.len() - i,
    {
        proof {
            assert(acts.take(i + 1).drop_last() =~= acts.take(i as int));
            assert(acts.take(i + 1).last() == plan.actions@[i as int]@);
        }
        let a: PlannedAction = plan.actions[i].copied();
        match decide(&a, d) {
            Some(reason) => {
                let ghost s = SkippedView { action: a@, reason: reason@ };
                proof {
                    let k = skipped_actions(acts.take(i as int), d.intent, d.allow_replace, nodes);
                    assert((skipped0 + k).push(s) =~= skipped0 + k.push(s));
                }
                plan.skipped.push(SkippedAction { action: a, reason });
            },
            None => {
                kept.push(a);
            },
        }
        i = i + 1;
    }
    proof {
        assert(acts.take(i as int) =~= acts);
    }
    plan.actions = kept;
}

/// The refusal of the moving version `nightly` for an upgrade.
pub open spec fn nightly_text(flag: Seq<char>) -> Seq<char> {
    "upgrade mode rejects "@ + flag
        + "=nightly (moving target forces re-install every run); pin a version or pass --allow-nightly"@
}

fn nightly(flag: &str) -> (r: String)
    ensures
        r@ == nightly_text(flag@),
{
    let mut out: String = "upgrade mode rejects ".to_owned();
    out.append(flag);
    out.append(
        "=nightly (moving target forces re-install every run); pin a version or pass --allow-nightly",
    );
    out
}

/// The refusal of a new host that is not among the servers.
pub open spec fn unlisted_text(host: Seq<char>) -> Seq<char> {
    "extend mode: new host "@ + text::quoted(host) + " not in --servers list"@
}

fn unlisted(host: &str) -> (r: String)
    ensures
        r@ == unlisted_text(host@),
{
    let mut out: String = "extend mode: new host ".to_owned();
    out.append(text::quote(host).as_str());
    out.append(" not in --servers list");
    out
}

/// The first of `new_hosts[i..]` that is not among `hosts`.
pub open spec fn first_unlisted(
    new_hosts: Seq<Seq<char>>,
    hosts: Seq<Seq<char>>,
    i: int,
) -> Option<Seq<char>>
    decreases new_hosts.len() - i,
{
    if i < 0 || i >= new_hosts.len() {
        None
    } else if !hosts.contains(new_hosts[i]) {
        Some(new_hosts[i])
    } else {
        first_unlisted(new_hosts, hosts, i + 1)
    }
}

/// Why the desired mesh does not fit its intent, if it does not.
pub open spec fn intent_error(d: DesiredMesh) -> Option<Seq<char>> {
    match d.intent {
        Intent::Bootstrap => None,
        Intent::Extend => if d.new_nodes@.len() == 0 {
            Some("extend mode requires at least one host in NewHosts"@)
        } else {
            match first_unlisted(text::views(d.new_nodes@), text::views(d.hosts@), 0) {
                Some(h) => Some(unlisted_text(h)),
                None => None,
            }
        },
        Intent::Upgrade => if d.allow_nightly {
            None
        } else if d.coold_version@ == "nightly"@ {
            Some(nightly_text("--coold-version"@))
        } else if d.corrosion_version@ == "nightly"@ {
            Some(nightly_text("--corrosion-version"@))
        } else if d.coolify_version@ == "nightly"@ {
            Some(nightly_text("--coolify-version"@))
        } else if d.scheduler_version@ == "nightly"@ {
            Some(nightly_text("--scheduler-version"@))
        } else {
            None
        },
    }
}

/// Checks that the desired mesh fits its intent.
pub fn validate_intent(d: &DesiredMesh) -> (r: Result<(), String>)
    ensures
        match r {
            Ok(_) => intent_error(*d) is None,
            Err(e) => intent_error(*d) == Some(e@),
        },
{
    match d.intent {
        Intent::Bootstrap => Ok(()),
        Intent::Extend => {
            if d.new_nodes.len() == 0 {
                return Err("extend mode requires at least one host in NewHosts".to_owned());
            }
            let ghost nodes = text::views(d.new_nodes@);
            let ghost hosts = text::views(d.hosts@);
            let mut i: usize = 0;
            while i < d.new_nodes.len()
                invariant
                    i <= d.new_nodes@.len(),
                    d.intent == Intent::Extend,
                    d.new_nodes@.len() > 0,
                    nodes == text::views(d.new_nodes@),
                    hosts == text::views(d.hosts@),
                    first_unlisted(nodes, hosts, i as int) == first_unlisted(nodes, hosts, 0),
                decreases d.new_nodes@.len() - i,
            {
                let h: &String = &d.new_nodes[i];
                proof {
                    assert(nodes[i as int] == h@);
                }
                if !text::has_string(&d.hosts, h.as_str()) {
                    return Err(unlisted(h.as_str()));
                }
                i = i + 1;
            }
            Ok(())
        },
        Intent::Upgrade => {
            if d.allow_nightly {
                Ok(())
            } else if text::same(d.coold_version.as_str(), "nightly") {
                Err(nightly("--coold-version"))
            } else if text::same(d.corrosion_version.as_str(), "nightly") {
                Err(nightly("--corrosion-version"))
            } else if text::same(d.coolify_version.as_str(), "nightly") {
                Err(nightly("--coolify-version"))
            } else if text::same(d.scheduler_version.as_str(), "nightly") {
                Err(nightly("--scheduler-version"))
            } else {
                Ok(())
            }
        },
    }
}

// ---------------------------------------------------------------------------
// Laws
// ---------------------------------------------------------------------------

/// A bootstrap leaves nothing out.
pub proof fn bootstrap_keeps_everything(
    s: Seq<ActionView>,
    allow_replace: bool,
    new_hosts: Seq<Seq<char>>,
)
    ensures
        kept_actions(s, Intent::Bootstrap, allow_replace, new_hosts) == s,
        skipped_actions(s, Intent::Bootstrap, allow_replace, new_hosts).len() == 0,
    decreases s.len(),
{
    if s.len() > 0 {
        bootstrap_keeps_everything(s.drop_last(), allow_replace, new_hosts);
        assert(s.drop_last().push(s.last()) =~= s);
    } else {
        assert(s =~= Seq::empty());
    }
}

/// Every action either stays or is left out with a reason, never both.
pub proof fn filter_partitions(
    s: Seq<ActionView>,
    intent: Intent,
    allow_replace: bool,
    new_hosts: Seq<Seq<char>>,
    a: ActionView,
)
    ensures
        s.to_multiset().count(a) == kept_actions(
            s,
            intent,
            allow_replace,
            new_hosts,
        ).to_multiset().count(a) + actions_of(
            skipped_actions(s, intent, allow_replace, new_hosts),
        ).to_multiset().count(a),
        kept_actions(s, intent, allow_replace, new_hosts).contains(a) <==> s.contains(a)
            && decision(a, intent, allow_replace, new_hosts) is None,
        actions_of(skipped_actions(s, intent, allow_replace, new_hosts)).contains(a)
            <==> s.contains(a) && decision(a, intent, allow_replace, new_hosts) is Some,
    decreases s.len(),
{
    broadcast use vstd::seq_lib::group_to_multiset_ensures;
    broadcast use vstd::seq_lib::group_seq_properties;

    let kept = kept_actions(s, intent, allow_replace, new_hosts);
    let left = actions_of(skipped_actions(s, intent, allow_replace, new_hosts));
    if s.len() > 0 {
        let t = s.drop_last();
        filter_partitions(t, intent, allow_replace, new_hosts, a);
        assert(t.push(s.last()) =~= s);
        let k0 = kept_actions(t, intent, allow_replace, new_hosts);
        let s0 = skipped_actions(t, intent, allow_replace, new_hosts);
        match decision(s.last(), intent, allow_replace, new_hosts) {
            None => {},
            Some(reason) => {
                assert(left =~= actions_of(s0).push(s.last()));
            },
        }
    } else {
        assert(left =~= Seq::empty());
        assert(s =~= Seq::empty());
    }
}

/// The actions of skipped ones.
pub open spec fn actions_of(s: Seq<SkippedView>) -> Seq<ActionView> {
    Seq::new(s.len(), |i: int| s[i].action)
}

/// Extending never resets the database of an existing host, bumps no version there, and
/// replaces nothing there unless that is allowed.
pub proof fn extend_spares_existing_hosts(
    s: Seq<ActionView>,
    allow_replace: bool,
    new_hosts: Seq<Seq<char>>,
    a: ActionView,
)
    requires
        kept_actions(s, Intent::Extend, allow_replace, new_hosts).contains(a),
        !new_hosts.contains(a.host),
    ensures
        category(a) != Category::WipeDb,
        category(a) != Category::VersionBump,
        category(a) == Category::DestructiveReplace ==> allow_replace,
{
    filter_partitions(s, Intent::Extend, allow_replace, new_hosts, a);
}

/// Extending leaves a new host's actions alone.
pub proof fn extend_serves_new_hosts(
    s: Seq<ActionView>,
    allow_replace: bool,
    new_hosts: Seq<Seq<char>>,
    a: ActionView,
)
    requires
        s.contains(a),
        new_hosts.contains(a.host),
    ensures
        kept_actions(s, Intent::Extend, allow_replace, new_hosts).contains(a),
{
    filter_partitions(s, Intent::Extend, allow_replace, new_hosts, a);
}

/// Upgrading runs version bumps and service reinstalls, and nothing else.
pub proof fn upgrade_only_bumps(
    s: Seq<ActionView>,
    allow_replace: bool,
    new_hosts: Seq<Seq<char>>,
    a: ActionView,
)
    ensures
        kept_actions(s, Intent::Upgrade, allow_replace, new_hosts).contains(a) <==> s.contains(a)
            && (category(a) == Category::VersionBump || is_service(a.action_type)),
{
    filter_partitions(s, Intent::Upgrade, allow_replace, new_hosts, a);
}

} // verus!
