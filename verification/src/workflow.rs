//! The two workflow state machines. Each decides, from its current state and
//! the outcome the driver reports, what state comes next and which external
//! action (if any) the driver must perform. The driver performs the action
//! (spawn a command, probe the network, copy files) and reports back; the
//! machine itself never touches the outside world, except that entering the
//! buffer-writing phase of an upgrade draws the fresh staging key the action
//! carries.

use vstd::prelude::*;
use crate::FleetError;
use crate::staging::StagingKey;

verus! {

// ----------------------------------------------------------------------
// First-time deployment
// ----------------------------------------------------------------------

/// The phases of a first deployment. A non-terminal state names the action
/// currently in flight; the driver's report moves the machine on.
#[derive(Clone, Copy, Debug, PartialEq, Eq, Structural)]
pub enum DeployState {
    Start,
    AlreadyDeployedCheck,
    Deploying,
    AuthoritySet,
    IdlInitialized,
    IdlAuthoritySet,
    ArtifactsCopied,
    Done,
    AlreadyDeployed,
    Failed(FleetError),
}

/// What the driver reports: the run was started, the probe answered (or
/// could not be invoked), or the action in flight succeeded or failed.
#[derive(Clone, Copy, Debug, PartialEq, Eq, Structural)]
pub enum DeployEvent {
    Started,
    Probe(bool),
    ProbeError,
    StepOk,
    StepFailed,
}

/// The external work a deployment asks its driver for.
#[derive(Clone, Copy, Debug, PartialEq, Eq, Structural)]
pub enum DeployAction {
    RunProbe,
    RunDeploy,
    RunSetAuthority,
    RunInitIdl,
    RunSetIdlAuthority,
    CopyArtifacts,
}

/// Which report a state can take: terminal states take none.
pub open spec fn deploy_event_fits(s: DeployState, e: DeployEvent) -> bool {
    match s {
        DeployState::Start => e == DeployEvent::Started,
        DeployState::AlreadyDeployedCheck => e matches DeployEvent::Probe(_) || e
            == DeployEvent::ProbeError,
        DeployState::Deploying => e == DeployEvent::StepOk || e == DeployEvent::StepFailed,
        DeployState::AuthoritySet => e == DeployEvent::StepOk || e == DeployEvent::StepFailed,
        DeployState::IdlInitialized => e == DeployEvent::StepOk || e == DeployEvent::StepFailed,
        DeployState::IdlAuthoritySet => e == DeployEvent::StepOk || e == DeployEvent::StepFailed,
        DeployState::ArtifactsCopied => e == DeployEvent::StepOk || e == DeployEvent::StepFailed,
        _ => false,
    }
}

/// The deployment transition table. A program found already on chain is a
/// notice, not a failure; any failed command aborts; the interface steps
/// run only when the interface tool is present.
pub open spec fn deploy_next(s: DeployState, has_idl: bool, e: DeployEvent) -> (
    DeployState,
    Option<DeployAction>,
) {
    match s {
        DeployState::Start => (DeployState::AlreadyDeployedCheck, Some(DeployAction::RunProbe)),
        DeployState::AlreadyDeployedCheck => match e {
            DeployEvent::Probe(found) => if found {
                (DeployState::AlreadyDeployed, None)
            } else {
                (DeployState::Deploying, Some(DeployAction::RunDeploy))
            },
            _ => (DeployState::Failed(FleetError::Probe), None),
        },
        DeployState::Deploying => if e == DeployEvent::StepOk {
            (DeployState::AuthoritySet, Some(DeployAction::RunSetAuthority))
        } else {
            (DeployState::Failed(FleetError::ExternalCommandFailure), None)
        },
        DeployState::AuthoritySet => if e == DeployEvent::StepOk {
            if has_idl {
                (DeployState::IdlInitialized, Some(DeployAction::RunInitIdl))
            } else {
                (DeployState::ArtifactsCopied, Some(DeployAction::CopyArtifacts))
            }
        } else {
            (DeployState::Failed(FleetError::ExternalCommandFailure), None)
        },
        DeployState::IdlInitialized => if e == DeployEvent::StepOk {
            (DeployState::IdlAuthoritySet, Some(DeployAction::RunSetIdlAuthority))
        } else {
            (DeployState::Failed(FleetError::ExternalCommandFailure), None)
        },
        DeployState::IdlAuthoritySet => if e == DeployEvent::StepOk {
            (DeployState::ArtifactsCopied, Some(DeployAction::CopyArtifacts))
        } else {
            (DeployState::Failed(FleetError::ExternalCommandFailure), None)
        },
        DeployState::ArtifactsCopied => if e == DeployEvent::StepOk {
            (DeployState::Done, None)
        } else {
            (DeployState::Failed(FleetError::Io), None)
        },
        _ => (s, None),
    }
}

/// Sequences external commands to perform a first deployment.
pub struct DeploymentWorkflow {
    pub state: DeployState,
    pub has_idl: bool,
}

impl DeploymentWorkflow {
    pub fn new(has_idl: bool) -> (w: DeploymentWorkflow)
        ensures
            w.state == DeployState::Start,
            w.has_idl == has_idl,
    {
        DeploymentWorkflow { state: DeployState::Start, has_idl }
    }

    /// Advances the machine by one report and returns the next action, or
    /// nothing when a terminal state is reached.
    pub fn step(&mut self, event: DeployEvent) -> (a: Option<DeployAction>)
        requires
            deploy_event_fits(old(self).state, event),
        ensures
            final(self).has_idl == old(self).has_idl,
            (final(self).state, a) == deploy_next(old(self).state, old(self).has_idl, event),
    {
        let (next, action): (DeployState, Option<DeployAction>) = match self.state {
            DeployState::Start => (
                DeployState::AlreadyDeployedCheck,
                Some(DeployAction::RunProbe),
            ),
            DeployState::AlreadyDeployedCheck => match event {
                DeployEvent::Probe(found) => if found {
                    (DeployState::AlreadyDeployed, None)
                } else {
                    (DeployState::Deploying, Some(DeployAction::RunDeploy))
                },
                _ => (DeployState::Failed(FleetError::Probe), None),
            },
            DeployState::Deploying => if event == DeployEvent::StepOk {
                (DeployState::AuthoritySet, Some(DeployAction::RunSetAuthority))
            } else {
                (DeployState::Failed(FleetError::ExternalCommandFailure), None)
            },
            DeployState::AuthoritySet => if event == DeployEvent::StepOk {
                if self.has_idl {
                    (DeployState::IdlInitialized, Some(DeployAction::RunInitIdl))
                } else {
                    (DeployState::ArtifactsCopied, Some(DeployAction::CopyArtifacts))
                }
            } else {
                (DeployState::Failed(FleetError::ExternalCommandFailure), None)
            },
            DeployState::IdlInitialized => if event == DeployEvent::StepOk {
                (DeployState::IdlAuthoritySet, Some(DeployAction::RunSetIdlAuthority))
            } else {
                (DeployState::Failed(FleetError::ExternalCommandFailure), None)
            },
            DeployState::IdlAuthoritySet => if event == DeployEvent::StepOk {
                (DeployState::ArtifactsCopied, Some(DeployAction::CopyArtifacts))
            } else {
                (DeployState::Failed(FleetError::ExternalCommandFailure), None)
            },
            DeployState::ArtifactsCopied => if event == DeployEvent::StepOk {
                (DeployState::Done, None)
            } else {
                (DeployState::Failed(FleetError::Io), None)
            },
            _ => (self.state, None),
        };
        self.state = next;
        action
    }
}

/// The actions a single step emits, as a sequence.
pub open spec fn opt_actions<A>(a: Option<A>) -> Seq<A> {
    match a {
        Some(x) => seq![x],
        None => Seq::empty(),
    }
}

/// The final state and the actions of a whole deployment run.
pub open spec fn deploy_run(s: DeployState, has_idl: bool, events: Seq<DeployEvent>) -> (
    DeployState,
    Seq<DeployAction>,
)
    decreases events.len(),
{
    if events.len() == 0 {
        (s, Seq::empty())
    } else {
        let first = deploy_next(s, has_idl, events[0]);
        let rest = deploy_run(first.0, has_idl, events.drop_first());
        (rest.0, opt_actions(first.1) + rest.1)
    }
}

/// Every report in the run answers the state it arrives in.
pub open spec fn deploy_events_fit(s: DeployState, has_idl: bool, events: Seq<DeployEvent>) -> bool
    decreases events.len(),
{
    events.len() == 0 || (deploy_event_fits(s, events[0]) && deploy_events_fit(
        deploy_next(s, has_idl, events[0]).0,
        has_idl,
        events.drop_first(),
    ))
}

/// A deployment run whose probe finds the program already on chain ends in
/// the AlreadyDeployed notice, and the probe is the only action it ever
/// asked for: in particular the deploy command is never invoked.
pub proof fn lemma_deploy_already_deployed(has_idl: bool, events: Seq<DeployEvent>)
    requires
        deploy_events_fit(DeployState::Start, has_idl, events),
        events.len() >= 2,
        events[0] == DeployEvent::Started,
        events[1] == DeployEvent::Probe(true),
    ensures
        deploy_run(DeployState::Start, has_idl, events).0 == DeployState::AlreadyDeployed,
        deploy_run(DeployState::Start, has_idl, events).1 =~= seq![DeployAction::RunProbe],
        !deploy_run(DeployState::Start, has_idl, events).1.contains(DeployAction::RunDeploy),
{
    let first = deploy_next(DeployState::Start, has_idl, events[0]);
    let e1 = events.drop_first();
    assert(e1[0] == events[1]);
    let second = deploy_next(first.0, has_idl, e1[0]);
    let e2 = e1.drop_first();
    assert(first.0 == DeployState::AlreadyDeployedCheck);
    assert(second.0 == DeployState::AlreadyDeployed);
    assert(deploy_events_fit(first.0, has_idl, e1));
    assert(deploy_events_fit(second.0, has_idl, e2));
    if e2.len() > 0 {
        assert(deploy_event_fits(second.0, e2[0]));
        assert(false);
    }
    assert(deploy_run(second.0, has_idl, e2) == (second.0, Seq::<DeployAction>::empty()));
    assert(deploy_run(first.0, has_idl, e1).1 =~= opt_actions(second.1) + deploy_run(
        second.0,
        has_idl,
        e2,
    ).1);
    assert(deploy_run(DeployState::Start, has_idl, events).1 =~= opt_actions(first.1)
        + deploy_run(first.0, has_idl, e1).1);
    assert(deploy_run(DeployState::Start, has_idl, events).1 =~= seq![DeployAction::RunProbe]);
    assert(!deploy_run(DeployState::Start, has_idl, events).1.contains(DeployAction::RunDeploy))
        by {
        assert(seq![DeployAction::RunProbe].len() == 1);
        assert(seq![DeployAction::RunProbe][0] == DeployAction::RunProbe);
    }
}

/// A failed command aborts the deployment at once: wherever a failure can be
/// reported, the machine lands in a failed state and asks for nothing more.
/// There is no retry anywhere.
pub proof fn lemma_deploy_fail_fast(s: DeployState, has_idl: bool)
    requires
        deploy_event_fits(s, DeployEvent::StepFailed),
    ensures
        deploy_next(s, has_idl, DeployEvent::StepFailed).0 matches DeployState::Failed(_),
        deploy_next(s, has_idl, DeployEvent::StepFailed).1 is None,
{
}

// ----------------------------------------------------------------------
// Upgrade of an already-deployed program
// ----------------------------------------------------------------------

/// The phases of an upgrade. As in a deployment, a non-terminal state names
/// the work in flight.
#[derive(Clone, Copy, Debug, PartialEq, Eq, Structural)]
pub enum UpgradeState {
    Start,
    PreconditionsChecked,
    BufferWritten,
    BufferAuthoritySet,
    Switched,
    IdlUpdated,
    ArtifactsCopied,
    Done,
    Failed(FleetError),
}

/// What the driver reports to an upgrade. The start report carries the two
/// facts the preconditions need: whether the upgrade-authority credential is
/// available, and whether the version's artifacts already exist.
#[derive(Clone, Copy, Debug, PartialEq, Eq, Structural)]
pub enum UpgradeEvent {
    Started { credential_present: bool, artifacts_exist: bool },
    Probe(bool),
    ProbeError,
    StepOk,
    StepFailed,
}

/// The external work an upgrade asks its driver for. Writing the buffer
/// carries the fresh staging key the driver must write to a scoped
/// temporary credential file.
pub enum UpgradeAction {
    RunProbe,
    WriteBuffer(StagingKey),
    SetBufferAuthority,
    DeployFromBuffer,
    WriteIdlBuffer,
    CopyArtifacts,
}

/// The kind of an upgrade action, without the staging-key payload.
#[derive(Clone, Copy, Debug, PartialEq, Eq, Structural)]
pub enum UpgradeActionKind {
    RunProbe,
    WriteBuffer,
    SetBufferAuthority,
    DeployFromBuffer,
    WriteIdlBuffer,
    CopyArtifacts,
}

pub open spec fn action_kind(a: UpgradeAction) -> UpgradeActionKind {
    match a {
        UpgradeAction::RunProbe => UpgradeActionKind::RunProbe,
        UpgradeAction::WriteBuffer(_) => UpgradeActionKind::WriteBuffer,
        UpgradeAction::SetBufferAuthority => UpgradeActionKind::SetBufferAuthority,
        UpgradeAction::DeployFromBuffer => UpgradeActionKind::DeployFromBuffer,
        UpgradeAction::WriteIdlBuffer => UpgradeActionKind::WriteIdlBuffer,
        UpgradeAction::CopyArtifacts => UpgradeActionKind::CopyArtifacts,
    }
}

pub open spec fn action_kind_of(a: Option<UpgradeAction>) -> Option<UpgradeActionKind> {
    match a {
        Some(act) => Some(action_kind(act)),
        None => None,
    }
}

pub open spec fn upgrade_event_fits(s: UpgradeState, e: UpgradeEvent) -> bool {
    match s {
        UpgradeState::Start => e matches UpgradeEvent::Started { .. },
        UpgradeState::PreconditionsChecked => e matches UpgradeEvent::Probe(_) || e
            == UpgradeEvent::ProbeError,
        UpgradeState::BufferWritten => e == UpgradeEvent::StepOk || e == UpgradeEvent::StepFailed,
        UpgradeState::BufferAuthoritySet => e == UpgradeEvent::StepOk || e
            == UpgradeEvent::StepFailed,
        UpgradeState::Switched => e == UpgradeEvent::StepOk || e == UpgradeEvent::StepFailed,
        UpgradeState::IdlUpdated => e == UpgradeEvent::StepOk || e == UpgradeEvent::StepFailed,
        UpgradeState::ArtifactsCopied => e == UpgradeEvent::StepOk || e
            == UpgradeEvent::StepFailed,
        _ => false,
    }
}

/// The upgrade transition table. The credential is demanded before anything
/// else; a version whose artifacts already exist is rejected before any
/// external command; a program not on chain is an error, not a deploy. The
/// buffer switch is signed by the upgrade authority; everything before it
/// is staging and safe to abandon.
pub open spec fn upgrade_next(s: UpgradeState, has_idl: bool, e: UpgradeEvent) -> (
    UpgradeState,
    Option<UpgradeActionKind>,
) {
    match s {
        UpgradeState::Start => match e {
            UpgradeEvent::Started { credential_present, artifacts_exist } => if !credential_present {
                (UpgradeState::Failed(FleetError::MissingCredential), None)
            } else if artifacts_exist {
                (UpgradeState::Failed(FleetError::DuplicateVersion), None)
            } else {
                (UpgradeState::PreconditionsChecked, Some(UpgradeActionKind::RunProbe))
            },
            _ => (s, None),
        },
        UpgradeState::PreconditionsChecked => match e {
            UpgradeEvent::Probe(found) => if found {
                (UpgradeState::BufferWritten, Some(UpgradeActionKind::WriteBuffer))
            } else {
                (UpgradeState::Failed(FleetError::ProgramNotDeployed), None)
            },
            _ => (UpgradeState::Failed(FleetError::Probe), None),
        },
        UpgradeState::BufferWritten => if e == UpgradeEvent::StepOk {
            (UpgradeState::BufferAuthoritySet, Some(UpgradeActionKind::SetBufferAuthority))
        } else {
            (UpgradeState::Failed(FleetError::ExternalCommandFailure), None)
        },
        UpgradeState::BufferAuthoritySet => if e == UpgradeEvent::StepOk {
            (UpgradeState::Switched, Some(UpgradeActionKind::DeployFromBuffer))
        } else {
            (UpgradeState::Failed(FleetError::ExternalCommandFailure), None)
        },
        UpgradeState::Switched => if e == UpgradeEvent::StepOk {
            if has_idl {
                (UpgradeState::IdlUpdated, Some(UpgradeActionKind::WriteIdlBuffer))
            } else {
                (UpgradeState::ArtifactsCopied, Some(UpgradeActionKind::CopyArtifacts))
            }
        } else {
            (UpgradeState::Failed(FleetError::ExternalCommandFailure), None)
        },
        UpgradeState::IdlUpdated => if e == UpgradeEvent::StepOk {
            (UpgradeState::ArtifactsCopied, Some(UpgradeActionKind::CopyArtifacts))
        } else {
            (UpgradeState::Failed(FleetError::ExternalCommandFailure), None)
        },
        UpgradeState::ArtifactsCopied => if e == UpgradeEvent::StepOk {
            (UpgradeState::Done, None)
        } else {
            (UpgradeState::Failed(FleetError::Io), None)
        },
        _ => (s, None),
    }
}

/// Sequences external commands to upgrade an already-deployed program
/// through a staging buffer.
pub struct UpgradeWorkflow {
    pub state: UpgradeState,
    pub has_idl: bool,
}

impl UpgradeWorkflow {
    pub fn new(has_idl: bool) -> (w: UpgradeWorkflow)
        ensures
            w.state == UpgradeState::Start,
            w.has_idl == has_idl,
    {
        UpgradeWorkflow { state: UpgradeState::Start, has_idl }
    }

    /// Advances the machine by one report and returns the next action, or
    /// nothing when a terminal state is reached. Entering the buffer phase
    /// draws a fresh staging key and hands it out with the action.
    pub fn step(&mut self, event: UpgradeEvent) -> (a: Option<UpgradeAction>)
        requires
            upgrade_event_fits(old(self).state, event),
        ensures
            final(self).has_idl == old(self).has_idl,
            final(self).state == upgrade_next(old(self).state, old(self).has_idl, event).0,
            action_kind_of(a) == upgrade_next(old(self).state, old(self).has_idl, event).1,
            a matches Some(UpgradeAction::WriteBuffer(k)) ==> k.wf(),
    {
        let (next, action): (UpgradeState, Option<UpgradeAction>) = match self.state {
            UpgradeState::Start => match event {
                UpgradeEvent::Started { credential_present, artifacts_exist } => {
                    if !credential_present {
                        (UpgradeState::Failed(FleetError::MissingCredential), None)
                    } else if artifacts_exist {
                        (UpgradeState::Failed(FleetError::DuplicateVersion), None)
                    } else {
                        (UpgradeState::PreconditionsChecked, Some(UpgradeAction::RunProbe))
                    }
                },
                _ => (self.state, None),
            },
            UpgradeState::PreconditionsChecked => match event {
                UpgradeEvent::Probe(found) => if found {
                    let key = StagingKey::fresh();
                    (UpgradeState::BufferWritten, Some(UpgradeAction::WriteBuffer(key)))
                } else {
                    (UpgradeState::Failed(FleetError::ProgramNotDeployed), None)
                },
                _ => (UpgradeState::Failed(FleetError::Probe), None),
            },
            UpgradeState::BufferWritten => if event == UpgradeEvent::StepOk {
                (UpgradeState::BufferAuthoritySet, Some(UpgradeAction::SetBufferAuthority))
            } else {
                (UpgradeState::Failed(FleetError::ExternalCommandFailure), None)
            },
            UpgradeState::BufferAuthoritySet => if event == UpgradeEvent::StepOk {
                (UpgradeState::Switched, Some(UpgradeAction::DeployFromBuffer))
            } else {
                (UpgradeState::Failed(FleetError::ExternalCommandFailure), None)
            },
            UpgradeState::Switched => if event == UpgradeEvent::StepOk {
                if self.has_idl {
                    (UpgradeState::IdlUpdated, Some(UpgradeAction::WriteIdlBuffer))
                } else {
                    (UpgradeState::ArtifactsCopied, Some(UpgradeAction::CopyArtifacts))
                }
            } else {
                (UpgradeState::Failed(FleetError::ExternalCommandFailure), None)
            },
            UpgradeState::IdlUpdated => if event == UpgradeEvent::StepOk {
                (UpgradeState::ArtifactsCopied, Some(UpgradeAction::CopyArtifacts))
            } else {
                (UpgradeState::Failed(FleetError::ExternalCommandFailure), None)
            },
            UpgradeState::ArtifactsCopied => if event == UpgradeEvent::StepOk {
                (UpgradeState::Done, None)
            } else {
                (UpgradeState::Failed(FleetError::Io), None)
            },
            _ => (self.state, None),
        };
        self.state = next;
        action
    }
}

/// The final state and the action kinds of a whole upgrade run.
pub open spec fn upgrade_run(s: UpgradeState, has_idl: bool, events: Seq<UpgradeEvent>) -> (
    UpgradeState,
    Seq<UpgradeActionKind>,
)
    decreases events.len(),
{
    if events.len() == 0 {
        (s, Seq::empty())
    } else {
        let first = upgrade_next(s, has_idl, events[0]);
        let rest = upgrade_run(first.0, has_idl, events.drop_first());
        (rest.0, opt_actions(first.1) + rest.1)
    }
}

/// Every report in the run answers the state it arrives in.
pub open spec fn upgrade_events_fit(
    s: UpgradeState,
    has_idl: bool,
    events: Seq<UpgradeEvent>,
) -> bool
    decreases events.len(),
{
    events.len() == 0 || (upgrade_event_fits(s, events[0]) && upgrade_events_fit(
        upgrade_next(s, has_idl, events[0]).0,
        has_idl,
        events.drop_first(),
    ))
}

/// A failed command aborts the upgrade at once: wherever a failure can be
/// reported, the machine lands in a failed state and asks for nothing more.
/// There is no retry anywhere.
pub proof fn lemma_upgrade_fail_fast(s: UpgradeState, has_idl: bool)
    requires
        upgrade_event_fits(s, UpgradeEvent::StepFailed),
    ensures
        upgrade_next(s, has_idl, UpgradeEvent::StepFailed).0 matches UpgradeState::Failed(_),
        upgrade_next(s, has_idl, UpgradeEvent::StepFailed).1 is None,
{
}

/// An upgrade without the upgrade-authority credential fails at once with
/// the missing-credential error — before the duplicate-version guard and
/// before any external command: the run asks for no action at all.
pub proof fn lemma_upgrade_missing_credential(
    has_idl: bool,
    artifacts_exist: bool,
    events: Seq<UpgradeEvent>,
)
    requires
        upgrade_events_fit(UpgradeState::Start, has_idl, events),
        events.len() >= 1,
        events[0] == (UpgradeEvent::Started { credential_present: false, artifacts_exist }),
    ensures
        upgrade_run(UpgradeState::Start, has_idl, events).0 == UpgradeState::Failed(
            FleetError::MissingCredential,
        ),
        upgrade_run(UpgradeState::Start, has_idl, events).1 =~= Seq::<UpgradeActionKind>::empty(),
{
    let first = upgrade_next(UpgradeState::Start, has_idl, events[0]);
    let e1 = events.drop_first();
    assert(first.0 == UpgradeState::Failed(FleetError::MissingCredential));
    assert(upgrade_events_fit(first.0, has_idl, e1));
    if e1.len() > 0 {
        assert(upgrade_event_fits(first.0, e1[0]));
        assert(false);
    }
    assert(upgrade_run(first.0, has_idl, e1) == (first.0, Seq::<UpgradeActionKind>::empty()));
    assert(upgrade_run(UpgradeState::Start, has_idl, events).1 =~= opt_actions(first.1)
        + upgrade_run(first.0, has_idl, e1).1);
}

/// An upgrade whose version already has archived artifacts fails at once
/// with the duplicate-version error, and the run asks for no action at all:
/// no external command runs before the guard.
pub proof fn lemma_upgrade_duplicate_version(has_idl: bool, events: Seq<UpgradeEvent>)
    requires
        upgrade_events_fit(UpgradeState::Start, has_idl, events),
        events.len() >= 1,
        events[0] == (UpgradeEvent::Started {
            credential_present: true,
            artifacts_exist: true,
        }),
    ensures
        upgrade_run(UpgradeState::Start, has_idl, events).0 == UpgradeState::Failed(
            FleetError::DuplicateVersion,
        ),
        upgrade_run(UpgradeState::Start, has_idl, events).1 =~= Seq::<UpgradeActionKind>::empty(),
{
    let first = upgrade_next(UpgradeState::Start, has_idl, events[0]);
    let e1 = events.drop_first();
    assert(first.0 == UpgradeState::Failed(FleetError::DuplicateVersion));
    assert(upgrade_events_fit(first.0, has_idl, e1));
    if e1.len() > 0 {
        assert(upgrade_event_fits(first.0, e1[0]));
        assert(false);
    }
    assert(upgrade_run(first.0, has_idl, e1) == (first.0, Seq::<UpgradeActionKind>::empty()));
    assert(upgrade_run(UpgradeState::Start, has_idl, events).1 =~= opt_actions(first.1)
        + upgrade_run(first.0, has_idl, e1).1);
}

/// An upgrade whose probe does not find the program on chain fails with the
/// program-not-deployed error, and the probe is the only action it ever
/// asked for: in particular the buffer is never written.
pub proof fn lemma_upgrade_not_deployed(has_idl: bool, events: Seq<UpgradeEvent>)
    requires
        upgrade_events_fit(UpgradeState::Start, has_idl, events),
        events.len() >= 2,
        events[0] == (UpgradeEvent::Started {
            credential_present: true,
            artifacts_exist: false,
        }),
        events[1] == UpgradeEvent::Probe(false),
    ensures
        upgrade_run(UpgradeState::Start, has_idl, events).0 == UpgradeState::Failed(
            FleetError::ProgramNotDeployed,
        ),
        upgrade_run(UpgradeState::Start, has_idl, events).1 =~= seq![UpgradeActionKind::RunProbe],
        !upgrade_run(UpgradeState::Start, has_idl, events).1.contains(
            UpgradeActionKind::WriteBuffer,
        ),
{
    let first = upgrade_next(UpgradeState::Start, has_idl, events[0]);
    let e1 = events.drop_first();
    assert(e1[0] == events[1]);
    let second = upgrade_next(first.0, has_idl, e1[0]);
    let e2 = e1.drop_first();
    assert(first.0 == UpgradeState::PreconditionsChecked);
    assert(second.0 == UpgradeState::Failed(FleetError::ProgramNotDeployed));
    assert(upgrade_events_fit(first.0, has_idl, e1));
    assert(upgrade_events_fit(second.0, has_idl, e2));
    if e2.len() > 0 {
        assert(upgrade_event_fits(second.0, e2[0]));
        assert(false);
    }
    assert(upgrade_run(second.0, has_idl, e2) == (second.0, Seq::<UpgradeActionKind>::empty()));
    assert(upgrade_run(first.0, has_idl, e1).1 =~= opt_actions(second.1) + upgrade_run(
        second.0,
        has_idl,
        e2,
    ).1);
    assert(upgrade_run(UpgradeState::Start, has_idl, events).1 =~= opt_actions(first.1)
        + upgrade_run(first.0, has_idl, e1).1);
    assert(upgrade_run(UpgradeState::Start, has_idl, events).1
        =~= seq![UpgradeActionKind::RunProbe]);
    assert(!upgrade_run(UpgradeState::Start, has_idl, events).1.contains(
        UpgradeActionKind::WriteBuffer,
    )) by {
        assert(seq![UpgradeActionKind::RunProbe].len() == 1);
        assert(seq![UpgradeActionKind::RunProbe][0] == UpgradeActionKind::RunProbe);
    }
}

} // verus!
