//! The flashing workflow as a state machine: every decision the run makes —
//! which target a read identifier selects, whether a memory map authorizes
//! programming, whether a halt report authorizes flashing — is taken here,
//! on plain values. A driver performs each returned action against the
//! hardware and feeds the outcome back as the next event.

use vstd::prelude::*;
use crate::identify::{IdentificationError, TargetSelector, spec_resolve, resolve};
use crate::memory::MemoryRegion;
use crate::progress::Stage;
use crate::session::{HALT_TIMEOUT_MS, PrepareError, spec_validate_regions, prepare_classification};

verus! {

/// A failure that ends the run, by the stage it arose in.
#[derive(Clone, Copy, PartialEq, Eq, Structural, Debug)]
pub enum WorkflowError {
    /// No probe could be opened.
    ProbeOpen,
    /// Protocol negotiation or target-name attach failed.
    Attach,
    /// The chip identifier could not be read over the transport.
    Transport,
    /// The identifier did not resolve to a supported target.
    Identification(IdentificationError),
    /// The auxiliary target description could not be registered.
    Registration,
    /// A programming precondition failed.
    Prepare(PrepareError),
    /// The named flash stage failed; the whole operation is abandoned.
    Flash(Stage),
}

/// The fixed flashing policy of this workflow: chip-erase before program,
/// no skipped erase, verify after write. Not user-tunable at this layer.
#[derive(Clone, Copy, PartialEq, Eq, Structural, Debug)]
pub struct FlashOptions {
    pub do_chip_erase: bool,
    pub skip_erase: bool,
    pub verify: bool,
}

/// The policy every flash action of this workflow carries.
pub open spec fn spec_fixed_flash_options() -> FlashOptions {
    FlashOptions { do_chip_erase: true, skip_erase: false, verify: true }
}

/// Builds the fixed flashing policy.
pub fn fixed_flash_options() -> (o: FlashOptions)
    ensures
        o == spec_fixed_flash_options(),
{
    FlashOptions { do_chip_erase: true, skip_erase: false, verify: true }
}

/// Where the workflow stands: each non-terminal state awaits the outcome of
/// the one action issued on entering it.
#[derive(Clone, Copy, PartialEq, Eq, Structural, Debug)]
pub enum WorkflowState {
    /// Not started.
    Idle,
    /// Awaiting the probe-open outcome.
    OpeningProbe,
    /// Awaiting the protocol-negotiation attach used for identification.
    AttachingProbe,
    /// Awaiting the chip identifier read from the debug port.
    ReadingIdentifier,
    /// Awaiting registration of the selected target's auxiliary description.
    Registering(TargetSelector),
    /// Awaiting the session attach against the selected target.
    AttachingTarget(TargetSelector),
    /// Awaiting the session's target descriptor.
    ReadingDescriptor(TargetSelector),
    /// Awaiting the bounded reset-and-halt request on core index 0.
    Halting(TargetSelector),
    /// Awaiting the halt-status query that alone can authorize flashing.
    QueryingHalt(TargetSelector),
    /// Awaiting the flash operation's outcome. Entered only on a confirmed
    /// halt.
    Flashing(TargetSelector),
    /// The firmware was programmed and verified.
    Complete,
    /// The run ended with the carried failure; nothing further happens.
    Aborted(WorkflowError),
}

/// One outcome handed back by the driver.
pub enum WorkflowEvent {
    /// Begin the run.
    Start,
    ProbeOpened,
    ProbeOpenFailed,
    ProbeAttached,
    ProbeAttachFailed,
    /// The 32-bit chip identifier read from the debug port.
    IdentifierRead(u32),
    IdentifierReadFailed,
    DescriptionRegistered,
    RegistrationFailed,
    SessionAttached,
    SessionAttachFailed,
    /// The declared memory regions of the session's target descriptor.
    DescriptorRead(Vec<MemoryRegion>),
    /// Core index 0 could not be selected.
    CoreUnavailable,
    ResetHaltCompleted,
    ResetHaltTimedOut,
    /// What the halt query reported.
    HaltReported(bool),
    FlashCompleted,
    /// The flash operation failed at the named stage.
    FlashFailed(Stage),
}

/// What the driver is to do next.
#[derive(Clone, Copy, PartialEq, Eq, Structural, Debug)]
pub enum WorkflowAction {
    /// Open the first discovered probe.
    OpenProbe,
    /// Attach the probe without naming a target, for identification.
    AttachProbe,
    /// Read the chip identifier over the debug port.
    ReadIdentifier,
    /// Register the selected target's auxiliary description.
    RegisterDescription(TargetSelector),
    /// Attach a session against the selected target, with erase-all
    /// permission requested explicitly.
    AttachTarget(TargetSelector),
    /// Read the session's target descriptor.
    ReadDescriptor,
    /// Select core index 0 and reset-and-halt it, waiting at most the given
    /// milliseconds.
    ResetAndHalt(u64),
    /// Query whether the core reports a confirmed halt.
    QueryHalted,
    /// Program the firmware image under the carried fixed policy.
    Flash(FlashOptions),
    /// The run succeeded; stop.
    Finish,
    /// Surface the carried failure and stop; nothing is retried.
    Report(WorkflowError),
    /// The event does not belong to the current state; nothing happens.
    Ignore,
}

/// The workflow's full decision table: for a state and an incoming event,
/// the next state and the action the driver is to perform. Total: an event
/// a state does not await is ignored, and terminal states absorb everything.
pub open spec fn spec_workflow_step(s: WorkflowState, e: WorkflowEvent) -> (WorkflowState, WorkflowAction) {
    match (s, e) {
        (WorkflowState::Idle, WorkflowEvent::Start) => (
            WorkflowState::OpeningProbe,
            WorkflowAction::OpenProbe,
        ),
        (WorkflowState::OpeningProbe, WorkflowEvent::ProbeOpened) => (
            WorkflowState::AttachingProbe,
            WorkflowAction::AttachProbe,
        ),
        (WorkflowState::OpeningProbe, WorkflowEvent::ProbeOpenFailed) => (
            WorkflowState::Aborted(WorkflowError::ProbeOpen),
            WorkflowAction::Report(WorkflowError::ProbeOpen),
        ),
        (WorkflowState::AttachingProbe, WorkflowEvent::ProbeAttached) => (
            WorkflowState::ReadingIdentifier,
            WorkflowAction::ReadIdentifier,
        ),
        (WorkflowState::AttachingProbe, WorkflowEvent::ProbeAttachFailed) => (
            WorkflowState::Aborted(WorkflowError::Attach),
            WorkflowAction::Report(WorkflowError::Attach),
        ),
        (WorkflowState::ReadingIdentifier, WorkflowEvent::IdentifierRead(id)) => match spec_resolve(
            id,
        ) {
            Ok(t) => if t.spec_needs_registration() {
                (WorkflowState::Registering(t), WorkflowAction::RegisterDescription(t))
            } else {
                (WorkflowState::AttachingTarget(t), WorkflowAction::AttachTarget(t))
            },
            Err(err) => (
                WorkflowState::Aborted(WorkflowError::Identification(err)),
                WorkflowAction::Report(WorkflowError::Identification(err)),
            ),
        },
        (WorkflowState::ReadingIdentifier, WorkflowEvent::IdentifierReadFailed) => (
            WorkflowState::Aborted(WorkflowError::Transport),
            WorkflowAction::Report(WorkflowError::Transport),
        ),
        (WorkflowState::Registering(t), WorkflowEvent::DescriptionRegistered) => (
            WorkflowState::AttachingTarget(t),
            WorkflowAction::AttachTarget(t),
        ),
        (WorkflowState::Registering(_), WorkflowEvent::RegistrationFailed) => (
            WorkflowState::Aborted(WorkflowError::Registration),
            WorkflowAction::Report(WorkflowError::Registration),
        ),
        (WorkflowState::AttachingTarget(t), WorkflowEvent::SessionAttached) => (
            WorkflowState::ReadingDescriptor(t),
            WorkflowAction::ReadDescriptor,
        ),
        (WorkflowState::AttachingTarget(_), WorkflowEvent::SessionAttachFailed) => (
            WorkflowState::Aborted(WorkflowError::Attach),
            WorkflowAction::Report(WorkflowError::Attach),
        ),
        (WorkflowState::ReadingDescriptor(t), WorkflowEvent::DescriptorRead(regions)) => match spec_validate_regions(
            regions@,
        ) {
            Ok(_) => (WorkflowState::Halting(t), WorkflowAction::ResetAndHalt(HALT_TIMEOUT_MS)),
            Err(pe) => (
                WorkflowState::Aborted(WorkflowError::Prepare(pe)),
                WorkflowAction::Report(WorkflowError::Prepare(pe)),
            ),
        },
        (WorkflowState::Halting(t), WorkflowEvent::ResetHaltCompleted) => (
            WorkflowState::QueryingHalt(t),
            WorkflowAction::QueryHalted,
        ),
        (WorkflowState::Halting(_), WorkflowEvent::ResetHaltTimedOut) => (
            WorkflowState::Aborted(WorkflowError::Prepare(PrepareError::HaltTimeout)),
            WorkflowAction::Report(WorkflowError::Prepare(PrepareError::HaltTimeout)),
        ),
        (WorkflowState::Halting(_), WorkflowEvent::CoreUnavailable) => (
            WorkflowState::Aborted(WorkflowError::Prepare(PrepareError::HaltNotConfirmed)),
            WorkflowAction::Report(WorkflowError::Prepare(PrepareError::HaltNotConfirmed)),
        ),
        (WorkflowState::QueryingHalt(t), WorkflowEvent::HaltReported(halted)) => if halted {
            (WorkflowState::Flashing(t), WorkflowAction::Flash(spec_fixed_flash_options()))
        } else {
            (
                WorkflowState::Aborted(WorkflowError::Prepare(PrepareError::HaltNotConfirmed)),
                WorkflowAction::Report(WorkflowError::Prepare(PrepareError::HaltNotConfirmed)),
            )
        },
        (WorkflowState::Flashing(_), WorkflowEvent::FlashCompleted) => (
            WorkflowState::Complete,
            WorkflowAction::Finish,
        ),
        (WorkflowState::Flashing(_), WorkflowEvent::FlashFailed(stage)) => (
            WorkflowState::Aborted(WorkflowError::Flash(stage)),
            WorkflowAction::Report(WorkflowError::Flash(stage)),
        ),
        (state, _) => (state, WorkflowAction::Ignore),
    }
}

/// Takes one workflow step: decides, from the current state and the
/// driver's event, the next state and the action to perform.
pub fn workflow_step(state: WorkflowState, event: WorkflowEvent) -> (r: (
    WorkflowState,
    WorkflowAction,
))
    ensures
        r == spec_workflow_step(state, event),
{
    match (state, event) {
        (WorkflowState::Idle, WorkflowEvent::Start) => (
            WorkflowState::OpeningProbe,
            WorkflowAction::OpenProbe,
        ),
        (WorkflowState::OpeningProbe, WorkflowEvent::ProbeOpened) => (
            WorkflowState::AttachingProbe,
            WorkflowAction::AttachProbe,
        ),
        (WorkflowState::OpeningProbe, WorkflowEvent::ProbeOpenFailed) => (
            WorkflowState::Aborted(WorkflowError::ProbeOpen),
            WorkflowAction::Report(WorkflowError::ProbeOpen),
        ),
        (WorkflowState::AttachingProbe, WorkflowEvent::ProbeAttached) => (
            WorkflowState::ReadingIdentifier,
            WorkflowAction::ReadIdentifier,
        ),
        (WorkflowState::AttachingProbe, WorkflowEvent::ProbeAttachFailed) => (
            WorkflowState::Aborted(WorkflowError::Attach),
            WorkflowAction::Report(WorkflowError::Attach),
        ),
        (WorkflowState::ReadingIdentifier, WorkflowEvent::IdentifierRead(id)) => match resolve(id) {
            Ok(t) => if t.needs_registration() {
                (WorkflowState::Registering(t), WorkflowAction::RegisterDescription(t))
            } else {
                (WorkflowState::AttachingTarget(t), WorkflowAction::AttachTarget(t))
            },
            Err(err) => (
                WorkflowState::Aborted(WorkflowError::Identification(err)),
                WorkflowAction::Report(WorkflowError::Identification(err)),
            ),
        },
        (WorkflowState::ReadingIdentifier, WorkflowEvent::IdentifierReadFailed) => (
            WorkflowState::Aborted(WorkflowError::Transport),
            WorkflowAction::Report(WorkflowError::Transport),
        ),
        (WorkflowState::Registering(t), WorkflowEvent::DescriptionRegistered) => (
            WorkflowState::AttachingTarget(t),
            WorkflowAction::AttachTarget(t),
        ),
        (WorkflowState::Registering(_), WorkflowEvent::RegistrationFailed) => (
            WorkflowState::Aborted(WorkflowError::Registration),
            WorkflowAction::Report(WorkflowError::Registration),
        ),
        (WorkflowState::AttachingTarget(t), WorkflowEvent::SessionAttached) => (
            WorkflowState::ReadingDescriptor(t),
            WorkflowAction::ReadDescriptor,
        ),
        (WorkflowState::AttachingTarget(_), WorkflowEvent::SessionAttachFailed) => (
            WorkflowState::Aborted(WorkflowError::Attach),
            WorkflowAction::Report(WorkflowError::Attach),
        ),
        (WorkflowState::ReadingDescriptor(t), WorkflowEvent::DescriptorRead(regions)) => match prepare_classification(
            regions,
        ) {
            Ok(_) => (WorkflowState::Halting(t), WorkflowAction::ResetAndHalt(HALT_TIMEOUT_MS)),
            Err(pe) => (
                WorkflowState::Aborted(WorkflowError::Prepare(pe)),
                WorkflowAction::Report(WorkflowError::Prepare(pe)),
            ),
        },
        (WorkflowState::Halting(t), WorkflowEvent::ResetHaltCompleted) => (
            WorkflowState::QueryingHalt(t),
            WorkflowAction::QueryHalted,
        ),
        (WorkflowState::Halting(_), WorkflowEvent::ResetHaltTimedOut) => (
            WorkflowState::Aborted(WorkflowError::Prepare(PrepareError::HaltTimeout)),
            WorkflowAction::Report(WorkflowError::Prepare(PrepareError::HaltTimeout)),
        ),
        (WorkflowState::Halting(_), WorkflowEvent::CoreUnavailable) => (
            WorkflowState::Aborted(WorkflowError::Prepare(PrepareError::HaltNotConfirmed)),
            WorkflowAction::Report(WorkflowError::Prepare(PrepareError::HaltNotConfirmed)),
        ),
        (WorkflowState::QueryingHalt(t), WorkflowEvent::HaltReported(halted)) => if halted {
            (WorkflowState::Flashing(t), WorkflowAction::Flash(fixed_flash_options()))
        } else {
            (
                WorkflowState::Aborted(WorkflowError::Prepare(PrepareError::HaltNotConfirmed)),
                WorkflowAction::Report(WorkflowError::Prepare(PrepareError::HaltNotConfirmed)),
            )
        },
        (WorkflowState::Flashing(_), WorkflowEvent::FlashCompleted) => (
            WorkflowState::Complete,
            WorkflowAction::Finish,
        ),
        (WorkflowState::Flashing(_), WorkflowEvent::FlashFailed(stage)) => (
            WorkflowState::Aborted(WorkflowError::Flash(stage)),
            WorkflowAction::Report(WorkflowError::Flash(stage)),
        ),
        (s, _) => (s, WorkflowAction::Ignore),
    }
}

/// The state the workflow stands in after a sequence of events.
pub open spec fn workflow_run(s: WorkflowState, events: Seq<WorkflowEvent>) -> WorkflowState
    decreases events.len(),
{
    if events.len() == 0 {
        s
    } else {
        workflow_run(spec_workflow_step(s, events.first()).0, events.drop_first())
    }
}

/// The halt precondition: a flash action is issued exactly on a halt query
/// reporting a confirmed halt — from the state awaiting that query, on the
/// event carrying `true`, and in no other case.
pub proof fn lemma_flash_requires_confirmed_halt(s: WorkflowState, e: WorkflowEvent)
    ensures
        (spec_workflow_step(s, e).1 is Flash) <==> (s is QueryingHalt && e == (
        WorkflowEvent::HaltReported(true))),
{
}

/// A run whose halt queries never report a halt issues no flash action at
/// any step: with a core that never confirms a halt, the flash orchestrator
/// is never invoked.
pub proof fn lemma_unhalted_core_never_flashed(s: WorkflowState, events: Seq<WorkflowEvent>)
    requires
        forall|k: int| 0 <= k < events.len() ==> events[k] != (WorkflowEvent::HaltReported(true)),
    ensures
        forall|k: int|
            0 <= k < events.len() ==> !(#[trigger] spec_workflow_step(
                workflow_run(s, events.take(k)),
                events[k],
            ).1 is Flash),
{
    assert forall|k: int| 0 <= k < events.len() implies !(#[trigger] spec_workflow_step(
        workflow_run(s, events.take(k)),
        events[k],
    ).1 is Flash) by {
        lemma_flash_requires_confirmed_halt(workflow_run(s, events.take(k)), events[k]);
    }
}

/// A terminal state absorbs every event: an aborted run performs nothing
/// further, and a complete one is over.
pub proof fn lemma_terminal_states_absorb(s: WorkflowState, e: WorkflowEvent)
    requires
        s is Aborted || s is Complete,
    ensures
        spec_workflow_step(s, e) == (s, WorkflowAction::Ignore),
{
}

} // verus!
