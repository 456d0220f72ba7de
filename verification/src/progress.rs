//! Flash progress: the staged event protocol of a program operation, a
//! tracker that enforces its strict Fill → Erase → Program ordering, and the
//! stateless reporter that renders events.

use vstd::prelude::*;

verus! {

/// One stage of the flash operation, in its fixed order.
#[derive(Clone, Copy, PartialEq, Eq, Structural, Debug)]
pub enum Stage {
    Fill,
    Erase,
    Program,
}

/// One transition of the flashing state machine, as observed by the
/// progress sink. Consumed exactly once; never stored.
#[derive(Clone, Copy, PartialEq, Eq, Structural, Debug)]
pub enum ProgressEvent {
    /// The operation's flash layout has been computed; stages may begin.
    Initialized,
    StartedFilling,
    /// One page filled, with its size in bytes and elapsed milliseconds.
    PageFilled { size: u64, time_ms: u64 },
    FailedFilling,
    FinishedFilling,
    StartedErasing,
    /// One sector erased, with its size in bytes and elapsed milliseconds.
    SectorErased { size: u64, time_ms: u64 },
    FailedErasing,
    FinishedErasing,
    StartedProgramming,
    /// One page programmed and verified, with its size in bytes and elapsed
    /// milliseconds.
    PageProgrammed { size: u64, time_ms: u64 },
    FailedProgramming,
    FinishedProgramming,
}

/// Where in the staged protocol an operation stands.
#[derive(Clone, Copy, PartialEq, Eq, Structural, Debug)]
pub enum FlashPhase {
    /// Nothing observed yet; awaiting initialization.
    Ready,
    /// Initialized; awaiting the fill stage.
    Prepared,
    Filling,
    Filled,
    Erasing,
    Erased,
    Programming,
    /// Programming (including its verification) finished: the whole
    /// operation succeeded.
    Done,
    /// The named stage failed; every later stage is forbidden.
    Failed(Stage),
}

/// The staged protocol itself: which phase one event leads to, or `None`
/// where the event is out of order and must be rejected. The order is
/// strictly Fill → Erase → Program, each stage a start, zero or more
/// per-unit events, and one terminal finish or failure; a failure forbids
/// everything after it.
pub open spec fn spec_step(p: FlashPhase, e: ProgressEvent) -> Option<FlashPhase> {
    match (p, e) {
        (FlashPhase::Ready, ProgressEvent::Initialized) => Some(FlashPhase::Prepared),
        (FlashPhase::Prepared, ProgressEvent::StartedFilling) => Some(FlashPhase::Filling),
        (FlashPhase::Filling, ProgressEvent::PageFilled { .. }) => Some(FlashPhase::Filling),
        (FlashPhase::Filling, ProgressEvent::FinishedFilling) => Some(FlashPhase::Filled),
        (FlashPhase::Filling, ProgressEvent::FailedFilling) => Some(
            FlashPhase::Failed(Stage::Fill),
        ),
        (FlashPhase::Filled, ProgressEvent::StartedErasing) => Some(FlashPhase::Erasing),
        (FlashPhase::Erasing, ProgressEvent::SectorErased { .. }) => Some(FlashPhase::Erasing),
        (FlashPhase::Erasing, ProgressEvent::FinishedErasing) => Some(FlashPhase::Erased),
        (FlashPhase::Erasing, ProgressEvent::FailedErasing) => Some(
            FlashPhase::Failed(Stage::Erase),
        ),
        (FlashPhase::Erased, ProgressEvent::StartedProgramming) => Some(FlashPhase::Programming),
        (FlashPhase::Programming, ProgressEvent::PageProgrammed { .. }) => Some(
            FlashPhase::Programming,
        ),
        (FlashPhase::Programming, ProgressEvent::FinishedProgramming) => Some(FlashPhase::Done),
        (FlashPhase::Programming, ProgressEvent::FailedProgramming) => Some(
            FlashPhase::Failed(Stage::Program),
        ),
        _ => None,
    }
}

/// Tracks one flash operation against the staged protocol.
pub struct FlashTracker {
    pub phase: FlashPhase,
}

impl FlashTracker {
    /// A tracker for an operation that has not begun.
    pub fn new() -> (t: Self)
        ensures
            t.phase == FlashPhase::Ready,
    {
        FlashTracker { phase: FlashPhase::Ready }
    }

    /// Feeds one observed event. An event the protocol allows in the current
    /// phase advances the tracker and is accepted; an out-of-order event is
    /// rejected and leaves the tracker unchanged.
    pub fn on_event(&mut self, event: ProgressEvent) -> (accepted: bool)
        ensures
            match spec_step(old(self).phase, event) {
                Some(p) => accepted && final(self).phase == p,
                None => !accepted && final(self).phase == old(self).phase,
            },
    {
        let next = match (self.phase, event) {
            (FlashPhase::Ready, ProgressEvent::Initialized) => Some(FlashPhase::Prepared),
            (FlashPhase::Prepared, ProgressEvent::StartedFilling) => Some(FlashPhase::Filling),
            (FlashPhase::Filling, ProgressEvent::PageFilled { .. }) => Some(FlashPhase::Filling),
            (FlashPhase::Filling, ProgressEvent::FinishedFilling) => Some(FlashPhase::Filled),
            (FlashPhase::Filling, ProgressEvent::FailedFilling) => Some(
                FlashPhase::Failed(Stage::Fill),
            ),
            (FlashPhase::Filled, ProgressEvent::StartedErasing) => Some(FlashPhase::Erasing),
            (FlashPhase::Erasing, ProgressEvent::SectorErased { .. }) => Some(FlashPhase::Erasing),
            (FlashPhase::Erasing, ProgressEvent::FinishedErasing) => Some(FlashPhase::Erased),
            (FlashPhase::Erasing, ProgressEvent::FailedErasing) => Some(
                FlashPhase::Failed(Stage::Erase),
            ),
            (FlashPhase::Erased, ProgressEvent::StartedProgramming) => Some(
                FlashPhase::Programming,
            ),
            (FlashPhase::Programming, ProgressEvent::PageProgrammed { .. }) => Some(
                FlashPhase::Programming,
            ),
            (FlashPhase::Programming, ProgressEvent::FinishedProgramming) => Some(FlashPhase::Done),
            (FlashPhase::Programming, ProgressEvent::FailedProgramming) => Some(
                FlashPhase::Failed(Stage::Program),
            ),
            _ => None,
        };
        match next {
            Some(p) => {
                self.phase = p;
                true
            },
            None => false,
        }
    }
}

/// Runs the protocol over a whole event sequence from a given phase:
/// `Some` of the final phase where every event is in order, `None` where
/// any event is rejected.
pub open spec fn run_trace(p: FlashPhase, events: Seq<ProgressEvent>) -> Option<FlashPhase>
    decreases events.len(),
{
    if events.len() == 0 {
        Some(p)
    } else {
        match spec_step(p, events.first()) {
            Some(q) => run_trace(q, events.drop_first()),
            None => None,
        }
    }
}

/// Whether the fill stage has started by the time the protocol stands in
/// this phase.
pub open spec fn fill_started(p: FlashPhase) -> bool {
    !(p is Ready || p is Prepared)
}

/// Whether the erase stage has started by this phase.
pub open spec fn erase_started(p: FlashPhase) -> bool {
    p is Erasing || p is Erased || p is Programming || p is Done || p == FlashPhase::Failed(
        Stage::Erase,
    ) || p == FlashPhase::Failed(Stage::Program)
}

/// Whether the programming stage has started by this phase.
pub open spec fn program_started(p: FlashPhase) -> bool {
    p is Programming || p is Done || p == FlashPhase::Failed(Stage::Program)
}

/// Whether an event reports a stage failure.
pub open spec fn is_failure(e: ProgressEvent) -> bool {
    e is FailedFilling || e is FailedErasing || e is FailedProgramming
}

/// Stage ordering, erase after fill: in any trace the protocol accepts, an
/// erase stage can only start after the fill stage started — from a phase
/// past the fill start, or with a fill start strictly earlier in the trace.
pub proof fn lemma_erase_after_fill(p: FlashPhase, events: Seq<ProgressEvent>)
    requires
        run_trace(p, events) is Some,
    ensures
        forall|j: int|
            0 <= j < events.len() && events[j] == ProgressEvent::StartedErasing ==> fill_started(p)
                || exists|i: int| 0 <= i < j && events[i] == ProgressEvent::StartedFilling,
    decreases events.len(),
{
    if events.len() > 0 {
        let q = spec_step(p, events.first()).unwrap();
        lemma_erase_after_fill(q, events.drop_first());
        assert forall|j: int|
            0 <= j < events.len() && events[j] == ProgressEvent::StartedErasing implies fill_started(
            p,
        ) || exists|i: int| 0 <= i < j && events[i] == ProgressEvent::StartedFilling by {
            if j == 0 {
                assert(p is Filled);
            } else {
                let rest = events.drop_first();
                assert(rest[j - 1] == events[j]);
                if fill_started(q) {
                    if !fill_started(p) {
                        assert(events[0] == ProgressEvent::StartedFilling);
                    }
                } else {
                    let i0 = choose|i: int|
                        0 <= i < j - 1 && rest[i] == ProgressEvent::StartedFilling;
                    assert(events[i0 + 1] == ProgressEvent::StartedFilling);
                }
            }
        }
    }
}

/// Stage ordering, program after erase: in any trace the protocol accepts, a
/// programming stage can only start after the erase stage started.
pub proof fn lemma_program_after_erase(p: FlashPhase, events: Seq<ProgressEvent>)
    requires
        run_trace(p, events) is Some,
    ensures
        forall|j: int|
            0 <= j < events.len() && events[j] == ProgressEvent::StartedProgramming
                ==> erase_started(p) || exists|i: int|
                0 <= i < j && events[i] == ProgressEvent::StartedErasing,
    decreases events.len(),
{
    if events.len() > 0 {
        let q = spec_step(p, events.first()).unwrap();
        lemma_program_after_erase(q, events.drop_first());
        assert forall|j: int|
            0 <= j < events.len() && events[j] == ProgressEvent::StartedProgramming implies erase_started(
            p,
        ) || exists|i: int| 0 <= i < j && events[i] == ProgressEvent::StartedErasing by {
            if j == 0 {
                assert(p is Erased);
            } else {
                let rest = events.drop_first();
                assert(rest[j - 1] == events[j]);
                if erase_started(q) {
                    if !erase_started(p) {
                        assert(events[0] == ProgressEvent::StartedErasing);
                    }
                } else {
                    let i0 = choose|i: int|
                        0 <= i < j - 1 && rest[i] == ProgressEvent::StartedErasing;
                    assert(events[i0 + 1] == ProgressEvent::StartedErasing);
                }
            }
        }
    }
}

/// A failed phase accepts nothing further: only the empty trace runs from it.
pub proof fn lemma_failed_accepts_nothing(s: Stage, events: Seq<ProgressEvent>)
    requires
        run_trace(FlashPhase::Failed(s), events) is Some,
    ensures
        events.len() == 0,
{
}

/// Failure aborts the remainder: in any trace the protocol accepts, a
/// failure event is the trace's last event — no stage start (nor anything
/// else) follows it.
pub proof fn lemma_failure_is_terminal(p: FlashPhase, events: Seq<ProgressEvent>)
    requires
        run_trace(p, events) is Some,
    ensures
        forall|i: int| 0 <= i < events.len() && is_failure(events[i]) ==> i == events.len() - 1,
    decreases events.len(),
{
    if events.len() > 0 {
        let q = spec_step(p, events.first()).unwrap();
        lemma_failure_is_terminal(q, events.drop_first());
        assert forall|i: int|
            0 <= i < events.len() && is_failure(events[i]) implies i == events.len() - 1 by {
            if i == 0 {
                assert(q is Failed);
                lemma_failed_accepts_nothing(q->Failed_0, events.drop_first());
            } else {
                let rest = events.drop_first();
                assert(rest[i - 1] == events[i]);
            }
        }
    }
}

/// What the reporter prints for one event: one line per state transition,
/// nothing for the per-unit events.
pub open spec fn spec_render(e: ProgressEvent) -> Option<Seq<char>> {
    match e {
        ProgressEvent::Initialized => Some("---Program Begin---"@),
        ProgressEvent::StartedFilling => Some("Fill start"@),
        ProgressEvent::PageFilled { .. } => None,
        ProgressEvent::FailedFilling => Some("Fill fail"@),
        ProgressEvent::FinishedFilling => Some("Fill complete"@),
        ProgressEvent::StartedErasing => Some("Erase start"@),
        ProgressEvent::SectorErased { .. } => None,
        ProgressEvent::FailedErasing => Some("Erase fail"@),
        ProgressEvent::FinishedErasing => Some("Erase complete"@),
        ProgressEvent::StartedProgramming => Some("Program start"@),
        ProgressEvent::PageProgrammed { .. } => None,
        ProgressEvent::FailedProgramming => Some("Program fail"@),
        ProgressEvent::FinishedProgramming => Some("Program complete"@),
    }
}

/// The view of a rendered line, for relating the reporter's output to its
/// specification.
pub open spec fn rendered_view(r: Option<String>) -> Option<Seq<char>> {
    match r {
        Some(s) => Some(s@),
        None => None,
    }
}

/// The stateless progress reporter: renders one event as the line to print,
/// or nothing for a per-unit event. Pure presentation; it computes a value
/// and can abort nothing.
pub fn render_event(event: &ProgressEvent) -> (r: Option<String>)
    ensures
        rendered_view(r) == spec_render(*event),
{
    match event {
        ProgressEvent::Initialized => Some("---Program Begin---".to_owned()),
        ProgressEvent::StartedFilling => Some("Fill start".to_owned()),
        ProgressEvent::PageFilled { .. } => None,
        ProgressEvent::FailedFilling => Some("Fill fail".to_owned()),
        ProgressEvent::FinishedFilling => Some("Fill complete".to_owned()),
        ProgressEvent::StartedErasing => Some("Erase start".to_owned()),
        ProgressEvent::SectorErased { .. } => None,
        ProgressEvent::FailedErasing => Some("Erase fail".to_owned()),
        ProgressEvent::FinishedErasing => Some("Erase complete".to_owned()),
        ProgressEvent::StartedProgramming => Some("Program start".to_owned()),
        ProgressEvent::PageProgrammed { .. } => None,
        ProgressEvent::FailedProgramming => Some("Program fail".to_owned()),
        ProgressEvent::FinishedProgramming => Some("Program complete".to_owned()),
    }
}

} // verus!
