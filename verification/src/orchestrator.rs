//! The course of one request: resolve, run, classify.

use crate::bridge::{ModuleResult, Reported, ResultSlot};
use crate::engine::{collect_slot, install_slot, run_entry_point};
use crate::fault::Fault;
use crate::service_directory::ModuleRegistry;
use crate::variant::{artifact_name_of, has_marker, ProtectionVariant};
use crate::wasm_module::{construction_fault, create_wasm_instance};
use std::sync::Arc;
use vstd::prelude::*;

verus! {

/// The type of value that an endpoint expects of its module.
#[derive(Clone, Copy, Debug, PartialEq, Eq, Structural)]
pub enum ResultKind {
    Bytes,
    Text,
}

/// How a run of a module's entry point ended.
#[derive(Clone, Copy, Debug, PartialEq, Eq, Structural)]
pub enum RunOutcome {
    /// The entry point returned.
    Returned,
    /// The module suspended itself.
    Yielded,
    /// The engine ended the run with an error: a trap, a limit that was
    /// exceeded, a termination.
    Trapped,
}

/// Where a request stands.
#[derive(Clone, Copy, Debug, PartialEq, Eq, Structural)]
pub enum Phase {
    /// Nothing has been done yet.
    Idle,
    /// An execution context is bound to the request's module.
    Resolved,
    /// The run has been issued.
    Running,
    /// The run returned; its result was read and classified.
    Completed,
    /// The request ended without a result of the sandbox.
    Faulted,
}

/// What moves a request on.
#[derive(Clone, Copy, Debug, PartialEq, Eq, Structural)]
pub enum Event {
    /// An execution context was built.
    ModuleResolved,
    /// No execution context could be built.
    ResolutionFailed,
    /// The slot was cleared and the run issued.
    RunIssued,
    /// The run ended.
    RunEnded(RunOutcome),
}

/// The phase that follows `phase` on `event`; `None` where the event cannot
/// occur in that phase.
pub open spec fn next_phase(phase: Phase, event: Event) -> Option<Phase> {
    match (phase, event) {
        (Phase::Idle, Event::ModuleResolved) => Some(Phase::Resolved),
        (Phase::Idle, Event::ResolutionFailed) => Some(Phase::Faulted),
        (Phase::Resolved, Event::RunIssued) => Some(Phase::Running),
        (Phase::Running, Event::RunEnded(RunOutcome::Returned)) => Some(Phase::Completed),
        (Phase::Running, Event::RunEnded(_)) => Some(Phase::Faulted),
        _ => None,
    }
}

/// Nothing follows this phase.
pub open spec fn is_terminal(phase: Phase) -> bool {
    phase == Phase::Completed || phase == Phase::Faulted
}

/// The type of a reported value; an absent one has none.
pub open spec fn kind_of(reported: Reported) -> Option<ResultKind> {
    match reported {
        Reported::Absent => None,
        Reported::Bytes(_) => Some(ResultKind::Bytes),
        Reported::Text(_) => Some(ResultKind::Text),
    }
}

/// What a request comes to, given how its run ended and what the slot held
/// then.
pub open spec fn classified(expects: ResultKind, outcome: RunOutcome, reported: Reported) -> Result<
    Reported,
    Fault,
> {
    match outcome {
        RunOutcome::Trapped => Err(Fault::RunTrapped),
        RunOutcome::Yielded => Err(Fault::RunYielded),
        RunOutcome::Returned => match kind_of(reported) {
            None => Err(Fault::ResultAbsent),
            Some(kind) => if kind == expects {
                Ok(reported)
            } else {
                Err(Fault::ResultTypeMismatch)
            },
        },
    }
}

/// The mathematical value of a request's result.
pub open spec fn result_view(result: Result<ModuleResult, Fault>) -> Result<Reported, Fault> {
    match result {
        Ok(value) => Ok(value@),
        Err(fault) => Err(fault),
    }
}

/// Moves a request on by one event.
pub fn advance(phase: Phase, event: Event) -> (next: Option<Phase>)
    ensures
        next == next_phase(phase, event),
{
    match phase {
        Phase::Idle => match event {
            Event::ModuleResolved => Some(Phase::Resolved),
            Event::ResolutionFailed => Some(Phase::Faulted),
            _ => None,
        },
        Phase::Resolved => match event {
            Event::RunIssued => Some(Phase::Running),
            _ => None,
        },
        Phase::Running => match event {
            Event::RunEnded(RunOutcome::Returned) => Some(Phase::Completed),
            Event::RunEnded(_) => Some(Phase::Faulted),
            _ => None,
        },
        _ => None,
    }
}

/// Reads the slot once, after the run has ended, and says what the request
/// comes to. The slot is empty afterwards, whatever the answer.
pub fn conclude(expects: ResultKind, outcome: RunOutcome, slot: &mut ResultSlot) -> (result: Result<
    ModuleResult,
    Fault,
>)
    ensures
        result_view(result) == classified(expects, outcome, old(slot)@),
        final(slot)@ == Reported::Absent,
{
    let reported = slot.take();
    match outcome {
        RunOutcome::Trapped => Err(Fault::RunTrapped),
        RunOutcome::Yielded => Err(Fault::RunYielded),
        RunOutcome::Returned => match reported {
            ModuleResult::Empty => Err(Fault::ResultAbsent),
            ModuleResult::ByteArray(bytes) => match expects {
                ResultKind::Bytes => Ok(ModuleResult::ByteArray(bytes)),
                ResultKind::Text => Err(Fault::ResultTypeMismatch),
            },
            ModuleResult::String(text) => match expects {
                ResultKind::Text => Ok(ModuleResult::String(text)),
                ResultKind::Bytes => Err(Fault::ResultTypeMismatch),
            },
        },
    }
}

/// Moves a request on by an event that can occur in its phase.
fn step(phase: Phase, event: Event) -> (next: Phase)
    requires
        next_phase(phase, event) is Some,
    ensures
        next_phase(phase, event) == Some(next),
{
    match advance(phase, event) {
        Some(next) => next,
        None => phase,
    }
}

/// What can become of a request, given whether its module is cached and
/// whether a randomized layout is asked for. A result is a value of the
/// expected type that a completed run reported. A run that returned without
/// such a value completes with a fault. A run that did not return, and a
/// request for which no execution context could be built, end as faulted.
pub open spec fn request_outcome(
    cached: bool,
    randomized: bool,
    expects: ResultKind,
    phase: Phase,
    result: Result<Reported, Fault>,
) -> bool {
    match result {
        Ok(reported) => phase == Phase::Completed && (randomized || cached) && kind_of(reported)
            == Some(expects),
        Err(Fault::ResultAbsent) | Err(Fault::ResultTypeMismatch) => phase == Phase::Completed && (
        randomized || cached),
        Err(Fault::RunTrapped) | Err(Fault::RunYielded) => phase == Phase::Faulted && (randomized
            || cached),
        Err(fault) => phase == Phase::Faulted && construction_fault(cached, randomized, fault),
    }
}

/// Serves one request: builds a fresh execution context for the endpoint's
/// module in the given variant, clears the result slot, runs the module once
/// and classifies what came of it. The phase that comes back is the one in
/// which the request ended.
pub fn serve(
    registry: &ModuleRegistry<Arc<lucet_runtime::DlModule>>,
    dir: &str,
    endpoint: &str,
    expects: ResultKind,
    protection: &str,
    arguments: Vec<String>,
    enable_file_access: bool,
) -> (served: (Phase, Result<ModuleResult, Fault>))
    ensures
        is_terminal(served.0),
        request_outcome(
            registry@.contains_key(artifact_name_of(endpoint@, protection@)),
            has_marker(protection@),
            expects,
            served.0,
            result_view(served.1),
        ),
{
    let variant = ProtectionVariant::parse(protection);
    let randomized = variant.is_randomized();
    let phase = Phase::Idle;
    let built = create_wasm_instance(
        registry,
        endpoint.to_owned(),
        protection.to_owned(),
        arguments,
        randomized,
        dir,
        enable_file_access,
    );
    match built {
        Err(fault) => (step(phase, Event::ResolutionFailed), Err(fault)),
        Ok(mut instance) => {
            let phase = step(phase, Event::ModuleResolved);
            let mut slot = ResultSlot::new();
            slot.clear();
            install_slot(&mut instance, slot);
            let phase = step(phase, Event::RunIssued);
            let outcome = run_entry_point(&mut instance);
            let mut slot = match collect_slot(&mut instance) {
                Some(slot) => slot,
                None => ResultSlot::new(),
            };
            let phase = step(phase, Event::RunEnded(outcome));
            (phase, conclude(expects, outcome, &mut slot))
        },
    }
}

/// A request never leaves a terminal phase, and every other phase has an
/// event that moves it on.
pub proof fn lemma_terminal_phases(phase: Phase)
    ensures
        is_terminal(phase) <==> forall|event: Event| next_phase(phase, event) is None,
{
    if is_terminal(phase) {
        assert forall|event: Event| next_phase(phase, event) is None by {}
    } else {
        match phase {
            Phase::Idle => {
                assert(next_phase(phase, Event::ModuleResolved) is Some);
            },
            Phase::Resolved => {
                assert(next_phase(phase, Event::RunIssued) is Some);
            },
            _ => {
                assert(next_phase(phase, Event::RunEnded(RunOutcome::Returned)) is Some);
            },
        }
    }
}

} // verus!
