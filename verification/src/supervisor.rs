//! The supervised run of one invocation, as a state machine.
//!
//! The machine decides; its caller acts. The caller asks for the next action,
//! performs it (start the process, attach to its output, read one event) and
//! reports what happened as a signal. The run passes from built to spawned to
//! streaming to terminated, and a failure to start or to read ends it at once.

use vstd::prelude::*;
use crate::error::OperationError;
use crate::outcome::{diagnostics, record_event, EventRecord};
use crate::text::{copy_list, texts};

verus! {

/// Where a run stands.
#[derive(Clone, Copy, PartialEq, Eq, Structural, Debug)]
pub enum Phase {
    Built,
    Spawned,
    Streaming,
    Terminated,
}

/// What ended a run early, if anything did.
#[derive(Clone, Copy, PartialEq, Eq, Structural, Debug)]
pub enum Fault {
    Nothing,
    Spawn,
    Stream,
}

/// What the caller is to do next.
#[derive(Clone, Copy, PartialEq, Eq, Structural, Debug)]
pub enum Action {
    Spawn,
    AttachEventStream,
    AwaitEvent,
    Report,
}

/// What the caller reports back.
#[derive(Debug, PartialEq, Eq)]
pub enum Signal {
    SpawnSucceeded,
    SpawnFailed(String),
    StreamAttached,
    StreamFailed(String),
    Event(EventRecord),
    StreamExhausted,
}

/// The state of a run as a plain value.
pub struct SupervisorView {
    pub phase: Phase,
    pub fault: Fault,
    pub reason: Seq<char>,
    pub diagnostics: Seq<Seq<char>>,
}

/// The state of a run.
#[derive(Debug, PartialEq, Eq)]
pub struct Supervisor {
    phase: Phase,
    fault: Fault,
    reason: String,
    collected: Vec<String>,
}

/// A run that has been built and not yet started.
pub open spec fn initial() -> SupervisorView {
    SupervisorView {
        phase: Phase::Built,
        fault: Fault::Nothing,
        reason: Seq::empty(),
        diagnostics: Seq::empty(),
    }
}

/// A run that ended early for the given reason.
pub open spec fn failed(state: SupervisorView, fault: Fault, reason: Seq<char>) -> SupervisorView {
    SupervisorView { phase: Phase::Terminated, fault, reason, ..state }
}

/// The state after one signal. A signal that the phase does not expect leaves
/// the state as it is; a terminated run stays terminated.
pub open spec fn next(state: SupervisorView, signal: Signal) -> SupervisorView {
    match (state.phase, signal) {
        (Phase::Built, Signal::SpawnSucceeded) => SupervisorView { phase: Phase::Spawned, ..state },
        (Phase::Built, Signal::SpawnFailed(reason)) => failed(state, Fault::Spawn, reason@),
        (Phase::Spawned, Signal::StreamAttached) => SupervisorView {
            phase: Phase::Streaming,
            ..state
        },
        (Phase::Spawned, Signal::StreamFailed(reason)) => failed(state, Fault::Stream, reason@),
        (Phase::Streaming, Signal::Event(event)) => if event.is_diagnostic() {
            SupervisorView { diagnostics: state.diagnostics.push(event.text_view()), ..state }
        } else {
            state
        },
        (Phase::Streaming, Signal::StreamFailed(reason)) => failed(state, Fault::Stream, reason@),
        (Phase::Streaming, Signal::StreamExhausted) => SupervisorView {
            phase: Phase::Terminated,
            ..state
        },
        _ => state,
    }
}

/// The state after a sequence of signals, taken in order.
pub open spec fn run(state: SupervisorView, signals: Seq<Signal>) -> SupervisorView
    decreases signals.len(),
{
    if signals.len() == 0 {
        state
    } else {
        next(run(state, signals.drop_last()), signals.last())
    }
}

/// The action that a phase calls for.
pub open spec fn action_for(phase: Phase) -> Action {
    match phase {
        Phase::Built => Action::Spawn,
        Phase::Spawned => Action::AttachEventStream,
        Phase::Streaming => Action::AwaitEvent,
        Phase::Terminated => Action::Report,
    }
}

/// The signals of a run that starts, attaches, reports `events` and ends.
pub open spec fn complete_run(events: Seq<EventRecord>) -> Seq<Signal> {
    seq![Signal::SpawnSucceeded, Signal::StreamAttached] + events.map_values(
        |e: EventRecord| Signal::Event(e),
    ) + seq![Signal::StreamExhausted]
}

impl SupervisorView {
    /// What every state of a run satisfies: only a terminated run has a
    /// fault, only a fault has a reason, and diagnostics are only gathered
    /// once the run is streaming.
    pub open spec fn well_formed(&self) -> bool {
        &&& (self.fault != Fault::Nothing ==> self.phase == Phase::Terminated)
        &&& (self.fault == Fault::Nothing ==> self.reason.len() == 0)
        &&& (self.phase == Phase::Built || self.phase == Phase::Spawned ==> self.diagnostics.len()
            == 0)
        &&& (self.fault == Fault::Spawn ==> self.diagnostics.len() == 0)
    }
}

impl View for Supervisor {
    type V = SupervisorView;

    closed spec fn view(&self) -> SupervisorView {
        SupervisorView {
            phase: self.phase,
            fault: self.fault,
            reason: self.reason@,
            diagnostics: texts(self.collected@),
        }
    }
}

impl Supervisor {
    /// A run in its first phase.
    pub fn new() -> (supervisor: Supervisor)
        ensures
            supervisor@ == initial(),
            supervisor@.well_formed(),
    {
        let supervisor = Supervisor {
            phase: Phase::Built,
            fault: Fault::Nothing,
            reason: String::new(),
            collected: Vec::new(),
        };
        proof {
            assert(texts(supervisor.collected@) =~= Seq::<Seq<char>>::empty());
        }
        supervisor
    }

    pub fn phase(&self) -> (phase: Phase)
        ensures
            phase == self@.phase,
    {
        self.phase
    }

    /// What the caller is to do next.
    pub fn next_action(&self) -> (action: Action)
        ensures
            action == action_for(self@.phase),
    {
        match self.phase {
            Phase::Built => Action::Spawn,
            Phase::Spawned => Action::AttachEventStream,
            Phase::Streaming => Action::AwaitEvent,
            Phase::Terminated => Action::Report,
        }
    }

    fn fail(&mut self, fault: Fault, reason: &String)
        ensures
            final(self)@ == failed(old(self)@, fault, reason@),
    {
        self.phase = Phase::Terminated;
        self.fault = fault;
        self.reason = reason.clone();
    }

    /// Takes one signal.
    pub fn step(&mut self, signal: &Signal)
        ensures
            final(self)@ == next(old(self)@, *signal),
            old(self)@.well_formed() ==> final(self)@.well_formed(),
    {
        match self.phase {
            Phase::Built => match signal {
                Signal::SpawnSucceeded => {
                    self.phase = Phase::Spawned;
                },
                Signal::SpawnFailed(reason) => {
                    self.fail(Fault::Spawn, reason);
                },
                _ => {},
            },
            Phase::Spawned => match signal {
                Signal::StreamAttached => {
                    self.phase = Phase::Streaming;
                },
                Signal::StreamFailed(reason) => {
                    self.fail(Fault::Stream, reason);
                },
                _ => {},
            },
            Phase::Streaming => match signal {
                Signal::Event(event) => {
                    record_event(&mut self.collected, event);
                },
                Signal::StreamFailed(reason) => {
                    self.fail(Fault::Stream, reason);
                },
                Signal::StreamExhausted => {
                    self.phase = Phase::Terminated;
                },
                _ => {},
            },
            Phase::Terminated => {},
        }
    }

    /// Takes a list of signals, in order.
    pub fn step_all(&mut self, signals: &Vec<Signal>)
        ensures
            final(self)@ == run(old(self)@, signals@),
            old(self)@.well_formed() ==> final(self)@.well_formed(),
    {
        let mut i: usize = 0;
        proof {
            assert(signals@.take(0) =~= Seq::<Signal>::empty());
        }
        while i < signals.len()
            invariant
                i <= signals.len(),
                self@ == run(old(self)@, signals@.take(i as int)),
                old(self)@.well_formed() ==> self@.well_formed(),
            decreases signals.len() - i,
        {
            self.step(&signals[i]);
            proof {
                let taken = signals@.take(i as int + 1);
                assert(taken.drop_last() =~= signals@.take(i as int));
                assert(taken.last() == signals@[i as int]);
            }
            i += 1;
        }
        proof {
            assert(signals@.take(i as int) =~= signals@);
        }
    }

    /// What the run came to: nothing before it has terminated; then the error
    /// that ended it early, or else success exactly when no diagnostics were
    /// gathered, and the diagnostics error with all of them otherwise.
    pub fn outcome(&self) -> (outcome: Option<Result<(), OperationError>>)
        ensures
            outcome is None <==> self@.phase != Phase::Terminated,
            outcome matches Some(Ok(_)) <==> self@.phase == Phase::Terminated && self@.fault
                == Fault::Nothing && self@.diagnostics.len() == 0,
            outcome matches Some(Err(e)) ==> match self@.fault {
                Fault::Spawn => e matches OperationError::SpawnError(reason) && reason@
                    == self@.reason,
                Fault::Stream => e matches OperationError::StreamError(reason) && reason@
                    == self@.reason,
                Fault::Nothing => e matches OperationError::ToolDiagnostics(lines) && texts(lines@)
                    == self@.diagnostics,
            },
    {
        match self.phase {
            Phase::Terminated => match self.fault {
                Fault::Spawn => Some(Err(OperationError::SpawnError(self.reason.clone()))),
                Fault::Stream => Some(Err(OperationError::StreamError(self.reason.clone()))),
                Fault::Nothing => {
                    if self.collected.len() == 0 {
                        Some(Ok(()))
                    } else {
                        Some(Err(OperationError::ToolDiagnostics(copy_list(&self.collected))))
                    }
                },
            },
            _ => None,
        }
    }
}

/// Every signal keeps a well-formed state well-formed.
pub proof fn lemma_next_keeps_well_formed(state: SupervisorView, signal: Signal)
    requires
        state.well_formed(),
    ensures
        next(state, signal).well_formed(),
{
}

/// Every state that a run reaches from its start is well-formed.
pub proof fn lemma_run_is_well_formed(signals: Seq<Signal>)
    ensures
        run(initial(), signals).well_formed(),
    decreases signals.len(),
{
    if signals.len() > 0 {
        lemma_run_is_well_formed(signals.drop_last());
        lemma_next_keeps_well_formed(run(initial(), signals.drop_last()), signals.last());
    }
}

/// A terminated run takes no further signal.
pub proof fn lemma_terminated_is_final(state: SupervisorView, signals: Seq<Signal>)
    requires
        state.phase == Phase::Terminated,
    ensures
        run(state, signals) == state,
    decreases signals.len(),
{
    if signals.len() > 0 {
        lemma_terminated_is_final(state, signals.drop_last());
    }
}

/// While a run streams, it has gathered the diagnostics of the events so far.
pub proof fn lemma_streaming_gathers(events: Seq<EventRecord>)
    ensures
        run(
            initial(),
            seq![Signal::SpawnSucceeded, Signal::StreamAttached] + events.map_values(
                |e: EventRecord| Signal::Event(e),
            ),
        ) == (SupervisorView {
            phase: Phase::Streaming,
            diagnostics: diagnostics(events),
            ..initial()
        }),
    decreases events.len(),
{
    let head = seq![Signal::SpawnSucceeded, Signal::StreamAttached];
    let wrap = |e: EventRecord| Signal::Event(e);
    let signals = head + events.map_values(wrap);
    if events.len() == 0 {
        assert(signals =~= head);
        assert(head.drop_last() =~= seq![Signal::SpawnSucceeded]);
        assert(seq![Signal::SpawnSucceeded].drop_last() =~= Seq::<Signal>::empty());
        reveal_with_fuel(run, 3);
        assert(run(initial(), signals).diagnostics =~= diagnostics(events));
    } else {
        lemma_streaming_gathers(events.drop_last());
        assert(signals.drop_last() =~= head + events.drop_last().map_values(wrap));
        assert(signals.last() == Signal::Event(events.last()));
    }
}

/// A run that starts, attaches, reports `events` and ends terminates without
/// a fault, holding exactly the diagnostics of `events`: the same verdict as
/// folding the events directly.
pub proof fn lemma_complete_run(events: Seq<EventRecord>)
    ensures
        run(initial(), complete_run(events)) == (SupervisorView {
            phase: Phase::Terminated,
            diagnostics: diagnostics(events),
            ..initial()
        }),
{
    let streaming = seq![Signal::SpawnSucceeded, Signal::StreamAttached] + events.map_values(
        |e: EventRecord| Signal::Event(e),
    );
    lemma_streaming_gathers(events);
    assert(complete_run(events).drop_last() =~= streaming);
    assert(complete_run(events).last() == Signal::StreamExhausted);
}

} // verus!
