use vstd::prelude::*;

use crate::config::{ProviderError, ProviderFunction, ProviderFunctionResponse};

verus! {

/// A control message for a running worker. The reply channel of a function
/// call stays with the caller that runs the loop.
#[derive(PartialEq, Eq, Structural, Clone, Copy, Debug)]
pub enum ProviderInputMsg {
    Stop,
    FunctionCall(ProviderFunction),
}

/// What wakes a worker: one produced result (a timer tick's sample, or a
/// push notification), or a control message.
pub enum WorkerEvent<T> {
    Output(Result<T, String>),
    Input(ProviderInputMsg),
}

/// What the loop around a worker does next.
pub enum WorkerAction<T> {
    /// Hand this result to the emitter.
    Emit(Result<T, String>),
    /// Answer the pending function call with this result.
    Reply(Result<ProviderFunctionResponse, ProviderError>),
    /// Carry out the function call and answer with its outcome.
    Perform(ProviderFunction),
    /// Leave the run loop and release the worker's resources.
    Exit,
    /// Nothing: the worker has already stopped.
    Idle,
}

/// One step of a worker: whether it still runs afterwards, and what to do.
pub open spec fn worker_step<T>(running: bool, handles_functions: bool, event: WorkerEvent<T>) -> (
    bool,
    WorkerAction<T>,
) {
    if !running {
        (false, WorkerAction::Idle)
    } else {
        match event {
            WorkerEvent::Output(r) => (true, WorkerAction::Emit(r)),
            WorkerEvent::Input(ProviderInputMsg::Stop) => (false, WorkerAction::Exit),
            WorkerEvent::Input(ProviderInputMsg::FunctionCall(f)) => if handles_functions {
                (true, WorkerAction::Perform(f))
            } else {
                (true, WorkerAction::Reply(Err(ProviderError::FunctionUnsupported)))
            },
        }
    }
}

/// The results a worker emits while it handles `events` in order.
pub open spec fn emitted<T>(running: bool, handles_functions: bool, events: Seq<WorkerEvent<T>>) -> Seq<
    Result<T, String>,
>
    decreases events.len(),
{
    if events.len() == 0 {
        Seq::empty()
    } else {
        let (next, action) = worker_step(running, handles_functions, events[0]);
        let rest = emitted(next, handles_functions, events.drop_first());
        match action {
            WorkerAction::Emit(r) => seq![r] + rest,
            _ => rest,
        }
    }
}

/// The events of a worker that only produces results.
pub open spec fn output_events<T>(results: Seq<Result<T, String>>) -> Seq<WorkerEvent<T>> {
    results.map_values(|r: Result<T, String>| WorkerEvent::Output(r))
}

/// The state that every provider's worker carries, whatever its strategy.
pub struct CommonProviderState {
    pub config_hash: String,
    pub running: bool,
}

impl CommonProviderState {
    pub fn new(config_hash: String) -> (r: CommonProviderState)
        ensures
            r.config_hash@ == config_hash@,
            r.running,
    {
        CommonProviderState { config_hash, running: true }
    }

    /// Handles one event. A failed result is emitted like any other and the
    /// worker keeps running; `Stop` ends it, and a stopped worker does
    /// nothing more. A function call is carried out only by a provider
    /// that handles functions; others answer `FunctionUnsupported`.
    pub fn handle<T>(&mut self, handles_functions: bool, event: WorkerEvent<T>) -> (r:
        WorkerAction<T>)
        ensures
            final(self).config_hash == old(self).config_hash,
            (final(self).running, r) == worker_step(old(self).running, handles_functions, event),
    {
        if !self.running {
            return WorkerAction::Idle;
        }
        match event {
            WorkerEvent::Output(r) => WorkerAction::Emit(r),
            WorkerEvent::Input(ProviderInputMsg::Stop) => {
                self.running = false;
                WorkerAction::Exit
            },
            WorkerEvent::Input(ProviderInputMsg::FunctionCall(f)) => {
                if handles_functions {
                    WorkerAction::Perform(f)
                } else {
                    WorkerAction::Reply(Err(ProviderError::FunctionUnsupported))
                }
            },
        }
    }
}

/// A running worker emits every produced result exactly once and in order:
/// a failed sample becomes one error-valued output, and the samples after
/// it are emitted as before.
pub proof fn lemma_failures_are_isolated<T>(handles_functions: bool, results: Seq<Result<T, String>>)
    ensures
        emitted(true, handles_functions, output_events(results)) == results,
    decreases results.len(),
{
    if results.len() > 0 {
        let evs = output_events(results);
        lemma_failures_are_isolated(handles_functions, results.drop_first());
        assert(evs.drop_first() =~= output_events(results.drop_first()));
        assert(seq![results[0]] + results.drop_first() =~= results);
    }
}

/// Once a worker has handled `Stop`, nothing it is handed afterwards is
/// emitted.
pub proof fn lemma_silent_after_stop<T>(
    running: bool,
    handles_functions: bool,
    later: Seq<WorkerEvent<T>>,
)
    ensures
        ({
            let (next, action) = worker_step(
                running,
                handles_functions,
                WorkerEvent::<T>::Input(ProviderInputMsg::Stop),
            );
            !next && emitted(next, handles_functions, later) == Seq::<Result<T, String>>::empty()
        }),
    decreases later.len(),
{
    if later.len() > 0 {
        lemma_silent_after_stop(running, handles_functions, later.drop_first());
    }
}

} // verus!
