//! Shutdown of the runtime, and the loop that it ends.
use crate::error::{Error, Result};
use crate::event::{target_of, AppServerEvent};
use crate::runtime::events::{lag_broadcast, EventRouter};
use crate::runtime::route_model::RouterModel;
use crate::text::optional_text;
use vstd::prelude::*;

verus! {

/// How far a shutdown has come.
pub struct RuntimeShutdown {
    signal: bool,
    task: bool,
    failure: Option<String>,
}

/// What a [`RuntimeShutdown`] stands for.
pub struct ShutdownModel {
    /// The event loop has not been told to stop yet.
    pub signal: bool,
    /// The end of the event loop has not been seen yet.
    pub task: bool,
    /// What the end of the event loop said, where it was an error.
    pub failure: Option<Seq<char>>,
}

/// What a caller of shutdown has to do.
pub enum ShutdownStep {
    /// Tell the event loop to stop where `signal` is set, wait for its end,
    /// and report that. A caller that stops waiting changes nothing.
    Wait { signal: bool },
    /// Nothing: the runtime has been shut down before.
    Done(Result<()>),
}

impl View for RuntimeShutdown {
    type V = ShutdownModel;

    closed spec fn view(&self) -> ShutdownModel {
        ShutdownModel { signal: self.signal, task: self.task, failure: optional_text(self.failure) }
    }
}

/// What becomes of the end of the event loop: `joined` is an error where its
/// task failed to run to the end.
pub open spec fn task_result(joined: std::result::Result<Result<()>, String>) -> Result<()> {
    match joined {
        Ok(result) => result,
        Err(source) => Err(Error::RuntimeTask(source)),
    }
}

impl ShutdownModel {
    /// A runtime that runs.
    pub open spec fn running() -> Self {
        ShutdownModel { signal: true, task: true, failure: None }
    }

    /// The state after a caller has asked for shutdown.
    pub open spec fn begun(self) -> Self {
        ShutdownModel { signal: false, ..self }
    }

    /// The state after the end of the event loop.
    pub open spec fn completed(self, result: Result<()>) -> Self {
        ShutdownModel {
            task: false,
            failure: match result {
                Ok(()) => self.failure,
                Err(error) => Some(error.text()),
            },
            ..self
        }
    }

    /// What a caller has to do.
    pub open spec fn is_step(self, step: ShutdownStep) -> bool {
        if self.task {
            step == (ShutdownStep::Wait { signal: self.signal })
        } else {
            match self.failure {
                Some(text) => step matches ShutdownStep::Done(Err(Error::RuntimeShutdownFailed { message })) && message@
                    == text,
                None => step == ShutdownStep::Done(Ok(())),
            }
        }
    }
}

impl RuntimeShutdown {
    /// A runtime that runs.
    pub fn new() -> (shutdown: Self)
        ensures
            shutdown@ == ShutdownModel::running(),
    {
        RuntimeShutdown { signal: true, task: true, failure: None }
    }

    /// A caller asks for shutdown.
    pub fn begin(&mut self) -> (step: ShutdownStep)
        ensures
            final(self)@ == old(self)@.begun(),
            old(self)@.is_step(step),
    {
        let signal = self.signal;
        self.signal = false;
        if self.task {
            return ShutdownStep::Wait { signal };
        }
        match &self.failure {
            Some(message) => ShutdownStep::Done(Err(Error::RuntimeShutdownFailed { message: message.clone() })),
            None => ShutdownStep::Done(Ok(())),
        }
    }

    /// A caller has seen the end of the event loop.
    pub fn complete(&mut self, joined: std::result::Result<Result<()>, String>) -> (result: Result<()>)
        ensures
            result == task_result(joined),
            final(self)@ == old(self)@.completed(result),
    {
        self.task = false;
        let result = match joined {
            Ok(result) => result,
            Err(source) => Err(Error::RuntimeTask(source)),
        };
        if let Err(error) = &result {
            self.failure = Some(error.message());
        }
        result
    }
}

/// A caller that stops waiting leaves the wait to the next one, who need not
/// tell the event loop again.
pub proof fn law_shutdown_can_be_resumed(state: ShutdownModel, step: ShutdownStep)
    requires
        state.task,
        state.begun().is_step(step),
    ensures
        step == (ShutdownStep::Wait { signal: false }),
        state.begun().begun() == state.begun(),
{
}

/// After a shutdown that succeeded, every later one succeeds at once.
pub proof fn law_shutdown_is_idempotent(state: ShutdownModel, step: ShutdownStep)
    requires
        state.failure is None,
        state.begun().completed(Ok(())).is_step(step),
    ensures
        step == ShutdownStep::Done(Ok(())),
        state.begun().completed(Ok(())).begun() == state.begun().completed(Ok(())),
{
}

/// After a shutdown that failed, every later one reports that failure.
pub proof fn law_shutdown_failure_stays_visible(state: ShutdownModel, error: Error, step: ShutdownStep)
    requires
        state.begun().completed(Err(error)).is_step(step),
    ensures
        step matches ShutdownStep::Done(Err(Error::RuntimeShutdownFailed { message })) && message@ == error.text(),
        state.begun().completed(Err(error)).begun() == state.begun().completed(Err(error)),
{
}

/// What wakes the event loop.
pub enum LoopInput {
    /// Somebody asks for shutdown.
    Shutdown,
    /// The app-server sends no more events.
    Ended,
    /// The app-server has sent an event.
    Event(AppServerEvent),
}

/// The router after every route was ended with the text `text`.
pub open spec fn closed_with(before: RouterModel, after: RouterModel, text: Seq<char>) -> bool {
    exists|message: String|
        message@ == text && after == #[trigger] before.close(AppServerEvent::Disconnected { message })
}

/// One round of the event loop. The result says whether the loop goes on. A
/// shutdown gives up what the router waits with.
pub fn event_loop_step(events: &mut EventRouter, input: LoopInput) -> (goes_on: bool)
    requires
        old(events).wf(),
        input is Event ==> old(events)@.blocked is None,
    ensures
        final(events).wf(),
        match input {
            LoopInput::Shutdown => !goes_on && closed_with(
                old(events)@.abandon(),
                final(events)@,
                "Codex app-server runtime shut down"@,
            ),
            LoopInput::Ended => !goes_on && closed_with(
                old(events)@,
                final(events)@,
                "Codex app-server event stream closed"@,
            ),
            LoopInput::Event(event) => goes_on == !(event is Disconnected) && (match event {
                AppServerEvent::Disconnected { .. } => final(events)@ == old(events)@.close(event),
                AppServerEvent::Lagged { skipped } => lag_broadcast(old(events)@, final(events)@, skipped),
                _ => final(events)@ == old(events)@.route_to(target_of(event), event),
            }),
        },
{
    match input {
        LoopInput::Shutdown => {
            events.abandon();
            let ghost abandoned = events@;
            let message = "Codex app-server runtime shut down".to_owned();
            events.close(message);
            assert(events@ == abandoned.close(AppServerEvent::Disconnected { message }));
            false
        },
        LoopInput::Ended => {
            let ghost before = events@;
            let message = "Codex app-server event stream closed".to_owned();
            events.close(message);
            assert(events@ == before.close(AppServerEvent::Disconnected { message }));
            false
        },
        LoopInput::Event(event) => {
            let disconnected = match &event {
                AppServerEvent::Disconnected { .. } => true,
                _ => false,
            };
            events.route(event);
            !disconnected
        },
    }
}

} // verus!
