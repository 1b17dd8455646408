//! The worker's end of the bridge.
//!
//! The worker thread owns the engine and does all the waiting: it loads the
//! main module, watches the global scope, drives the event loop, receives
//! requests and posts responses. What it does next is decided here. Each time
//! something has happened on the thread, `JsCore::step` is told so and says
//! what to do now; between two steps the engine is touched by nobody else.

use vstd::prelude::*;
use crate::handle::{fresh_handle, JsCoreHandle};
use crate::protocol::{
    boot_failure, boot_id, boot_signal, boot_signal_id, outcome_view, EngineError, Execute,
    JsCoreRequest, JsCoreResponse, Outcome, RequestView, ResponseView,
};

verus! {

/// The name under which the worker's own scripts are evaluated.
pub open spec fn script_name() -> Seq<char> {
    "js_core"@
}

/// The script that sets the engine's public surface up.
pub open spec fn init_script() -> Seq<char> {
    "initCore()"@
}

/// The global binding that the init script defines when it is done.
pub open spec fn core_binding() -> Seq<char> {
    "core"@
}

/// The reason given when the event loop ran dry before the engine was ready.
pub open spec fn loop_ran_dry() -> Seq<char> {
    "event loop ended before the engine was ready"@
}

/// Where the worker stands.
#[derive(Debug, Clone, Copy, PartialEq, Eq, Structural)]
pub enum WorkerPhase {
    /// Nothing has run yet.
    Created,
    /// The main module is being loaded and run.
    Bootstrapping,
    /// The init script is being handed to the engine.
    Priming,
    /// The event loop is driven while the global scope is watched.
    Racing,
    /// The boot signal is out; requests are awaited while the event loop is
    /// driven.
    Serving,
    /// A request's script is with the engine.
    Evaluating,
    /// The worker has stopped for good.
    Halted,
}

/// What a look into the engine's global scope found under a name.
#[derive(Debug, Clone, Copy, PartialEq, Eq, Structural)]
pub enum Binding {
    /// Nothing is bound to the name.
    Absent,
    /// The name is bound, to a value that only holds the place.
    Placeholder,
    /// The name is bound to a value.
    Defined,
}

/// Why the worker stopped.
#[derive(Debug, Clone, Copy, PartialEq, Eq, Structural)]
pub enum Fault {
    /// The main module could not be loaded or run.
    BootstrapFailed,
    /// The engine refused the init script.
    InitFailed,
    /// The global scope could not be looked into.
    ProbeFailed,
    /// The event loop reported an uncaught failure.
    LoopFailed,
    /// The event loop ran dry, though the worker was to go on.
    LoopEnded,
    /// A mailbox end was dropped.
    MailboxClosed,
    /// Something was reported that cannot happen in the worker's phase.
    OutOfTurn,
}

/// What has happened on the worker thread.
#[derive(Debug, PartialEq, Eq)]
pub enum WorkerEvent {
    /// The thread is up and the engine exists.
    Started,
    /// The main module has run, or has failed to.
    Bootstrapped(Result<(), EngineError>),
    /// The init script was handed to the engine, or was refused.
    Primed(Result<(), EngineError>),
    /// The global scope was looked into.
    Probed(Result<Binding, EngineError>),
    /// The event loop has nothing left to do, or has failed.
    LoopSettled(Result<(), EngineError>),
    /// A request came out of the mailbox.
    Received(JsCoreRequest),
    /// The engine is done with the script it was given.
    Evaluated(Result<String, EngineError>),
    /// A mailbox end was dropped.
    MailboxClosed,
}

/// What the worker thread is to do now.
#[derive(Debug, PartialEq, Eq)]
pub enum WorkerAction {
    /// Load and run the main module; report `Bootstrapped`.
    Bootstrap,
    /// Hand `source` to the engine under `name`; report `Primed`.
    Prime { name: String, source: String },
    /// Drive the event loop and, at the scheduler's next wake, look into the
    /// global scope for `binding`; report `Probed` or `LoopSettled`.
    Watch { binding: String },
    /// Drive the event loop and wait for a request; report `Received`,
    /// `LoopSettled` or `MailboxClosed`.
    Serve,
    /// Post the response, then go on as for `Serve`.
    Post(JsCoreResponse),
    /// Have the engine evaluate the message's script; report `Evaluated`.
    Evaluate(Execute),
    /// Stop. Where there is a notice, post it first.
    Halt { fault: Fault, notice: Option<JsCoreResponse> },
}

/// The model of an event.
pub enum EventView {
    Started,
    Bootstrapped(Result<(), Seq<char>>),
    Primed(Result<(), Seq<char>>),
    Probed(Result<Binding, Seq<char>>),
    LoopSettled(Result<(), Seq<char>>),
    Received(RequestView),
    Evaluated(Outcome),
    MailboxClosed,
}

/// The model of an action.
pub enum ActionView {
    Bootstrap,
    Prime { name: Seq<char>, source: Seq<char> },
    Watch { binding: Seq<char> },
    Serve,
    Post(ResponseView),
    Evaluate(Seq<char>),
    Halt { fault: Fault, notice: Option<ResponseView> },
}

/// The model of a worker: its phase and, while a script is with the engine,
/// the id of the request the script came with.
pub struct WorkerView {
    pub phase: WorkerPhase,
    pub current: Option<Seq<char>>,
}

/// The view of what settled: the value, or the description of the failure.
pub open spec fn settled_view<T>(settled: Result<T, EngineError>) -> Result<T, Seq<char>> {
    match settled {
        Ok(value) => Ok(value),
        Err(error) => Err(error@),
    }
}

impl View for WorkerEvent {
    type V = EventView;

    open spec fn view(&self) -> EventView {
        match *self {
            WorkerEvent::Started => EventView::Started,
            WorkerEvent::Bootstrapped(settled) => EventView::Bootstrapped(settled_view(settled)),
            WorkerEvent::Primed(settled) => EventView::Primed(settled_view(settled)),
            WorkerEvent::Probed(found) => EventView::Probed(settled_view(found)),
            WorkerEvent::LoopSettled(settled) => EventView::LoopSettled(settled_view(settled)),
            WorkerEvent::Received(request) => EventView::Received(request@),
            WorkerEvent::Evaluated(outcome) => EventView::Evaluated(outcome_view(outcome)),
            WorkerEvent::MailboxClosed => EventView::MailboxClosed,
        }
    }
}

impl View for WorkerAction {
    type V = ActionView;

    open spec fn view(&self) -> ActionView {
        match *self {
            WorkerAction::Bootstrap => ActionView::Bootstrap,
            WorkerAction::Prime { name, source } => ActionView::Prime {
                name: name@,
                source: source@,
            },
            WorkerAction::Watch { binding } => ActionView::Watch { binding: binding@ },
            WorkerAction::Serve => ActionView::Serve,
            WorkerAction::Post(response) => ActionView::Post(response@),
            WorkerAction::Evaluate(message) => ActionView::Evaluate(message@),
            WorkerAction::Halt { fault, notice } => ActionView::Halt {
                fault,
                notice: match notice {
                    Some(response) => Some(response@),
                    None => None,
                },
            },
        }
    }
}

/// A worker that has not run yet.
pub open spec fn created() -> WorkerView {
    WorkerView { phase: WorkerPhase::Created, current: None }
}

/// What holds of the model of every worker: an id is kept exactly while a
/// script is with the engine, and it is never the reserved one.
pub open spec fn sound(w: WorkerView) -> bool {
    match w.current {
        Some(id) => w.phase is Evaluating && id != boot_id(),
        None => !(w.phase is Evaluating),
    }
}

/// The worker stopped for `fault`, with a notice of `reason` where one is
/// given.
pub open spec fn halt(fault: Fault, reason: Option<Seq<char>>) -> (WorkerView, ActionView) {
    (
        WorkerView { phase: WorkerPhase::Halted, current: None },
        ActionView::Halt {
            fault,
            notice: match reason {
                Some(text) => Some(boot_failure(text)),
                None => None,
            },
        },
    )
}

/// The worker in `phase`, with no script at the engine.
pub open spec fn idle(phase: WorkerPhase) -> WorkerView {
    WorkerView { phase, current: None }
}

/// The whole of the worker's conduct: where `w` goes on `event`, and what is
/// to be done then.
///
/// Until the boot signal is out, every failure stops the worker with a notice
/// under the reserved id. The boot signal goes out when a look into the global
/// scope finds the binding defined, and at no other time. From then on each
/// request is evaluated and answered under its own id, a failed script
/// included; only a request under the reserved id is passed over, since its
/// answer could not be told from the boot signal. An event loop that settles
/// stops the worker in every phase.
pub open spec fn step(w: WorkerView, event: EventView) -> (WorkerView, ActionView) {
    match (w.phase, event) {
        (WorkerPhase::Created, EventView::Started) => (
            idle(WorkerPhase::Bootstrapping),
            ActionView::Bootstrap,
        ),
        (WorkerPhase::Bootstrapping, EventView::Bootstrapped(Ok(_))) => (
            idle(WorkerPhase::Priming),
            ActionView::Prime { name: script_name(), source: init_script() },
        ),
        (WorkerPhase::Bootstrapping, EventView::Bootstrapped(Err(reason))) => halt(
            Fault::BootstrapFailed,
            Some(reason),
        ),
        (WorkerPhase::Priming, EventView::Primed(Ok(_))) => (
            idle(WorkerPhase::Racing),
            ActionView::Watch { binding: core_binding() },
        ),
        (WorkerPhase::Priming, EventView::Primed(Err(reason))) => halt(
            Fault::InitFailed,
            Some(reason),
        ),
        (WorkerPhase::Racing, EventView::Probed(Ok(Binding::Defined))) => (
            idle(WorkerPhase::Serving),
            ActionView::Post(boot_signal()),
        ),
        (WorkerPhase::Racing, EventView::Probed(Ok(_))) => (
            idle(WorkerPhase::Racing),
            ActionView::Watch { binding: core_binding() },
        ),
        (WorkerPhase::Racing, EventView::Probed(Err(reason))) => halt(
            Fault::ProbeFailed,
            Some(reason),
        ),
        (WorkerPhase::Racing, EventView::LoopSettled(Ok(_))) => halt(
            Fault::LoopEnded,
            Some(loop_ran_dry()),
        ),
        (WorkerPhase::Racing, EventView::LoopSettled(Err(reason))) => halt(
            Fault::LoopFailed,
            Some(reason),
        ),
        (WorkerPhase::Serving, EventView::Received(request)) => if request.id == boot_id() {
            (idle(WorkerPhase::Serving), ActionView::Serve)
        } else {
            (
                WorkerView { phase: WorkerPhase::Evaluating, current: Some(request.id) },
                ActionView::Evaluate(request.script),
            )
        },
        (WorkerPhase::Serving, EventView::LoopSettled(Ok(_))) => halt(Fault::LoopEnded, None),
        (WorkerPhase::Serving, EventView::LoopSettled(Err(_))) => halt(Fault::LoopFailed, None),
        (WorkerPhase::Serving, EventView::MailboxClosed) => halt(Fault::MailboxClosed, None),
        (WorkerPhase::Evaluating, EventView::Evaluated(outcome)) => if w.current is Some {
            (
                idle(WorkerPhase::Serving),
                ActionView::Post(ResponseView { result: outcome, id: w.current->Some_0 }),
            )
        } else {
            halt(Fault::OutOfTurn, None)
        },
        _ => halt(Fault::OutOfTurn, None),
    }
}

/// The worker's side of the bridge: the decisions of the thread that owns the
/// engine.
#[derive(Debug)]
pub struct JsCore {
    phase: WorkerPhase,
    current: Option<String>,
}

impl View for JsCore {
    type V = WorkerView;

    closed spec fn view(&self) -> WorkerView {
        WorkerView {
            phase: self.phase,
            current: match self.current {
                Some(id) => Some(id@),
                None => None,
            },
        }
    }
}

impl JsCore {
    /// Makes the two ends of a bridge: a worker that has not run yet, for the
    /// thread that will own the engine, and the handle that the host keeps.
    /// Nothing is waited for.
    pub fn start() -> (ends: (JsCore, JsCoreHandle))
        ensures
            ends.0@ == created(),
            ends.1.wf(),
            ends.1@ == fresh_handle(),
    {
        (JsCore { phase: WorkerPhase::Created, current: None }, JsCoreHandle::new())
    }

    /// Where the worker stands.
    pub fn phase(&self) -> (phase: WorkerPhase)
        ensures
            phase == self@.phase,
    {
        self.phase
    }

    fn halt(&mut self, fault: Fault, reason: Option<EngineError>) -> (action: WorkerAction)
        ensures
            (final(self)@, action@) == halt(
                fault,
                match reason {
                    Some(error) => Some(error@),
                    None => None,
                },
            ),
    {
        self.phase = WorkerPhase::Halted;
        self.current = None;
        let notice = match reason {
            Some(error) => Some(JsCoreResponse::boot_failure(error)),
            None => None,
        };
        WorkerAction::Halt { fault, notice }
    }

    /// Takes note of `event` and says what the thread is to do now.
    pub fn step(&mut self, event: WorkerEvent) -> (action: WorkerAction)
        ensures
            (final(self)@, action@) == step(old(self)@, event@),
    {
        match (self.phase, event) {
            (WorkerPhase::Created, WorkerEvent::Started) => {
                self.phase = WorkerPhase::Bootstrapping;
                self.current = None;
                WorkerAction::Bootstrap
            },
            (WorkerPhase::Bootstrapping, WorkerEvent::Bootstrapped(Ok(_))) => {
                self.phase = WorkerPhase::Priming;
                self.current = None;
                WorkerAction::Prime {
                    name: String::from_str("js_core"),
                    source: String::from_str("initCore()"),
                }
            },
            (WorkerPhase::Bootstrapping, WorkerEvent::Bootstrapped(Err(reason))) => self.halt(
                Fault::BootstrapFailed,
                Some(reason),
            ),
            (WorkerPhase::Priming, WorkerEvent::Primed(Ok(_))) => {
                self.phase = WorkerPhase::Racing;
                self.current = None;
                WorkerAction::Watch { binding: String::from_str("core") }
            },
            (WorkerPhase::Priming, WorkerEvent::Primed(Err(reason))) => self.halt(
                Fault::InitFailed,
                Some(reason),
            ),
            (WorkerPhase::Racing, WorkerEvent::Probed(Ok(Binding::Defined))) => {
                self.phase = WorkerPhase::Serving;
                self.current = None;
                WorkerAction::Post(JsCoreResponse::boot_signal())
            },
            (WorkerPhase::Racing, WorkerEvent::Probed(Ok(_))) => {
                self.current = None;
                WorkerAction::Watch { binding: String::from_str("core") }
            },
            (WorkerPhase::Racing, WorkerEvent::Probed(Err(reason))) => self.halt(
                Fault::ProbeFailed,
                Some(reason),
            ),
            (WorkerPhase::Racing, WorkerEvent::LoopSettled(Ok(_))) => {
                let reason = EngineError::new(
                    String::from_str("event loop ended before the engine was ready"),
                );
                proof {
                    reveal_strlit("event loop ended before the engine was ready");
                }
                self.halt(Fault::LoopEnded, Some(reason))
            },
            (WorkerPhase::Racing, WorkerEvent::LoopSettled(Err(reason))) => self.halt(
                Fault::LoopFailed,
                Some(reason),
            ),
            (WorkerPhase::Serving, WorkerEvent::Received(request)) => {
                let reserved = boot_signal_id();
                if request.id == reserved {
                    self.current = None;
                    WorkerAction::Serve
                } else {
                    self.phase = WorkerPhase::Evaluating;
                    let message = Execute { script: request.script };
                    self.current = Some(request.id);
                    WorkerAction::Evaluate(message)
                }
            },
            (WorkerPhase::Serving, WorkerEvent::LoopSettled(Ok(_))) => self.halt(
                Fault::LoopEnded,
                None,
            ),
            (WorkerPhase::Serving, WorkerEvent::LoopSettled(Err(_))) => self.halt(
                Fault::LoopFailed,
                None,
            ),
            (WorkerPhase::Serving, WorkerEvent::MailboxClosed) => self.halt(
                Fault::MailboxClosed,
                None,
            ),
            (WorkerPhase::Evaluating, WorkerEvent::Evaluated(outcome)) => {
                match self.current.take() {
                    Some(id) => {
                        self.phase = WorkerPhase::Serving;
                        WorkerAction::Post(JsCoreResponse::reply(id, outcome))
                    },
                    None => self.halt(Fault::OutOfTurn, None),
                }
            },
            _ => self.halt(Fault::OutOfTurn, None),
        }
    }
}

} // verus!
