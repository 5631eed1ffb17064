//! The schedule of one event-loop iteration.
//!
//! The loop is a state machine: [`EventLoopHandler::step`] takes the outcome
//! of the action it last asked for and returns the next one. One iteration
//! flushes outgoing requests, takes the read guard of the incoming queue if
//! no other reader holds it and reads, dispatches what was decoded, advances
//! the UI framework's timers and renders a frame if one is due; then the loop
//! waits for the connection to become readable. A failure to flush, read or
//! dispatch is fatal.
use vstd::prelude::*;
use crate::errors::LayerShikaError;

verus! {

/// What the caller must do next.
#[derive(Clone, Copy, Debug, PartialEq, Eq, Structural)]
pub enum LoopAction {
    /// Block until the connection is readable or a timer is due.
    Wait,
    Flush,
    /// Try to take the read guard of the incoming queue.
    PrepareRead,
    /// Read with the guard held, releasing it.
    Read,
    DispatchPending,
    AdvanceTimers,
    RenderIfDirty,
}

/// The outcome of the last action.
#[derive(Debug)]
pub enum LoopEvent {
    Woken,
    Flushed,
    /// Whether the read guard was taken; it is not when another reader holds it.
    ReadPrepared { acquired: bool },
    ReadDone,
    Dispatched,
    TimersAdvanced,
    /// The render pass ran or was not due; a rendering error does not end the loop.
    Rendered,
    /// The action failed, with the protocol library's message.
    Failed(String),
}

pub struct LoopView {
    /// The action the caller was last asked to perform.
    pub pending: LoopAction,
    /// The read guard of the incoming queue is held.
    pub guard_held: bool,
}

impl LoopView {
    /// The guard is held exactly while a read is pending.
    pub open spec fn wf(self) -> bool {
        self.guard_held <==> self.pending == LoopAction::Read
    }
}

/// The action after `pending` has succeeded; `acquired` says whether a
/// prepared read took the guard.
pub open spec fn next_action(pending: LoopAction, acquired: bool) -> LoopAction {
    match pending {
        LoopAction::Wait => LoopAction::Flush,
        LoopAction::Flush => LoopAction::PrepareRead,
        LoopAction::PrepareRead => if acquired {
            LoopAction::Read
        } else {
            LoopAction::DispatchPending
        },
        LoopAction::Read => LoopAction::DispatchPending,
        LoopAction::DispatchPending => LoopAction::AdvanceTimers,
        LoopAction::AdvanceTimers => LoopAction::RenderIfDirty,
        LoopAction::RenderIfDirty => LoopAction::Wait,
    }
}

/// Whether `e` reports the outcome of `pending`.
pub open spec fn answers(pending: LoopAction, e: LoopEvent) -> bool {
    match (pending, e) {
        (LoopAction::Wait, LoopEvent::Woken) => true,
        (LoopAction::Flush, LoopEvent::Flushed) => true,
        (LoopAction::PrepareRead, LoopEvent::ReadPrepared { .. }) => true,
        (LoopAction::Read, LoopEvent::ReadDone) => true,
        (LoopAction::DispatchPending, LoopEvent::Dispatched) => true,
        (LoopAction::AdvanceTimers, LoopEvent::TimersAdvanced) => true,
        (LoopAction::RenderIfDirty, LoopEvent::Rendered) => true,
        _ => false,
    }
}

/// The fatal error for a failure of `pending` with message `m`.
pub open spec fn failure_error(pending: LoopAction, m: String) -> LayerShikaError {
    match pending {
        LoopAction::Flush => LayerShikaError::ConnectionFlush(m),
        LoopAction::Wait => LayerShikaError::EventLoop(m),
        LoopAction::AdvanceTimers => LayerShikaError::EventLoop(m),
        LoopAction::RenderIfDirty => LayerShikaError::EventLoop(m),
        _ => LayerShikaError::WaylandProtocol(m),
    }
}

/// The loop state after event `e`: the next action, or the fatal error. An
/// event that does not answer the pending action leaves the state unchanged,
/// so that action is asked for again.
pub open spec fn loop_result(v: LoopView, e: LoopEvent) -> Result<LoopView, LayerShikaError> {
    match e {
        LoopEvent::Failed(m) => Err(failure_error(v.pending, m)),
        _ => if answers(v.pending, e) {
            let acquired = match e {
                LoopEvent::ReadPrepared { acquired } => acquired,
                _ => false,
            };
            let next = next_action(v.pending, acquired);
            Ok(LoopView { pending: next, guard_held: next == LoopAction::Read })
        } else {
            Ok(v)
        },
    }
}

pub struct EventLoopHandler {
    pending: LoopAction,
    guard_held: bool,
}

impl View for EventLoopHandler {
    type V = LoopView;

    closed spec fn view(&self) -> LoopView {
        LoopView { pending: self.pending, guard_held: self.guard_held }
    }
}

impl EventLoopHandler {
    /// A loop waiting for the connection, holding no guard.
    pub fn new() -> (r: EventLoopHandler)
        ensures
            r@ == (LoopView { pending: LoopAction::Wait, guard_held: false }),
            r@.wf(),
    {
        EventLoopHandler { pending: LoopAction::Wait, guard_held: false }
    }

    pub fn pending(&self) -> (r: LoopAction)
        ensures
            r == self@.pending,
    {
        self.pending
    }

    /// Takes the outcome of the pending action and returns the next action,
    /// or the fatal error that ends the loop.
    pub fn step(&mut self, event: LoopEvent) -> (r: Result<LoopAction, LayerShikaError>)
        requires
            old(self)@.wf(),
        ensures
            final(self)@.wf(),
            match loop_result(old(self)@, event) {
                Ok(v) => r == Ok::<LoopAction, LayerShikaError>(v.pending) && final(self)@ == v,
                Err(e) => r == Err::<LoopAction, LayerShikaError>(e) && final(self)@ == old(
                    self,
                )@,
            },
    {
        let pending = self.pending;
        let acquired = match &event {
            LoopEvent::Failed(m) => {
                let err = match pending {
                    LoopAction::Flush => LayerShikaError::ConnectionFlush(m.clone()),
                    LoopAction::Wait => LayerShikaError::EventLoop(m.clone()),
                    LoopAction::AdvanceTimers => LayerShikaError::EventLoop(m.clone()),
                    LoopAction::RenderIfDirty => LayerShikaError::EventLoop(m.clone()),
                    _ => LayerShikaError::WaylandProtocol(m.clone()),
                };
                return Err(err);
            },
            LoopEvent::ReadPrepared { acquired } => *acquired,
            _ => false,
        };
        let fits = match (pending, &event) {
            (LoopAction::Wait, LoopEvent::Woken) => true,
            (LoopAction::Flush, LoopEvent::Flushed) => true,
            (LoopAction::PrepareRead, LoopEvent::ReadPrepared { .. }) => true,
            (LoopAction::Read, LoopEvent::ReadDone) => true,
            (LoopAction::DispatchPending, LoopEvent::Dispatched) => true,
            (LoopAction::AdvanceTimers, LoopEvent::TimersAdvanced) => true,
            (LoopAction::RenderIfDirty, LoopEvent::Rendered) => true,
            _ => false,
        };
        if !fits {
            return Ok(pending);
        }
        let next = match pending {
            LoopAction::Wait => LoopAction::Flush,
            LoopAction::Flush => LoopAction::PrepareRead,
            LoopAction::PrepareRead => if acquired {
                LoopAction::Read
            } else {
                LoopAction::DispatchPending
            },
            LoopAction::Read => LoopAction::DispatchPending,
            LoopAction::DispatchPending => LoopAction::AdvanceTimers,
            LoopAction::AdvanceTimers => LoopAction::RenderIfDirty,
            LoopAction::RenderIfDirty => LoopAction::Wait,
        };
        self.pending = next;
        self.guard_held = next == LoopAction::Read;
        Ok(next)
    }
}

/// The actions of one iteration in which every action succeeds, from the wake
/// up to the next wait: a read happens only when the guard was taken.
pub open spec fn iteration_actions(acquired: bool) -> Seq<LoopAction> {
    if acquired {
        seq![
            LoopAction::Flush,
            LoopAction::PrepareRead,
            LoopAction::Read,
            LoopAction::DispatchPending,
            LoopAction::AdvanceTimers,
            LoopAction::RenderIfDirty,
            LoopAction::Wait,
        ]
    } else {
        seq![
            LoopAction::Flush,
            LoopAction::PrepareRead,
            LoopAction::DispatchPending,
            LoopAction::AdvanceTimers,
            LoopAction::RenderIfDirty,
            LoopAction::Wait,
        ]
    }
}

/// The action after each action of an iteration is the next one in
/// `iteration_actions`: messages are read at most once per guard and are
/// dispatched before the timers advance and before the frame that reflects
/// them is rendered.
pub proof fn lemma_iteration_order(acquired: bool)
    ensures
        next_action(LoopAction::Wait, acquired) == iteration_actions(acquired)[0],
        forall|i: int|
            0 <= i < iteration_actions(acquired).len() - 1 ==> next_action(
                #[trigger] iteration_actions(acquired)[i],
                acquired,
            ) == iteration_actions(acquired)[i + 1],
{
}

/// Whatever the outcome reported, the loop never holds the read guard except
/// while a read is pending, so a second read can never start while a guard
/// from an earlier read is outstanding.
pub proof fn lemma_single_reader(v: LoopView, e: LoopEvent)
    requires
        v.wf(),
    ensures
        loop_result(v, e) matches Ok(w) ==> w.wf(),
        loop_result(v, e) matches Ok(w) && w.pending == LoopAction::Read ==> (v.pending
            == LoopAction::PrepareRead || v.pending == LoopAction::Read),
{
}

} // verus!
