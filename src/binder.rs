//! Binding the protocol globals a layer surface needs.
//!
//! The globals are bound one at a time, in a fixed order; the caller performs
//! each bind and hands its outcome to the [`GlobalBinder`], which either moves
//! on to the next global or ends the whole initialization with the first
//! failure. Nothing is kept of a binding that failed part way.
use vstd::prelude::*;
use crate::errors::{BindFailure, GlobalFailure, GlobalKind, LayerShikaError};

verus! {

/// Number of globals to bind.
pub const REQUIRED_GLOBAL_COUNT: usize = 4;

/// The globals to bind, in binding order.
pub open spec fn required_globals() -> Seq<GlobalKind> {
    seq![GlobalKind::Compositor, GlobalKind::Output, GlobalKind::LayerShell, GlobalKind::Seat]
}

/// The result of binding with `outcomes[k..]` once the first `k` globals are
/// bound: success, or the first global that failed and why.
pub open spec fn bind_run_from(k: nat, outcomes: Seq<Result<(), BindFailure>>) -> Result<
    (),
    (GlobalKind, BindFailure),
>
    decreases 4 - k,
{
    if k >= 4 {
        Ok(())
    } else {
        match outcomes[k as int] {
            Ok(()) => bind_run_from(k + 1, outcomes),
            Err(f) => Err((required_globals()[k as int], f)),
        }
    }
}

/// The error that ends initialization when `kind` fails with `failure`.
pub open spec fn bind_error(kind: GlobalKind, failure: BindFailure) -> LayerShikaError {
    LayerShikaError::GlobalInitialization(GlobalFailure::Bind(kind, failure))
}

/// The protocol version range each global is bound with.
pub fn version_range(kind: GlobalKind) -> (r: (u32, u32))
    ensures
        r == (1u32, 1u32),
{
    match kind {
        GlobalKind::Compositor => (1, 1),
        GlobalKind::Output => (1, 1),
        GlobalKind::LayerShell => (1, 1),
        GlobalKind::Seat => (1, 1),
    }
}

/// Progress through the required globals.
pub struct GlobalBinder {
    bound: usize,
}

impl GlobalBinder {
    /// How many globals are bound so far.
    pub closed spec fn spec_bound(&self) -> nat {
        self.bound as nat
    }

    pub open spec fn wf(&self) -> bool {
        self.spec_bound() <= 4
    }

    pub fn new() -> (r: GlobalBinder)
        ensures
            r.spec_bound() == 0,
            r.wf(),
    {
        GlobalBinder { bound: 0 }
    }

    /// The next global to bind, or `None` once all are bound.
    pub fn next_required(&self) -> (r: Option<GlobalKind>)
        requires
            self.wf(),
        ensures
            self.spec_bound() < 4 ==> r == Some(required_globals()[self.spec_bound() as int]),
            self.spec_bound() >= 4 ==> r is None,
    {
        match self.bound {
            0 => Some(GlobalKind::Compositor),
            1 => Some(GlobalKind::Output),
            2 => Some(GlobalKind::LayerShell),
            3 => Some(GlobalKind::Seat),
            _ => None,
        }
    }

    pub fn is_complete(&self) -> (r: bool)
        ensures
            r == (self.spec_bound() >= 4),
    {
        self.bound >= REQUIRED_GLOBAL_COUNT
    }

    /// Takes the outcome of binding the next global: the binder moves on, or
    /// initialization fails with that global and the cause.
    pub fn record(self, outcome: Result<(), BindFailure>) -> (r: Result<
        GlobalBinder,
        LayerShikaError,
    >)
        requires
            self.wf(),
            self.spec_bound() < 4,
        ensures
            outcome is Ok ==> (r matches Ok(b) && b.spec_bound() == self.spec_bound() + 1
                && b.wf()),
            outcome matches Err(f) ==> r == Err::<GlobalBinder, LayerShikaError>(
                bind_error(required_globals()[self.spec_bound() as int], f),
            ),
    {
        let kind = match self.next_required() {
            Some(k) => k,
            None => GlobalKind::Seat,
        };
        match outcome {
            Ok(()) => Ok(GlobalBinder { bound: self.bound + 1 }),
            Err(f) => Err(LayerShikaError::GlobalInitialization(GlobalFailure::Bind(kind, f))),
        }
    }
}

/// Binding succeeds exactly when every required global binds; when one is
/// missing from the registry (or too old), binding fails with the first such
/// global in binding order and its cause, and with nothing else.
pub proof fn lemma_bind_all_or_first_failure(outcomes: Seq<Result<(), BindFailure>>)
    requires
        outcomes.len() == 4,
    ensures
        bind_run_from(0, outcomes) is Ok <==> (forall|i: int| 0 <= i < 4 ==> #[trigger] outcomes[i] is Ok),
        forall|i: int|
            0 <= i < 4 && #[trigger] outcomes[i] is Err && (forall|j: int| 0 <= j < i ==> outcomes[j] is Ok)
                ==> bind_run_from(0, outcomes) == Err::<(), (GlobalKind, BindFailure)>(
                (required_globals()[i], outcomes[i]->Err_0),
            ),
{
    reveal_with_fuel(bind_run_from, 5);
}

} // verus!
