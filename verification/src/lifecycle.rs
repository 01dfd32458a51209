//! The request lifecycle guard: one per inbound request, it decides exactly
//! once whether ending the request cancels the computation behind it.

use vstd::prelude::*;

verus! {

/// Where a guard stands. It leaves `Pending` once and never comes back.
#[derive(Clone, Copy, Debug, PartialEq, Eq, Structural)]
pub enum GuardState {
    Pending,
    Completed,
    Cancelled,
}

/// The way a request came to its end.
#[derive(Clone, Copy, Debug, PartialEq, Eq, Structural)]
pub enum RequestEnd {
    /// The outbound stream ran to its natural end.
    Completed,
    /// The handler failed.
    Failed,
    /// The guard went out of scope without a recorded completion: the client
    /// went away.
    Abandoned,
}

/// What the owner of a guard has to do after a signal.
#[derive(Clone, Copy, Debug, PartialEq, Eq, Structural)]
pub enum CleanupAction {
    Nothing,
    CancelComputation,
}

/// What a guard holds.
pub struct RequestLifecycleView {
    pub owns: bool,
    pub session_id: Seq<char>,
    pub state: GuardState,
}

/// The state a pending guard enters on `end`.
pub open spec fn state_entered(end: RequestEnd) -> GuardState {
    if end == RequestEnd::Completed {
        GuardState::Completed
    } else {
        GuardState::Cancelled
    }
}

/// The guard after the signal `end`.
pub open spec fn guard_after(guard: RequestLifecycleView, end: RequestEnd) -> RequestLifecycleView {
    if guard.state == GuardState::Pending {
        RequestLifecycleView { state: state_entered(end), ..guard }
    } else {
        guard
    }
}

/// What the signal `end` asks of the guard's owner: a pending guard that owns
/// its session asks for the cancellation, and no other guard asks anything.
pub open spec fn cleanup_for(guard: RequestLifecycleView, end: RequestEnd) -> CleanupAction {
    if guard.state == GuardState::Pending && guard.owns {
        CleanupAction::CancelComputation
    } else {
        CleanupAction::Nothing
    }
}

/// The guard after a sequence of signals.
pub open spec fn guard_after_all(guard: RequestLifecycleView, ends: Seq<RequestEnd>) -> RequestLifecycleView
    decreases ends.len(),
{
    if ends.len() == 0 {
        guard
    } else {
        guard_after_all(guard_after(guard, ends[0]), ends.drop_first())
    }
}

/// How many cancellations a sequence of signals asks for.
pub open spec fn cancellations(guard: RequestLifecycleView, ends: Seq<RequestEnd>) -> nat
    decreases ends.len(),
{
    if ends.len() == 0 {
        0
    } else {
        let first: nat = if cleanup_for(guard, ends[0]) == CleanupAction::CancelComputation {
            1
        } else {
            0
        };
        first + cancellations(guard_after(guard, ends[0]), ends.drop_first())
    }
}

/// Exactly-once cleanup: whatever signals reach a guard, in whatever order,
/// it asks for the cancellation at most once; a pending guard that owns its
/// session asks exactly once as soon as any signal arrives, and a guard that
/// does not own its session never asks.
pub proof fn lemma_cleanup_at_most_once(guard: RequestLifecycleView, ends: Seq<RequestEnd>)
    ensures
        cancellations(guard, ends) <= 1,
        cancellations(guard, ends) == 1 <==> (guard.owns && guard.state == GuardState::Pending
            && ends.len() > 0),
        guard_after_all(guard, ends).owns == guard.owns,
        guard_after_all(guard, ends).session_id == guard.session_id,
        guard_after_all(guard, ends).state == if guard.state == GuardState::Pending && ends.len()
            > 0 {
            state_entered(ends[0])
        } else {
            guard.state
        },
    decreases ends.len(),
{
    if ends.len() > 0 {
        lemma_cleanup_at_most_once(guard_after(guard, ends[0]), ends.drop_first());
    }
}

/// The guard of one inbound request.
pub struct RequestLifecycle {
    owns: bool,
    session_id: String,
    state: GuardState,
}

impl View for RequestLifecycle {
    type V = RequestLifecycleView;

    closed spec fn view(&self) -> RequestLifecycleView {
        RequestLifecycleView { owns: self.owns, session_id: self.session_id@, state: self.state }
    }
}

impl RequestLifecycle {
    /// A pending guard for the session `session_id`. It owns the session, and
    /// so cancels it when the request ends, exactly when the session is
    /// ephemeral.
    pub fn new(ephemeral: bool, session_id: String) -> (r: Self)
        ensures
            r@ == (RequestLifecycleView {
                owns: ephemeral,
                session_id: session_id@,
                state: GuardState::Pending,
            }),
    {
        RequestLifecycle { owns: ephemeral, session_id, state: GuardState::Pending }
    }

    pub fn owns(&self) -> (r: bool)
        ensures
            r == self@.owns,
    {
        self.owns
    }

    pub fn session_id(&self) -> (r: &str)
        ensures
            r@ == self@.session_id,
    {
        self.session_id.as_str()
    }

    pub fn state(&self) -> (r: GuardState)
        ensures
            r == self@.state,
    {
        self.state
    }

    /// Records how the request ended and says what is left to do. Only the
    /// first signal counts; every later one changes nothing and asks nothing.
    pub fn signal(&mut self, end: RequestEnd) -> (action: CleanupAction)
        ensures
            final(self)@ == guard_after(old(self)@, end),
            action == cleanup_for(old(self)@, end),
    {
        match self.state {
            GuardState::Pending => {
                self.state = match end {
                    RequestEnd::Completed => GuardState::Completed,
                    _ => GuardState::Cancelled,
                };
                if self.owns {
                    CleanupAction::CancelComputation
                } else {
                    CleanupAction::Nothing
                }
            },
            _ => CleanupAction::Nothing,
        }
    }

    /// Records that the outbound stream completed normally.
    pub fn complete(&mut self) -> (action: CleanupAction)
        ensures
            final(self)@ == guard_after(old(self)@, RequestEnd::Completed),
            action == cleanup_for(old(self)@, RequestEnd::Completed),
    {
        self.signal(RequestEnd::Completed)
    }

    /// Records that the handler failed.
    pub fn fail(&mut self) -> (action: CleanupAction)
        ensures
            final(self)@ == guard_after(old(self)@, RequestEnd::Failed),
            action == cleanup_for(old(self)@, RequestEnd::Failed),
    {
        self.signal(RequestEnd::Failed)
    }

    /// The cleanup at scope exit: a guard that is still pending was abandoned.
    pub fn release(&mut self) -> (action: CleanupAction)
        ensures
            final(self)@ == guard_after(old(self)@, RequestEnd::Abandoned),
            action == cleanup_for(old(self)@, RequestEnd::Abandoned),
    {
        self.signal(RequestEnd::Abandoned)
    }
}

} // verus!
