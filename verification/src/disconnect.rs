//! The disconnection-aware adapter around an outbound stream. It is told of
//! every read, and at teardown it infers from them alone whether the consumer
//! read to the natural end or went away before it.

use vstd::prelude::*;

verus! {

/// What the teardown of an adapter found.
#[derive(Clone, Copy, Debug, PartialEq, Eq, Structural)]
pub enum Teardown {
    /// The adapter holds no handle, or was torn down before: nothing to do.
    Nothing,
    /// The stream was read to its end: nothing to cancel.
    CompletedNormally,
    /// The consumer stopped reading before the end: cancel the computation.
    ClientDisconnected,
}

/// What an adapter holds.
pub struct DisconnectionHandlerView {
    /// Whether the adapter still holds the handle of the computation.
    pub armed: bool,
    pub session_id: Seq<char>,
    /// Whether a read has reported the end of the stream.
    pub completed: bool,
}

/// The adapter after a read that yielded an item (`ended` false) or reported
/// the end of the stream (`ended` true).
pub open spec fn after_read(adapter: DisconnectionHandlerView, ended: bool) -> DisconnectionHandlerView {
    DisconnectionHandlerView { completed: adapter.completed || ended, ..adapter }
}

/// The adapter after a sequence of reads.
pub open spec fn after_reads(adapter: DisconnectionHandlerView, reads: Seq<bool>) -> DisconnectionHandlerView
    decreases reads.len(),
{
    if reads.len() == 0 {
        adapter
    } else {
        after_reads(after_read(adapter, reads[0]), reads.drop_first())
    }
}

/// What teardown finds in `adapter`.
pub open spec fn teardown_of(adapter: DisconnectionHandlerView) -> Teardown {
    if !adapter.armed {
        Teardown::Nothing
    } else if adapter.completed {
        Teardown::CompletedNormally
    } else {
        Teardown::ClientDisconnected
    }
}

/// Disconnection inference: an adapter that holds a handle and has seen the
/// reads `reads` cancels the computation at teardown exactly when none of
/// them reported the end of the stream.
pub proof fn lemma_disconnection_inference(adapter: DisconnectionHandlerView, reads: Seq<bool>)
    requires
        adapter.armed,
        !adapter.completed,
    ensures
        teardown_of(after_reads(adapter, reads)) == if exists|i: int|
            0 <= i < reads.len() && reads[i] {
            Teardown::CompletedNormally
        } else {
            Teardown::ClientDisconnected
        },
{
    lemma_after_reads(adapter, reads);
}

/// Reads never disarm an adapter, and it counts as completed after them
/// exactly when it was before or one of them reported the end.
pub proof fn lemma_after_reads(adapter: DisconnectionHandlerView, reads: Seq<bool>)
    ensures
        after_reads(adapter, reads).armed == adapter.armed,
        after_reads(adapter, reads).session_id == adapter.session_id,
        after_reads(adapter, reads).completed == (adapter.completed || exists|i: int|
            0 <= i < reads.len() && reads[i]),
    decreases reads.len(),
{
    if reads.len() > 0 {
        let rest = reads.drop_first();
        lemma_after_reads(after_read(adapter, reads[0]), rest);
        if exists|i: int| 0 <= i < rest.len() && rest[i] {
            let i = choose|i: int| 0 <= i < rest.len() && rest[i];
            assert(reads[i + 1]);
        }
        if exists|i: int| 0 <= i < reads.len() && reads[i] {
            let i = choose|i: int| 0 <= i < reads.len() && reads[i];
            if i > 0 {
                assert(rest[i - 1]);
            }
        }
    }
}

/// Stream wrapper state that detects a client's disconnection.
pub struct DisconnectionHandler {
    armed: bool,
    session_id: String,
    completed: bool,
}

impl View for DisconnectionHandler {
    type V = DisconnectionHandlerView;

    closed spec fn view(&self) -> DisconnectionHandlerView {
        DisconnectionHandlerView {
            armed: self.armed,
            session_id: self.session_id@,
            completed: self.completed,
        }
    }
}

impl DisconnectionHandler {
    /// An adapter for the stream of session `session_id` that has not been
    /// read yet. `has_controller` says whether it holds a handle through
    /// which the computation can be cancelled.
    pub fn new(session_id: String, has_controller: bool) -> (r: Self)
        ensures
            r@ == (DisconnectionHandlerView {
                armed: has_controller,
                session_id: session_id@,
                completed: false,
            }),
    {
        DisconnectionHandler { armed: has_controller, session_id, completed: false }
    }

    pub fn session_id(&self) -> (r: &str)
        ensures
            r@ == self@.session_id,
    {
        self.session_id.as_str()
    }

    pub fn completed(&self) -> (r: bool)
        ensures
            r == self@.completed,
    {
        self.completed
    }

    /// Passes on what a read of the wrapped stream yielded, unchanged, and
    /// marks the stream as completed normally when it yielded the end.
    pub fn on_read<T>(&mut self, item: Option<T>) -> (r: Option<T>)
        ensures
            r == item,
            final(self)@ == after_read(old(self)@, item is None),
    {
        if item.is_none() {
            self.completed = true;
        }
        item
    }

    /// The teardown of the adapter. It gives up the handle, so that a second
    /// teardown finds nothing to do.
    pub fn teardown(&mut self) -> (r: Teardown)
        ensures
            r == teardown_of(old(self)@),
            final(self)@ == (DisconnectionHandlerView { armed: false, ..old(self)@ }),
    {
        if !self.armed {
            return Teardown::Nothing;
        }
        self.armed = false;
        if self.completed {
            Teardown::CompletedNormally
        } else {
            Teardown::ClientDisconnected
        }
    }
}

} // verus!
