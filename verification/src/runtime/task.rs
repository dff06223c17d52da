//! Ownership bookkeeping for the asynchronous work of one request.
//!
//! A request context accepts new tasks until it is cancelled, hands every task
//! a fresh identifier, and remembers the abort handle of each task that has not
//! yet finished. The decisions taken at a task's boundary (how a join failure
//! or a cooperative shutdown becomes a structured error) live here as well.
use std::collections::HashMap;

use tokio::task::{AbortHandle, JoinError};
use vstd::prelude::*;

use super::error::{cancelled_model, error_model, ErrorCode, ErrorModel, RuntimeError};

verus! {

/// Declares tokio's handle for aborting a spawned task.
#[verifier::external_type_specification]
#[verifier::external_body]
pub struct ExAbortHandle(AbortHandle);

/// Declares tokio's error for a task that stopped without an output.
#[verifier::external_type_specification]
#[verifier::external_body]
pub struct ExJoinError(JoinError);

/// `tokio::task::AbortHandle::abort` asks the runtime to stop the task. It
/// changes nothing that this library models, so no result is promised.
pub assume_specification[ AbortHandle::abort ](handle: &AbortHandle);

/// Whether a join error records a panic of its task. In tokio a join error
/// is either a panic or a cancellation and keeps which one it is.
pub uninterp spec fn join_error_panicked(error: JoinError) -> bool;

/// `tokio::task::JoinError::is_panic` reports whether the task panicked: the
/// result is [`join_error_panicked`] of the error.
pub assume_specification[ JoinError::is_panic ](error: &JoinError) -> (panicked: bool)
    ensures
        panicked == join_error_panicked(*error),
;

/// `tokio::task::JoinError::is_cancelled` reports whether the task was
/// aborted. A join error that is not a panic is a cancellation, so the result
/// is the negation of [`join_error_panicked`].
pub assume_specification[ JoinError::is_cancelled ](error: &JoinError) -> (aborted: bool)
    ensures
        aborted == !join_error_panicked(*error),
;

/// The mathematical content of a [`ContextState`].
pub struct ContextModel {
    /// Whether new tasks may still be registered.
    pub accepting: bool,
    /// The identifier the next registered task receives.
    pub next_id: u64,
    /// The abort handles of the tasks that have not finished, by identifier.
    pub tasks: Map<u64, AbortHandle>,
}

/// The task registry of one request: whether it still accepts work, the
/// next task identifier, and the tasks it currently owns.
pub struct ContextState {
    accepting_tasks: bool,
    next_task_id: u64,
    tasks: HashMap<u64, AbortHandle>,
}

impl View for ContextState {
    type V = ContextModel;

    closed spec fn view(&self) -> ContextModel {
        ContextModel {
            accepting: self.accepting_tasks,
            next_id: self.next_task_id,
            tasks: self.tasks@,
        }
    }
}

/// An operation on a request's task registry.
pub enum ContextOp {
    /// [`ContextState::reserve_task`].
    Reserve,
    /// [`ContextState::insert_task`].
    Insert(u64, AbortHandle),
    /// [`ContextState::unregister`].
    Unregister(u64),
    /// [`ContextState::close`].
    Close,
    /// [`ContextState::abort_all`].
    AbortAll,
}

/// The registry after one operation.
pub open spec fn context_step(state: ContextModel, op: ContextOp) -> ContextModel {
    match op {
        ContextOp::Reserve => if state.accepting {
            ContextModel { next_id: (state.next_id + 1) as u64, ..state }
        } else {
            state
        },
        ContextOp::Insert(id, handle) => ContextModel { tasks: state.tasks.insert(id, handle), ..state },
        ContextOp::Unregister(id) => ContextModel { tasks: state.tasks.remove(id), ..state },
        ContextOp::Close => ContextModel { accepting: false, ..state },
        ContextOp::AbortAll => ContextModel {
            accepting: false,
            tasks: Map::empty(),
            ..state
        },
    }
}

/// The registry after a sequence of operations, applied in order.
pub open spec fn context_run(state: ContextModel, ops: Seq<ContextOp>) -> ContextModel
    decreases ops.len(),
{
    if ops.len() == 0 {
        state
    } else {
        context_run(context_step(state, ops[0]), ops.drop_first())
    }
}

/// A cancelled request stays cancelled: whatever operations follow, its
/// registry never accepts work again, and reserving refuses with a
/// cancellation error while handing out no identifier.
pub proof fn lemma_cancelled_stays_cancelled(state: ContextModel, ops: Seq<ContextOp>)
    requires
        !state.accepting,
    ensures
        !context_run(state, ops).accepting,
        context_step(context_run(state, ops), ContextOp::Reserve) == context_run(state, ops),
    decreases ops.len(),
{
    if ops.len() > 0 {
        lemma_cancelled_stays_cancelled(context_step(state, ops[0]), ops.drop_first());
    }
}

impl ContextState {
    /// Every owned task carries an identifier handed out earlier, so a fresh
    /// identifier never names an owned task.
    #[verifier::type_invariant]
    closed spec fn ids_were_issued(self) -> bool {
        forall|id: u64| #[trigger] self.tasks@.contains_key(id) ==> id < self.next_task_id
    }

    /// The registry after one more identifier has been handed out.
    pub open spec fn after_reserve(m: ContextModel) -> ContextModel {
        ContextModel { next_id: (m.next_id + 1) as u64, ..m }
    }

    /// The tasks of a registry are finitely many, so counting them is meaningful.
    pub proof fn lemma_tasks_finite(state: &ContextState)
        ensures
            state@.tasks.dom().finite(),
    {
    }

    /// Creates an active registry that owns no tasks.
    pub fn new() -> (state: Self)
        ensures
            state@.accepting,
            state@.next_id == 0,
            state@.tasks == Map::<u64, AbortHandle>::empty(),
    {
        ContextState { accepting_tasks: true, next_task_id: 0, tasks: HashMap::new() }
    }

    /// Returns whether new tasks may still be registered.
    pub fn is_accepting(&self) -> (accepting: bool)
        ensures
            accepting == self@.accepting,
    {
        self.accepting_tasks
    }

    /// Returns the identifier the next registered task receives.
    pub fn next_task_id(&self) -> (id: u64)
        ensures
            id == self@.next_id,
    {
        self.next_task_id
    }

    /// Hands out the identifier for a new task.
    ///
    /// A cancelled registry refuses with a cancellation error and stays as it
    /// was. An accepting registry returns its next identifier, which names no
    /// owned task, and moves past it.
    pub fn reserve_task(&mut self) -> (result: Result<u64, RuntimeError>)
        requires
            old(self)@.accepting ==> old(self)@.next_id < u64::MAX,
        ensures
            !old(self)@.accepting ==> result is Err && result->Err_0@ == cancelled_model()
                && final(self)@ == old(self)@,
            old(self)@.accepting ==> result == Ok::<u64, RuntimeError>(old(self)@.next_id)
                && !old(self)@.tasks.contains_key(old(self)@.next_id)
                && final(self)@ == Self::after_reserve(old(self)@),
            final(self)@ == context_step(old(self)@, ContextOp::Reserve),
    {
        proof {
            use_type_invariant(&*self);
        }
        if !self.accepting_tasks {
            return Err(RuntimeError::cancelled());
        }
        let task_id = self.next_task_id;
        self.next_task_id = task_id + 1;
        Ok(task_id)
    }

    /// Records the abort handle of a task started under a reserved identifier.
    pub fn insert_task(&mut self, task_id: u64, handle: AbortHandle)
        requires
            task_id < old(self)@.next_id,
        ensures
            final(self)@ == (ContextModel { tasks: old(self)@.tasks.insert(task_id, handle), ..old(self)@ }),
            final(self)@ == context_step(old(self)@, ContextOp::Insert(task_id, handle)),
            final(self)@.tasks.len() == old(self)@.tasks.len() + if old(self)@.tasks.contains_key(
                task_id,
            ) {
                0int
            } else {
                1int
            },
    {
        proof {
            use_type_invariant(&*self);
        }
        let mut tasks = HashMap::new();
        std::mem::swap(&mut tasks, &mut self.tasks);
        tasks.insert(task_id, handle);
        self.tasks = tasks;
    }

    /// Forgets a finished task and reports whether the request now owns no task.
    pub fn unregister(&mut self, task_id: u64) -> (became_idle: bool)
        ensures
            final(self)@ == (ContextModel { tasks: old(self)@.tasks.remove(task_id), ..old(self)@ }),
            final(self)@ == context_step(old(self)@, ContextOp::Unregister(task_id)),
            final(self)@.tasks.len() == old(self)@.tasks.len() - if old(self)@.tasks.contains_key(
                task_id,
            ) {
                1int
            } else {
                0int
            },
            became_idle == (old(self)@.tasks.remove(task_id).len() == 0),
    {
        proof {
            use_type_invariant(&*self);
        }
        let mut tasks = HashMap::new();
        std::mem::swap(&mut tasks, &mut self.tasks);
        tasks.remove(&task_id);
        let became_idle = tasks.is_empty();
        self.tasks = tasks;
        became_idle
    }

    /// Stops accepting new tasks; the owned tasks are left running.
    pub fn close(&mut self)
        ensures
            final(self)@ == (ContextModel { accepting: false, ..old(self)@ }),
            final(self)@ == context_step(old(self)@, ContextOp::Close),
    {
        proof {
            use_type_invariant(&*self);
        }
        self.accepting_tasks = false;
    }

    /// Stops accepting new tasks, asks every owned task to abort, and forgets them.
    pub fn abort_all(&mut self)
        ensures
            final(self)@ == (ContextModel {
                accepting: false,
                tasks: Map::<u64, AbortHandle>::empty(),
                ..old(self)@
            }),
            final(self)@ == context_step(old(self)@, ContextOp::AbortAll),
    {
        proof {
            use_type_invariant(&*self);
        }
        self.accepting_tasks = false;
        for handle in self.tasks.values() {
            handle.abort();
        }
        self.tasks = HashMap::new();
    }

    /// Returns the number of tasks this request currently owns.
    pub fn task_count(&self) -> (count: usize)
        ensures
            count == self@.tasks.len(),
    {
        self.tasks.len()
    }

    /// Returns whether this request currently owns no task.
    pub fn is_idle(&self) -> (idle: bool)
        ensures
            idle == (self@.tasks.len() == 0),
    {
        self.tasks.is_empty()
    }
}

impl Default for ContextState {
    /// Creates an active registry that owns no tasks.
    fn default() -> (state: Self)
        ensures
            state@.accepting,
            state@.next_id == 0,
            state@.tasks == Map::<u64, AbortHandle>::empty(),
    {
        Self::new()
    }
}

/// A task that is registered under a freshly reserved identifier and later
/// unregistered leaves the owned tasks exactly as they were, so a request
/// whose tasks have all finished owns none again.
pub proof fn lemma_finished_task_leaves_no_trace(state: ContextModel, handle: AbortHandle)
    requires
        state.tasks.dom().finite(),
        !state.tasks.contains_key(state.next_id),
    ensures
        state.tasks.insert(state.next_id, handle).len() == state.tasks.len() + 1,
        state.tasks.insert(state.next_id, handle).remove(state.next_id) == state.tasks,
{
    assert(state.tasks.insert(state.next_id, handle).remove(state.next_id) =~= state.tasks);
}

/// Identifiers handed out by one registry never repeat: each reservation
/// returns the counter and moves it strictly forward.
pub proof fn lemma_identifiers_increase(state: ContextModel)
    requires
        state.next_id < u64::MAX,
    ensures
        ContextState::after_reserve(state).next_id == state.next_id + 1,
        ContextState::after_reserve(state).accepting == state.accepting,
        ContextState::after_reserve(state).tasks == state.tasks,
{
}

/// The message of a task that panicked.
pub open spec fn panicked_message() -> Seq<char> {
    "owned task panicked"@
}

/// The message of a task that stopped for no reported reason.
pub open spec fn stopped_message() -> Seq<char> {
    "owned task stopped without a result"@
}

/// The error reported at a task's boundary when the task ended without an
/// output: a panic always shows as a failed task; otherwise a cancelled
/// request or an aborted task shows as cancellation.
pub open spec fn join_failure(panicked: bool, aborted: bool, request_cancelled: bool) -> ErrorModel {
    if panicked {
        error_model(ErrorCode::TaskFailed, panicked_message())
    } else if request_cancelled || aborted {
        cancelled_model()
    } else {
        error_model(ErrorCode::TaskFailed, stopped_message())
    }
}

/// A panic is never hidden: it is reported as a failed task whether or not the
/// request was cancelled. Without a panic, a cancelled request always reports
/// cancellation.
pub proof fn lemma_panic_is_never_hidden(aborted: bool, request_cancelled: bool)
    ensures
        join_failure(true, aborted, request_cancelled) == error_model(
            ErrorCode::TaskFailed,
            panicked_message(),
        ),
        join_failure(false, aborted, true) == cancelled_model(),
        join_failure(true, aborted, request_cancelled) == (ErrorModel {
            code: ErrorCode::TaskFailed,
            message: "owned task panicked"@,
        }),
        join_failure(false, aborted, true) == (ErrorModel {
            code: ErrorCode::Cancelled,
            message: "request cancelled"@,
        }),
{
}

/// The error at a task's boundary, for every way a task can end without an
/// output: a panic is a failed task; otherwise an aborted task or a cancelled
/// request is a cancellation; a task that merely stopped is a failed task of
/// its own kind.
pub proof fn lemma_join_failures(aborted: bool, request_cancelled: bool)
    ensures
        join_failure(true, aborted, request_cancelled) == (ErrorModel {
            code: ErrorCode::TaskFailed,
            message: "owned task panicked"@,
        }),
        join_failure(false, true, request_cancelled) == (ErrorModel {
            code: ErrorCode::Cancelled,
            message: "request cancelled"@,
        }),
        join_failure(false, aborted, true) == (ErrorModel {
            code: ErrorCode::Cancelled,
            message: "request cancelled"@,
        }),
        join_failure(false, false, false) == (ErrorModel {
            code: ErrorCode::TaskFailed,
            message: "owned task stopped without a result"@,
        }),
{
}

/// Chooses the boundary error for a task that ended without an output, from
/// how it ended and whether its request was cancelled.
pub fn join_failure_error(panicked: bool, aborted: bool, request_cancelled: bool) -> (error:
    RuntimeError)
    ensures
        error@ == join_failure(panicked, aborted, request_cancelled),
{
    if panicked {
        RuntimeError::task_failed("owned task panicked".to_owned())
    } else if request_cancelled || aborted {
        RuntimeError::cancelled()
    } else {
        RuntimeError::task_failed("owned task stopped without a result".to_owned())
    }
}

/// Maps tokio's join failure to the boundary error of the request's task: a
/// panic is a failed task, whether or not the request was cancelled; an
/// aborted task is a cancellation.
pub fn map_join_error(error: JoinError, request_cancelled: bool) -> (mapped: RuntimeError)
    ensures
        mapped@ == join_failure(
            join_error_panicked(error),
            !join_error_panicked(error),
            request_cancelled,
        ),
{
    let panicked = error.is_panic();
    let aborted = error.is_cancelled();
    join_failure_error(panicked, aborted, request_cancelled)
}

/// The outcome of cooperative work that was still running when its request
/// was cancelled: a failure of its own (such as a failed cleanup) survives,
/// every other result becomes cancellation.
pub fn cooperative_cancellation_outcome<T>(result: Result<T, RuntimeError>) -> (outcome: Result<
    T,
    RuntimeError,
>)
    ensures
        outcome is Err,
        result is Err && result->Err_0@.code != ErrorCode::Cancelled ==> outcome == result,
        !(result is Err && result->Err_0@.code != ErrorCode::Cancelled) ==> outcome->Err_0@
            == cancelled_model(),
{
    match result {
        Err(error) => {
            if error.code() != ErrorCode::Cancelled {
                Err(error)
            } else {
                Err(RuntimeError::cancelled())
            }
        },
        Ok(_) => Err(RuntimeError::cancelled()),
    }
}

} // verus!
