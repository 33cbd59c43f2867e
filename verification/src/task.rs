//! Cancellable background tasks.
//!
//! A [`Task`] describes work that runs to completion on a thread of its
//! own and looks at a [`CancellationToken`] now and then to see whether it
//! should stop early. [`TaskHandle::spawn`] starts it and gives back the
//! handle through which the result is polled or waited for.

use crate::channel::{channel, recv, send, try_recv, Polled};
use crate::error_handling::{take_last_error, LastError};
use crate::failure::Failure;
use crate::panic::{catch_panic, failure_of, Guarded};
use std::sync::atomic::AtomicBool;
use std::sync::mpsc::{Receiver, Sender};
use std::sync::Arc;
use vstd::prelude::*;

verus! {

/// A cancellable task which is meant to be run in a background thread.
pub trait Task: Send + Sync + Clone {
    type Output: Send + Sync;

    /// Run the work to completion *synchronously*, exiting early if the
    /// provided `CancellationToken` is triggered.
    fn run(&self, cancel_tok: &CancellationToken) -> Result<Self::Output, Failure>;
}

/// An error to indicate a task was cancelled.
#[derive(Debug, Clone, Copy, PartialEq, Eq)]
pub struct Cancelled;

/// A shareable token to let you notify other tasks they should stop what
/// they are doing and exit early.
///
/// The clones of a token share one flag. A token also remembers that
/// `cancel` was called through it, so that what it answers afterwards does
/// not depend on the shared flag. What is stated of a token speaks of that
/// memory and of which flag the token is on; what the flag holds at a given
/// time is not part of a token's value.
#[derive(Debug)]
pub struct CancellationToken {
    flag: Arc<AtomicBool>,
    raised: bool,
}

/// `AtomicBool::store`, sequentially consistent. The claim is that the
/// call does not unwind: `store` panics on the orderings `Acquire` and
/// `AcqRel` only. Nothing is claimed of the flag.
#[verifier::external_body]
fn store(flag: &Arc<AtomicBool>, value: bool)
    opens_invariants none
    no_unwind
{
    flag.store(value, std::sync::atomic::Ordering::SeqCst);
}

impl CancellationToken {
    /// Whether `cancel` has been called through this token, or through the
    /// token it was cloned from before it was cloned.
    pub closed spec fn raised(&self) -> bool {
        self.raised
    }

    /// Whether the two tokens are on one flag, as a token and its clones
    /// are.
    pub closed spec fn same_flag(&self, other: &CancellationToken) -> bool {
        self.flag == other.flag
    }

    /// This token once `cancel` has been called through it: raised, and on
    /// the flag it was on.
    pub closed spec fn after_cancel(self) -> CancellationToken {
        CancellationToken { flag: self.flag, raised: true }
    }

    /// Create a new `CancellationToken`.
    pub fn new() -> (token: CancellationToken)
        ensures
            !token.raised(),
    {
        CancellationToken { flag: Arc::new(AtomicBool::new(false)), raised: false }
    }

    /// Has this token already been cancelled?
    ///
    /// A raised token answers `true`. Any other token answers what the flag
    /// shared with its clones holds at the time.
    pub fn cancelled(&self) -> (cancelled: bool)
        ensures
            self.raised() ==> cancelled,
    {
        cancelled_when(self.raised, self.flag.load(std::sync::atomic::Ordering::SeqCst))
    }

    /// Cancel the token, notifying anyone else listening that they should
    /// halt what they are doing.
    ///
    /// The contract fixes the token itself: it is raised and stays on its
    /// flag. That the flag is set for the clones to see is not stated.
    pub fn cancel(&mut self)
        ensures
            *final(self) == old(self).after_cancel(),
            final(self).raised(),
            final(self).same_flag(old(self)),
        opens_invariants none
        no_unwind
    {
        store(&self.flag, true);
        self.raised = true;
    }

    /// `Err(Cancelled)` once the token has been cancelled, for a task body
    /// that wants to return early with `?`.
    pub fn is_done(&self) -> (done: Result<(), Cancelled>)
        ensures
            self.raised() ==> done is Err,
    {
        done_when(self.cancelled())
    }
}

/// A token through which `cancel` has been called is raised and on the
/// flag it was on, and calling `cancel` on a raised token leaves it exactly
/// as it is: nothing lowers a token again. This speaks of what the token
/// itself remembers, not of what the shared flag holds.
pub proof fn law_cancel_is_permanent(token: CancellationToken)
    ensures
        token.after_cancel().raised(),
        token.after_cancel().same_flag(&token),
        token.raised() ==> token.after_cancel() == token,
{
}

/// Being on one flag is an equivalence of tokens.
pub proof fn law_same_flag_is_an_equivalence(
    a: CancellationToken,
    b: CancellationToken,
    c: CancellationToken,
)
    ensures
        a.same_flag(&a),
        a.same_flag(&b) ==> b.same_flag(&a),
        a.same_flag(&b) && b.same_flag(&c) ==> a.same_flag(&c),
{
}

/// Calling `cancel` twice leaves the token as calling it once does, in
/// what the token itself remembers.
pub proof fn law_cancel_is_idempotent(token: CancellationToken)
    ensures
        token.after_cancel().after_cancel() == token.after_cancel(),
{
}

/// What `cancelled` answers for what the token remembers and what the
/// shared flag holds: either is enough.
pub fn cancelled_when(raised: bool, flag: bool) -> (cancelled: bool)
    ensures
        cancelled == (raised || flag),
{
    raised || flag
}

/// What `is_done` answers for an answer of `cancelled`.
pub fn done_when(cancelled: bool) -> (done: Result<(), Cancelled>)
    ensures
        done is Err <==> cancelled,
{
    if cancelled {
        Err(Cancelled)
    } else {
        Ok(())
    }
}

impl Clone for CancellationToken {
    /// A token on the same flag, as raised as this one.
    fn clone(&self) -> (token: CancellationToken)
        ensures
            token.raised() == self.raised(),
            token.same_flag(self),
    {
        CancellationToken { flag: Arc::clone(&self.flag), raised: self.raised }
    }
}

impl Default for CancellationToken {
    fn default() -> (token: CancellationToken)
        ensures
            !token.raised(),
    {
        CancellationToken::new()
    }
}

/// The worker's side of a spawned task: the task, a token on the flag of
/// its handle, and the sending end of the delivery channel.
pub struct Worker<K: Task> {
    task: K,
    token: CancellationToken,
    sender: Sender<Result<K::Output, Failure>>,
}

impl<K: Task> Worker<K> {
    /// The task that this worker runs.
    pub closed spec fn task(&self) -> K {
        self.task
    }

    /// The token that the task is run with.
    pub closed spec fn token(&self) -> CancellationToken {
        self.token
    }

    /// Whether the worker's token was raised when the worker was made.
    pub closed spec fn raised(&self) -> bool {
        self.token.raised()
    }

    /// Run the task on the worker's token and hand back what it returns:
    /// the result is one that the task's own `run` gives for that token.
    pub fn run(&self) -> (result: Result<K::Output, Failure>)
        ensures
            call_ensures(K::run, (&self.task(), &self.token()), result),
    {
        self.task.run(&self.token)
    }

    /// Deliver what the guarded run came to, once.
    pub fn deliver(self, reg: &mut LastError, outcome: Guarded<K::Output>)
        ensures
            final(reg)@ == register_after(old(reg)@, outcome),
    {
        let got = complete(reg, outcome);
        send(&self.sender, got);
    }
}

/// What is left in the register once an outcome has been completed: a
/// failure is handed on, so nothing is left of it.
pub open spec fn register_after<T>(before: Option<Failure>, outcome: Guarded<T>) -> Option<Failure> {
    if failure_of(outcome) is Some {
        None
    } else {
        before
    }
}

/// The result that a guarded run delivers: the value, or the failure that
/// the run came to, which is taken out of the register again.
pub fn complete<T>(reg: &mut LastError, outcome: Guarded<T>) -> (result: Result<T, Failure>)
    ensures
        final(reg)@ == register_after(old(reg)@, outcome),
        outcome matches Ok(Ok(v)) ==> result == Ok::<T, Failure>(v),
        failure_of(outcome) is Some ==> result is Err && result->Err_0@ == failure_of(
            outcome,
        ).unwrap(),
{
    let guarded = catch_panic(reg, outcome);
    task_result(reg, guarded)
}

/// Turn the answer of the panic guard into the result to deliver. On
/// failure the register is emptied, and what it held is the error in place
/// of the guard's own, so that a more specific failure staged during the
/// run is the one that travels with the result.
pub fn task_result<T>(reg: &mut LastError, guarded: Result<T, Failure>) -> (result: Result<
    T,
    Failure,
>)
    ensures
        match guarded {
            Ok(v) => result == Ok::<T, Failure>(v) && final(reg)@ == old(reg)@,
            Err(e) => final(reg)@ is None && result == Err::<T, Failure>(
                match old(reg)@ {
                    Some(staged) => staged,
                    None => e,
                },
            ),
        },
{
    match guarded {
        Ok(v) => Ok(v),
        Err(e) => {
            match take_last_error(reg) {
                Some(staged) => Err(staged),
                None => Err(e),
            }
        },
    }
}

/// What a handle holds once the channel has answered a poll.
pub fn settle<T>(polled: Polled<Result<T, Failure>>) -> (outcome: Option<Result<T, Failure>>)
    ensures
        outcome == settled(polled),
{
    match polled {
        Polled::Ready(result) => Some(result),
        Polled::Empty => None,
        Polled::Disconnected => Some(Err(Failure::Disconnected)),
    }
}

/// The outcome that an answer of the channel amounts to: none while the
/// worker is still running; a worker that hung up has failed.
pub open spec fn settled<T>(polled: Polled<Result<T, Failure>>) -> Option<Result<T, Failure>> {
    match polled {
        Polled::Ready(result) => Some(result),
        Polled::Empty => None,
        Polled::Disconnected => Some(Err(Failure::Disconnected)),
    }
}

/// The result of waiting: what was received, or a failure where the worker
/// hung up without delivering.
pub fn conclude<T>(received: Option<Result<T, Failure>>) -> (result: Result<T, Failure>)
    ensures
        result == match received {
            Some(r) => r,
            None => Err(Failure::Disconnected),
        },
{
    match received {
        Some(r) => r,
        None => Err(Failure::Disconnected),
    }
}

/// An opaque handle to some task which is running in the background.
#[verifier::reject_recursive_types(T)]
pub struct TaskHandle<T> {
    result: Receiver<Result<T, Failure>>,
    token: CancellationToken,
    outcome: Option<Result<T, Failure>>,
}

impl<T> TaskHandle<T> {
    /// The delivered result, once the handle has seen it.
    pub closed spec fn outcome(&self) -> Option<Result<T, Failure>> {
        self.outcome
    }

    /// The handle's token.
    pub closed spec fn token(&self) -> CancellationToken {
        self.token
    }

    /// Whether `cancel` has been called on this handle.
    pub closed spec fn cancel_requested(&self) -> bool {
        self.token.raised()
    }

    /// Spawn a `Task` in the background, returning a `TaskHandle` so you
    /// can cancel it or retrieve the result later on.
    ///
    /// `start` is handed the worker, once, and puts it on a thread of its
    /// own; the handle comes back at once.
    pub fn spawn<K, S>(task: K, start: S) -> (handle: TaskHandle<T>) where
        K: Task<Output = T>,
        S: FnOnce(Worker<K>),

        requires
            forall|worker: Worker<K>| start.requires((worker,)),
        ensures
            handle.outcome() is None,
            !handle.cancel_requested(),
            exists|worker: Worker<K>|
                worker.task() == task && !worker.raised() && worker.token().same_flag(
                    &handle.token(),
                ) && start.ensures((worker,), ()),
    {
        let (tx, rx) = channel();
        let cancel_tok = CancellationToken::new();
        let tok_2 = cancel_tok.clone();
        let worker = Worker { task, token: tok_2, sender: tx };
        let ghost handed = worker;
        start(worker);
        let handle = TaskHandle { result: rx, token: cancel_tok, outcome: None };
        assert(handed.task() == task && !handed.raised() && handed.token().same_flag(
            &handle.token(),
        ) && start.ensures((handed,), ()));
        handle
    }

    /// Check if the background task has finished.
    ///
    /// Once a result has been seen it stays: every later poll gives it
    /// again. A worker that hung up without delivering counts as failed.
    pub fn poll(&mut self) -> (polled: Option<&Result<T, Failure>>)
        ensures
            old(self).outcome() is Some ==> final(self).outcome() == old(self).outcome(),
            final(self).token() == old(self).token(),
            match polled {
                Some(result) => final(self).outcome() == Some(*result),
                None => final(self).outcome() is None,
            },
    {
        if self.outcome.is_none() {
            self.outcome = settle(try_recv(&self.result));
        }
        self.outcome.as_ref()
    }

    /// Block the current thread until the task has finished and returned a
    /// result. A result that a poll has seen is returned without waiting.
    pub fn wait(self) -> (result: Result<T, Failure>)
        ensures
            self.outcome() matches Some(seen) ==> result == seen,
    {
        let mut handle = self;
        match handle.outcome.take() {
            Some(seen) => seen,
            None => conclude(recv(&handle.result)),
        }
    }

    /// Cancel the background task.
    pub fn cancel(&mut self)
        ensures
            final(self).token() == old(self).token().after_cancel(),
            final(self).cancel_requested(),
            final(self).outcome() == old(self).outcome(),
    {
        self.token.cancel();
    }

    /// Has cancellation been requested?
    pub fn cancelled(&self) -> (cancelled: bool)
        ensures
            self.cancel_requested() ==> cancelled,
    {
        self.token.cancelled()
    }
}

impl<T> Drop for TaskHandle<T> {
    /// A handle that goes away cancels its task, so that the worker is not
    /// left running for nobody.
    fn drop(&mut self)
        ensures
            final(self).token() == old(self).token().after_cancel(),
            final(self).cancel_requested(),
            final(self).outcome() == old(self).outcome(),
        opens_invariants none
        no_unwind
    {
        self.token.cancel();
    }
}

} // verus!
