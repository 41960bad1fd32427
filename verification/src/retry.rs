//! The uniform retry-loop protocol behind every blocking-style call.
//!
//! Each operation — accept, connect, read, write, recv_from, send_to — runs
//! the same loop: try the non-blocking OS call; on success or a real error
//! return at once; on would-block, clear the stale readiness flag, arm a
//! suspend guard, re-check the call once more to close the lost-wakeup
//! window, and only then suspend against the operation's deadline. On wake,
//! try again. Only the flag and the OS call differ between operations.
//!
//! The OS calls and the scheduler's park/unpark live in the runtime outside
//! this crate; the runtime reports each outcome here and performs the step
//! these functions decide. Would-block is fully absorbed by the loop and
//! never surfaced.

use vstd::prelude::*;

use crate::ready::ReadyFlag;
use crate::waiters::ReadyState;
use crate::waiters::SuspendGuard;
use crate::waiters::without_id;

verus! {

/// A failure surfaced to the caller of a socket operation.
#[derive(Clone, Copy, Debug, PartialEq, Eq, Structural)]
pub enum SockError {
    /// The operation's deadline elapsed. The resource stays registered and
    /// usable: a later attempt may succeed.
    TimedOut,
    /// Post-connect verification found a socket-level error; the stream
    /// should be discarded.
    ConnectionFailed,
    /// A real OS error, identified by its errno; propagated unchanged and
    /// never retried.
    Os(i32),
}

/// What one non-blocking OS attempt reported, as the runtime hands it in.
pub enum Attempt<T> {
    /// The call succeeded. A zero-length read (clean EOF) is reported here:
    /// it is a success, not a would-block condition.
    Done(T),
    /// The OS reported the resource not ready now.
    WouldBlock,
    /// A connect is in flight: treated exactly as would-block on Writable.
    InProgress,
    /// A real OS error, identified by its errno.
    Fail(i32),
}

impl<T> Attempt<T> {
    /// Whether this outcome sends the loop to the slow path.
    pub open spec fn blocks(self) -> bool {
        self is WouldBlock || self is InProgress
    }
}

/// What the runtime must do next with a suspended-wait candidate.
pub enum Step<T> {
    /// Hand this result to the caller; the loop is over.
    Return(Result<T, SockError>),
    /// Suspend the coroutine until its readiness flag is notified.
    Wait,
    /// Suspend the coroutine until the flag is notified or the absolute
    /// deadline passes, whichever is first.
    WaitUntil(u64),
}

/// Step 1-3 of the loop: classify the first non-blocking attempt.
/// A success (EOF included) or a real error ends the loop at once; a
/// would-block outcome — connect-in-progress included — returns nothing and
/// sends the caller to the slow path.
pub fn on_attempt<T>(a: Attempt<T>) -> (r: Option<Result<T, SockError>>)
    ensures
        match a {
            Attempt::Done(t) => r == Some(Result::<T, SockError>::Ok(t)),
            Attempt::Fail(code) => r == Some(Result::<T, SockError>::Err(SockError::Os(code))),
            Attempt::WouldBlock => r is None,
            Attempt::InProgress => r is None,
        },
{
    match a {
        Attempt::Done(t) => Some(Ok(t)),
        Attempt::Fail(code) => Some(Err(SockError::Os(code))),
        Attempt::WouldBlock => None,
        Attempt::InProgress => None,
    }
}

/// Step 4, first half: the OS said would-block, so the stale readiness flag
/// is cleared and the coroutine is armed as a waiter — *before* the recheck,
/// so a notification arriving from here on cannot be lost.
pub fn begin_wait(state: &mut ReadyState, waiter: u64, interest: ReadyFlag) -> (g: SuspendGuard)
    requires
        old(state).wf(),
        !old(state).registered(waiter),
    ensures
        final(state).wf(),
        final(state).registered(waiter),
        final(state).waiters@ == old(state).waiters@.push(
            crate::waiters::Waiter { id: waiter, interest },
        ),
        forall|k: ReadyFlag|
            final(state).flags.has(k) == (old(state).flags.has(k) && k != interest),
        g.armed,
        g.waiter == waiter,
{
    state.clear(interest);
    SuspendGuard::arm(state, waiter, interest)
}

/// Step 4, second half: decide on the rechecked attempt. A success or real
/// error disarms the guard and ends the loop — the wakeup that may already
/// be queued is then harmless. Still blocked: with no deadline, suspend
/// indefinitely; with a deadline still ahead, suspend until it; with a
/// deadline already passed, fail with `TimedOut` immediately, without
/// suspending. On every path that returns, the waiter registration is gone;
/// the guard stays armed exactly on the paths that suspend.
pub fn after_recheck<T>(
    a: Attempt<T>,
    state: &mut ReadyState,
    guard: &mut SuspendGuard,
    deadline: Option<u64>,
    now: u64,
) -> (s: Step<T>)
    requires
        old(state).wf(),
        old(guard).armed,
    ensures
        final(state).wf(),
        final(guard).waiter == old(guard).waiter,
        final(state).flags == old(state).flags,
        match a {
            Attempt::Done(t) => s == Step::<T>::Return(Result::<T, SockError>::Ok(t)),
            Attempt::Fail(code) => s == Step::<T>::Return(
                Result::<T, SockError>::Err(SockError::Os(code)),
            ),
            _ => match deadline {
                Some(d) => if d <= now {
                    s == Step::<T>::Return(Result::<T, SockError>::Err(SockError::TimedOut))
                } else {
                    s == Step::<T>::WaitUntil(d)
                },
                None => s == Step::<T>::Wait,
            },
        },
        s is Return ==> !final(guard).armed && !final(state).registered(old(guard).waiter)
            && final(state).waiters@ == without_id(old(state).waiters@, old(guard).waiter),
        !(s is Return) ==> final(guard).armed && *final(state) == *old(state) && *final(guard)
            == *old(guard) && a.blocks(),
        s is WaitUntil ==> s->WaitUntil_0 > now,
{
    match a {
        Attempt::Done(t) => {
            guard.disarm(state);
            Step::Return(Ok(t))
        },
        Attempt::Fail(code) => {
            guard.disarm(state);
            Step::Return(Err(SockError::Os(code)))
        },
        _ => {
            match deadline {
                Some(d) => {
                    if d <= now {
                        guard.disarm(state);
                        Step::Return(Err(SockError::TimedOut))
                    } else {
                        Step::WaitUntil(d)
                    }
                },
                None => Step::Wait,
            }
        },
    }
}

/// The coroutine resumed from its suspension. If the wait timed out, the
/// operation fails with `TimedOut`; the waiter entry is released either way,
/// and the readiness flags are untouched, so the resource remains usable for
/// a later attempt — a timeout is not terminal. A `None` result sends the
/// loop back to step 1.
pub fn after_wake(state: &mut ReadyState, guard: &mut SuspendGuard, timed_out: bool) -> (r:
    Option<SockError>)
    requires
        old(state).wf(),
    ensures
        final(state).wf(),
        !final(state).registered(old(guard).waiter),
        final(state).waiters@ == without_id(old(state).waiters@, old(guard).waiter),
        final(state).flags == old(state).flags,
        !final(guard).armed,
        final(guard).waiter == old(guard).waiter,
        r == if timed_out {
            Some(SockError::TimedOut)
        } else {
            None::<SockError>
        },
{
    guard.disarm(state);
    if timed_out {
        Some(SockError::TimedOut)
    } else {
        None
    }
}

/// One whole slow-path pass, from the would-block observation to its
/// outcome: clear the stale flag, arm the guard, judge the recheck, and —
/// where the runtime's wait primitive is a plain call, as in a test harness
/// — judge the wake as well. A runtime with a real scheduler calls the three
/// steps separately around its park; this composition proves they fit: a
/// deadline already past fails with `TimedOut` before any suspension, an
/// elapsed wait fails with `TimedOut`, a genuine wakeup sends the loop back
/// to the fast path, and on *every* outcome the waiter registration is gone,
/// every other waiter is untouched, and the readiness flags lose only the
/// one stale flag — the resource stays usable, so a timeout is not terminal.
pub fn slow_path_pass<T>(
    recheck: Attempt<T>,
    state: &mut ReadyState,
    waiter: u64,
    interest: ReadyFlag,
    deadline: Option<u64>,
    now: u64,
    wake_timed_out: bool,
) -> (outcome: Option<Result<T, SockError>>)
    requires
        old(state).wf(),
        !old(state).registered(waiter),
        deadline is None ==> !wake_timed_out,
    ensures
        final(state).wf(),
        !final(state).registered(waiter),
        final(state).waiters@ == without_id(old(state).waiters@, waiter),
        forall|k: ReadyFlag|
            final(state).flags.has(k) == (old(state).flags.has(k) && k != interest),
        match recheck {
            Attempt::Done(t) => outcome == Some(Result::<T, SockError>::Ok(t)),
            Attempt::Fail(code) => outcome == Some(
                Result::<T, SockError>::Err(SockError::Os(code)),
            ),
            _ => match deadline {
                Some(d) => if d <= now || wake_timed_out {
                    outcome == Some(Result::<T, SockError>::Err(SockError::TimedOut))
                } else {
                    outcome is None
                },
                None => outcome is None,
            },
        },
{
    let ghost ws0 = state.waiters@;
    let mut guard = begin_wait(state, waiter, interest);
    proof {
        assert(state.waiters@.drop_last() =~= ws0);
        assert(without_id(state.waiters@, waiter) =~= without_id(ws0, waiter));
    }
    let step = after_recheck(recheck, state, &mut guard, deadline, now);
    match step {
        Step::Return(r) => Some(r),
        Step::Wait => {
            match after_wake(state, &mut guard, wake_timed_out) {
                Some(e) => Some(Err(e)),
                None => None,
            }
        },
        Step::WaitUntil(_) => {
            match after_wake(state, &mut guard, wake_timed_out) {
                Some(e) => Some(Err(e)),
                None => None,
            }
        },
    }
}

/// What the OS and scheduler reported during one round of the retry loop:
/// the first attempt's outcome, the recheck's outcome, and — if the round
/// got as far as suspending — whether the wait expired.
pub struct Round<T> {
    pub attempt: Attempt<T>,
    pub recheck: Attempt<T>,
    pub wake_timed_out: bool,
}

/// What one round of the loop concludes: a result for the caller, or
/// `None` — the round absorbed a would-block and the loop goes around.
pub open spec fn round_outcome<T>(r: Round<T>, deadline: Option<u64>, now: u64) -> Option<
    Result<T, SockError>,
> {
    match r.attempt {
        Attempt::Done(t) => Some(Result::<T, SockError>::Ok(t)),
        Attempt::Fail(code) => Some(Result::<T, SockError>::Err(SockError::Os(code))),
        _ => match r.recheck {
            Attempt::Done(t) => Some(Result::<T, SockError>::Ok(t)),
            Attempt::Fail(code) => Some(Result::<T, SockError>::Err(SockError::Os(code))),
            _ => match deadline {
                Some(d) => if d <= now || r.wake_timed_out {
                    Some(Result::<T, SockError>::Err(SockError::TimedOut))
                } else {
                    None
                },
                None => None,
            },
        },
    }
}

/// The loop's verdict on a whole run: the first round that concludes
/// decides, every earlier round having been absorbed.
pub open spec fn script_outcome<T>(rounds: Seq<Round<T>>, deadline: Option<u64>, now: u64) -> Option<
    Result<T, SockError>,
>
    decreases rounds.len(),
{
    if rounds.len() == 0 {
        None
    } else {
        match round_outcome(rounds.first(), deadline, now) {
            Some(r) => Some(r),
            None => script_outcome(rounds.drop_first(), deadline, now),
        }
    }
}

/// The complete retry loop, run against what the OS and scheduler reported
/// round by round: try, and on would-block arm, recheck, suspend under the
/// deadline, wake, and go around. The result is exactly the loop's verdict
/// on those reports: the first success or real OS error is returned
/// unchanged and nothing after it is ever attempted; every would-block is
/// absorbed and never surfaced; an expired deadline — or one already past —
/// surfaces as `TimedOut`; and a run the reports never conclude (`None`)
/// leaves the loop still waiting, with the coroutine deregistered and the
/// state well-formed either way.
#[verifier::loop_isolation(false)]
pub fn run_retry_loop<T>(
    rounds: Vec<Round<T>>,
    state: &mut ReadyState,
    waiter: u64,
    interest: ReadyFlag,
    deadline: Option<u64>,
    now: u64,
) -> (outcome: Option<Result<T, SockError>>)
    requires
        old(state).wf(),
        !old(state).registered(waiter),
        deadline is None ==> forall|i: int|
            0 <= i < rounds@.len() ==> !(#[trigger] rounds@[i]).wake_timed_out,
    ensures
        final(state).wf(),
        !final(state).registered(waiter),
        outcome == script_outcome(rounds@, deadline, now),
{
    let ghost orig = rounds@;
    let mut rounds = rounds;
    while rounds.len() > 0
        invariant
            state.wf(),
            !state.registered(waiter),
            script_outcome(rounds@, deadline, now) == script_outcome(orig, deadline, now),
            deadline is None ==> forall|i: int|
                0 <= i < rounds@.len() ==> !(#[trigger] rounds@[i]).wake_timed_out,
        decreases rounds@.len(),
    {
        let ghost prev = rounds@;
        let round = rounds.remove(0);
        proof {
            assert(rounds@ =~= prev.drop_first());
            assert(prev.first() == round);
        }
        let Round { attempt, recheck, wake_timed_out } = round;
        if let Some(res) = on_attempt(attempt) {
            proof {
                assert(round_outcome(round, deadline, now) == Some(res));
                assert(script_outcome(prev, deadline, now) == Some(res));
            }
            return Some(res);
        }
        match slow_path_pass(recheck, state, waiter, interest, deadline, now, wake_timed_out) {
            Some(res) => {
                proof {
                    assert(round_outcome(round, deadline, now) == Some(res));
                    assert(script_outcome(prev, deadline, now) == Some(res));
                }
                return Some(res);
            },
            None => {
                proof {
                    assert(round_outcome(round, deadline, now) is None);
                }
            },
        }
    }
    None
}

/// The lost-wakeup window, end to end: the first attempt saw would-block,
/// and the readiness notification arrives after the coroutine armed itself
/// but before its suspension primitive runs — the exact race that would
/// leave a carelessly-written wait suspended forever. Because arming
/// happens before the recheck, the notification provably includes the
/// armed waiter in its woken set: the scheduler makes the coroutine
/// runnable, its wait returns at once without expiry, and the loop retries
/// and observes the data. The wakeup cannot be lost.
pub fn wakeup_in_window_pass(state: &mut ReadyState, waiter: u64, interest: ReadyFlag) -> (woken:
    Vec<u64>)
    requires
        old(state).wf(),
        !old(state).registered(waiter),
    ensures
        final(state).wf(),
        !final(state).registered(waiter),
        woken@.contains(waiter),
        final(state).flags.has(interest),
{
    let mut guard = begin_wait(state, waiter, interest);
    let ghost armed = *state;
    // The reactor delivers readiness inside the arm/recheck window.
    let woken = state.notify(interest);
    proof {
        crate::waiters::lemma_armed_waiter_is_woken(
            armed,
            waiter,
            interest,
            armed.waiters@.len() - 1,
        );
    }
    // The woken coroutine's wait returns without expiry; the loop retries.
    let retry = after_wake(state, &mut guard, false);
    proof {
        assert(retry is None);
    }
    woken
}

/// Post-wake verification for `connect`: once the socket reports writable,
/// the connection must be confirmed by reading the socket's error slot, not
/// assumed. `so_error` is that slot as the OS reports it: `None` when the
/// connect succeeded, the errno otherwise.
pub fn verify_connect(so_error: Option<i32>) -> (r: Result<(), SockError>)
    ensures
        match so_error {
            None => r == Result::<(), SockError>::Ok(()),
            Some(_) => r == Result::<(), SockError>::Err(SockError::ConnectionFailed),
        },
{
    match so_error {
        None => Ok(()),
        Some(_) => Err(SockError::ConnectionFailed),
    }
}

/// A write of zero requested bytes is a no-op success, answered without
/// invoking the retry loop at all.
pub fn short_circuit_write(requested: usize) -> (r: Option<usize>)
    ensures
        r == if requested == 0 {
            Some(0usize)
        } else {
            None::<usize>
        },
{
    if requested == 0 {
        Some(0)
    } else {
        None
    }
}

} // verus!
