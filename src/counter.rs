//! A counter shared by `target` workers. Each worker, while holding the
//! counter's lock, adds one and notifies the waiting main flow when the new
//! value equals the target. Because the lock serialises the workers, every
//! run is, in lock order, the same sequence of critical sections; the
//! functions here hold the decisions of that sequence and the main flow's.
use vstd::prelude::*;

verus! {

/// The critical section of one worker on the value `count` it finds under
/// the lock: the value it leaves behind, and whether it notifies.
pub open spec fn critical_section(count: nat, target: nat) -> (nat, bool) {
    (count + 1, count + 1 == target)
}

/// What `k` serialised critical sections leave, starting from zero: the
/// counter's value and the number of notifications sent.
pub open spec fn run_from_zero(k: nat, target: nat) -> (nat, nat)
    decreases k,
{
    if k == 0 {
        (0, 0)
    } else {
        let before = run_from_zero((k - 1) as nat, target);
        let after = critical_section(before.0, target);
        (after.0, before.1 + if after.1 { 1nat } else { 0nat })
    }
}

/// One worker's turn while it holds the lock: add one to the counter and
/// report whether the new value is the target, in which case the worker
/// sends the notification before the lock is released.
pub fn increment_and_maybe_notify(counter: &mut u64, target: u64) -> (notify: bool)
    requires
        *old(counter) < u64::MAX,
    ensures
        (*final(counter) as nat, notify) == critical_section(*old(counter) as nat, target as nat),
{
    *counter = *counter + 1;
    *counter == target
}


/// After `k` serialised critical sections from zero the counter holds `k`,
/// whatever the target: no increment is lost and none is counted twice.
pub proof fn lemma_count_after(k: nat, target: nat)
    ensures
        run_from_zero(k, target).0 == k,
    decreases k,
{
    if k > 0 {
        lemma_count_after((k - 1) as nat, target);
    }
}

/// Before the critical section that reaches the target, nothing has been
/// sent; after it, exactly one notification has been.
pub proof fn lemma_sends_after(k: nat, target: nat)
    requires
        target >= 1,
    ensures
        run_from_zero(k, target).1 == if k >= target { 1nat } else { 0nat },
    decreases k,
{
    if k > 0 {
        lemma_sends_after((k - 1) as nat, target);
        lemma_count_after((k - 1) as nat, target);
    }
}

/// When all `n` workers have run, the counter holds exactly `n`.
pub proof fn lemma_final_count_is_worker_count(n: nat)
    ensures
        run_from_zero(n, n).0 == n,
{
    lemma_count_after(n, n);
}

/// With at least one worker, a run sends exactly one notification, so the
/// main flow's wait ends on it.
pub proof fn lemma_exactly_one_notification(n: nat)
    requires
        n >= 1,
    ensures
        run_from_zero(n, n).1 == 1,
{
    lemma_sends_after(n, n);
}

/// Of the `n` serialised critical sections, exactly one observes the value
/// `n` and notifies: the last one, which finds `n - 1`.
pub proof fn lemma_single_observer(n: nat)
    requires
        n >= 1,
    ensures
        forall|k: nat|
            k < n ==> (#[trigger] critical_section(run_from_zero(k, n).0, n)).1 == (k + 1 == n),
        forall|k: nat| k < n ==> #[trigger] run_from_zero(k, n).1 == 0,
        run_from_zero(n, n).1 == 1,
{
    assert forall|k: nat| k < n implies (#[trigger] critical_section(
        run_from_zero(k, n).0,
        n,
    )).1 == (k + 1 == n) by {
        lemma_count_after(k, n);
    }
    assert forall|k: nat| k < n implies #[trigger] run_from_zero(k, n).1 == 0 by {
        lemma_sends_after(k, n);
    }
    lemma_sends_after(n, n);
}

/// At every point of a run of `n` workers the counter lies between zero and
/// `n`, and it ends at `n`: neither over- nor under-counted.
pub proof fn lemma_count_within_bounds(n: nat, k: nat)
    requires
        k <= n,
    ensures
        run_from_zero(k, n).0 <= n,
        run_from_zero(k, n).0 == n <==> k == n,
        run_from_zero(n, n).0 == n,
{
    lemma_count_after(k, n);
    lemma_count_after(n, n);
}

/// The fatal failures of a run.
#[derive(Clone, Copy, Debug, PartialEq, Eq, Structural)]
pub enum SyncError {
    /// A previous holder of the lock ended while holding it.
    LockPoisoned,
    /// The notifier has no counterpart left to send to or receive from.
    ChannelClosed,
}

/// What the main flow's wait on the notifier ends with.
#[derive(Clone, Copy, Debug, PartialEq, Eq, Structural)]
pub enum Notice {
    /// A worker sent the notification.
    Signalled,
    /// Every sender is gone and nothing was sent.
    Closed,
}

/// One worker's whole turn, given whether acquiring the lock found it
/// poisoned: a poisoned lock is fatal and leaves the counter as it is;
/// otherwise the critical section runs and says whether to notify.
pub fn worker_turn(counter: &mut u64, poisoned: bool, target: u64) -> (r: Result<bool, SyncError>)
    requires
        poisoned || *old(counter) < u64::MAX,
    ensures
        poisoned ==> r == Err::<bool, SyncError>(SyncError::LockPoisoned) && *final(counter)
            == *old(counter),
        !poisoned ==> r is Ok && (*final(counter) as nat, r->Ok_0) == critical_section(
            *old(counter) as nat,
            target as nat,
        ),
{
    if poisoned {
        Err(SyncError::LockPoisoned)
    } else {
        Ok(increment_and_maybe_notify(counter, target))
    }
}

/// The main flow's decision once its wait on the notifier ends: a
/// notification completes the run, a closed channel is fatal.
pub fn receive_outcome(notice: Notice) -> (r: Result<(), SyncError>)
    ensures
        notice == Notice::Signalled <==> r is Ok,
        notice == Notice::Closed <==> r == Err::<(), SyncError>(SyncError::ChannelClosed),
{
    match notice {
        Notice::Signalled => Ok(()),
        Notice::Closed => Err(SyncError::ChannelClosed),
    }
}

/// What a run of the workers left: the counter's final value and how many
/// notifications were sent.
#[derive(Clone, Copy, Debug, PartialEq, Eq, Structural)]
pub struct RunReport {
    pub final_count: u64,
    pub sends: u64,
}

/// Runs the critical sections of `workers` workers in lock order, from a
/// counter of zero, and reports what they left.
pub fn serialized_run(workers: u64) -> (r: RunReport)
    ensures
        (r.final_count as nat, r.sends as nat) == run_from_zero(workers as nat, workers as nat),
        r.final_count == workers,
        r.sends == if workers >= 1 { 1u64 } else { 0u64 },
{
    let mut count: u64 = 0;
    let mut sends: u64 = 0;
    let mut done: u64 = 0;
    while done < workers
        invariant
            done <= workers,
            count == done,
            sends == if done == workers && workers >= 1 { 1u64 } else { 0u64 },
            (count as nat, sends as nat) == run_from_zero(done as nat, workers as nat),
        decreases workers - done,
    {
        let notify = increment_and_maybe_notify(&mut count, workers);
        if notify {
            sends = sends + 1;
        }
        done = done + 1;
    }
    RunReport { final_count: count, sends }
}

} // verus!
