use vstd::prelude::*;

verus! {

/// The lifecycle state of a mutator thread as the stop-the-world protocol
/// sees it.
#[derive(Clone, Copy, Debug, PartialEq, Eq, Structural)]
pub enum ThreadState {
    /// Executing managed or native code between safepoints.
    Running,
    /// Blocked outside managed code; the collector may treat it as stopped.
    Parked,
    /// Stopped at a safepoint, waiting on the barrier.
    Safepoint,
    /// Asked to stop at its next safepoint poll.
    SafepointRequested,
    /// Was parked when the stop request arrived.
    ParkedSafepoint,
}

impl ThreadState {
    pub fn in_safepoint(self) -> (r: bool)
        ensures
            r == self.in_safepoint_spec(),
    {
        match self {
            ThreadState::Safepoint | ThreadState::SafepointRequested
            | ThreadState::ParkedSafepoint => true,
            _ => false,
        }
    }

    /// One of the transitional stop-the-world states.
    pub open spec fn in_safepoint_spec(self) -> bool {
        self == ThreadState::Safepoint || self == ThreadState::SafepointRequested || self
            == ThreadState::ParkedSafepoint
    }
}

/// The per-thread data the protocol touches: the atomic state and the byte
/// every safepoint poll reads.
#[derive(Clone, Copy, Debug, PartialEq, Eq, Structural)]
pub struct DoraThread {
    pub state: ThreadState,
    pub safepoint_requested: bool,
}

/// Every thread has stopped: each is at a safepoint or was parked when the
/// request arrived.
pub open spec fn all_threads_stopped(threads: Seq<DoraThread>) -> bool {
    forall|i: int|
        0 <= i < threads.len() ==> (#[trigger] threads[i]).state == ThreadState::Safepoint
            || threads[i].state == ThreadState::ParkedSafepoint
}

/// Arms the barrier: sets every thread's safepoint-request byte and
/// advances `Running` threads to `SafepointRequested` and `Parked` threads
/// to `ParkedSafepoint`; threads already at a safepoint stay there.
pub fn stop_threads(threads: &mut Vec<DoraThread>)
    requires
        forall|i: int|
            0 <= i < old(threads)@.len() ==> (#[trigger] old(threads)@[i]).state
                == ThreadState::Running || old(threads)@[i].state == ThreadState::Parked || old(
                threads,
            )@[i].state == ThreadState::Safepoint,
    ensures
        final (threads)@.len() == old(threads)@.len(),
        forall|i: int|
            0 <= i < old(threads)@.len() ==> (#[trigger] final (threads)@[i]).safepoint_requested,
        forall|i: int|
            0 <= i < old(threads)@.len() ==> (#[trigger] final (threads)@[i]).state == (
            match old(threads)@[i].state {
                ThreadState::Running => ThreadState::SafepointRequested,
                ThreadState::Parked => ThreadState::ParkedSafepoint,
                other => other,
            }),
{
    let n = threads.len();
    let mut i: usize = 0;
    while i < n
        invariant
            n == threads@.len(),
            n == old(threads)@.len(),
            i <= n,
            forall|k: int| i <= k < n ==> #[trigger] threads@[k] == old(threads)@[k],
            forall|k: int|
                0 <= k < i ==> (#[trigger] threads@[k]).safepoint_requested && threads@[k].state
                    == (match old(threads)@[k].state {
                    ThreadState::Running => ThreadState::SafepointRequested,
                    ThreadState::Parked => ThreadState::ParkedSafepoint,
                    other => other,
                }),
        decreases n - i,
    {
        let state = threads[i].state;
        let new_state = match state {
            ThreadState::Running => ThreadState::SafepointRequested,
            ThreadState::Parked => ThreadState::ParkedSafepoint,
            other => other,
        };
        threads.set(i, DoraThread { state: new_state, safepoint_requested: true });
        i = i + 1;
    }
}

/// One thread answering the request: at its next poll it parks on the
/// barrier.
pub fn thread_reach_safepoint(thread: &mut DoraThread)
    requires
        old(thread).state == ThreadState::SafepointRequested,
    ensures
        final (thread).state == ThreadState::Safepoint,
        final (thread).safepoint_requested == old(thread).safepoint_requested,
{
    thread.state = ThreadState::Safepoint;
}

/// Whether the coordinator may run the operation: every thread has stopped.
pub fn check_all_threads_stopped(threads: &Vec<DoraThread>) -> (r: bool)
    ensures
        r == all_threads_stopped(threads@),
{
    let mut i: usize = 0;
    while i < threads.len()
        invariant
            i <= threads@.len(),
            forall|k: int|
                0 <= k < i ==> (#[trigger] threads@[k]).state == ThreadState::Safepoint
                    || threads@[k].state == ThreadState::ParkedSafepoint,
        decreases threads@.len() - i,
    {
        let state = threads[i].state;
        match state {
            ThreadState::Safepoint | ThreadState::ParkedSafepoint => {},
            _ => {
                return false;
            },
        }
        i = i + 1;
    }
    true
}

/// Disarms the barrier once the operation ran: clears every request byte
/// and parks every thread again.
pub fn resume_threads(threads: &mut Vec<DoraThread>)
    requires
        all_threads_stopped(old(threads)@),
    ensures
        final (threads)@.len() == old(threads)@.len(),
        forall|i: int|
            0 <= i < final (threads)@.len() ==> (#[trigger] final (threads)@[i]).state
                == ThreadState::Parked && !final (threads)@[i].safepoint_requested,
{
    let n = threads.len();
    let mut i: usize = 0;
    while i < n
        invariant
            n == threads@.len(),
            i <= n,
            forall|k: int|
                0 <= k < i ==> (#[trigger] threads@[k]).state == ThreadState::Parked
                    && !threads@[k].safepoint_requested,
        decreases n - i,
    {
        threads.set(i, DoraThread { state: ThreadState::Parked, safepoint_requested: false });
        i = i + 1;
    }
}

/// After a stop-the-world cycle ends with `resume_threads`, no thread is
/// left in a transitional safepoint state: every thread is `Running` or
/// `Parked`.
pub proof fn lemma_stop_the_world_leaves_no_safepoint(threads: Seq<DoraThread>)
    requires
        forall|i: int|
            0 <= i < threads.len() ==> (#[trigger] threads[i]).state == ThreadState::Parked && !(
            #[trigger] threads[i]).safepoint_requested,
    ensures
        forall|i: int|
            0 <= i < threads.len() ==> !(#[trigger] threads[i]).state.in_safepoint_spec(),
        forall|i: int|
            0 <= i < threads.len() ==> (#[trigger] threads[i]).state == ThreadState::Running || (
            #[trigger] threads[i]).state == ThreadState::Parked,
{
}

} // verus!
