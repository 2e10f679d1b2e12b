//! Child-process handle and the escalating termination procedure.
//!
//! The launcher supervises exactly one child process.  The handle here owns
//! the child's identifier and memoizes its exit status: the first successful
//! reap is cached, and the underlying wait call must never be issued again
//! for that identifier.  Termination is an escalation: deliver a graceful
//! signal, poll with a deadline, then deliver a forceful kill if the child
//! never reacts.
//!
//! The wait, signal and process-group system calls themselves are performed
//! by the platform layer outside this crate; it reports each observation as
//! a [`WaitEvent`] or drives the [`Terminator`] state machine, and every
//! decision taken on those observations is verified here.

use vstd::prelude::*;

use crate::error::Error;
use crate::status::HabExitStatus;

verus! {

/// Platform process identifier.
pub type Pid = i32;

/// The outcome of one non-blocking reap attempt, as observed by the
/// platform layer that issues the wait call.
#[derive(Clone, Copy, Debug, PartialEq, Eq)]
pub enum WaitEvent {
    /// The child has not changed state yet.
    StillRunning,
    /// The child reached a terminal state with this raw wait status.
    Reaped(u32),
    /// The wait call failed for a reason other than "not yet exited".
    Failed,
}

/// Handle to the supervised process: its identifier and the memoized exit
/// status of the first successful reap.
pub struct Child {
    pid: Pid,
    last_status: Option<u32>,
}

/// What one liveness poll does to the handle and returns, given the cached
/// status and, when nothing is cached yet, the reap observation.
pub closed spec fn status_spec(c: Child, wait: WaitEvent) -> (Child, Result<
    HabExitStatus,
    Error,
>) {
    match c.last_status {
        Option::Some(raw) => (c, Result::Ok(HabExitStatus { status: Option::Some(raw) })),
        Option::None => match wait {
            WaitEvent::StillRunning => (c, Result::Ok(HabExitStatus { status: Option::None })),
            WaitEvent::Reaped(raw) => (
                Child { pid: c.pid, last_status: Option::Some(raw) },
                Result::Ok(HabExitStatus { status: Option::Some(raw) }),
            ),
            WaitEvent::Failed => (c, Result::Err(Error::ProcessControl)),
        },
    }
}

impl Child {
    /// The identifier this handle supervises.
    pub closed spec fn pid_spec(&self) -> Pid {
        self.pid
    }

    /// The memoized raw wait status, once a reap has succeeded.
    pub closed spec fn cached(&self) -> Option<u32> {
        self.last_status
    }

    /// A fresh handle for a just-spawned child: nothing cached yet.
    pub fn new(pid: Pid) -> (c: Child)
        ensures
            c.pid_spec() == pid,
            c.cached() is None,
    {
        Child { pid, last_status: Option::None }
    }

    /// The child's process identifier.
    pub fn id(&self) -> (p: Pid)
        ensures
            p == self.pid_spec(),
    {
        self.pid
    }

    /// True exactly when a reap attempt is still owed: once a status is
    /// cached, the platform layer must not issue the wait call again.
    pub fn needs_reap(&self) -> (b: bool)
        ensures
            b == (self.cached() is None),
    {
        self.last_status.is_none()
    }

    /// Non-blocking liveness poll.  With a cached status the observation is
    /// ignored and the cached value is returned unchanged; otherwise the
    /// reap observation in `wait` is consumed: still running reports no
    /// status, a terminal status is cached and returned, and a failed wait
    /// call is a process-control error.
    pub fn status(&mut self, wait: WaitEvent) -> (r: Result<HabExitStatus, Error>)
        ensures
            status_spec(*old(self), wait) == (*final(self), r),
            final(self).pid_spec() == old(self).pid_spec(),
            old(self).cached() is Some ==> *final(self) == *old(self) && r == Result::Ok::<
                HabExitStatus,
                Error,
            >(HabExitStatus { status: old(self).cached() }),
            old(self).cached() is None ==> match wait {
                WaitEvent::StillRunning => *final(self) == *old(self) && r == Result::Ok::<
                    HabExitStatus,
                    Error,
                >(HabExitStatus { status: Option::None }),
                WaitEvent::Reaped(raw) => final(self).cached() == Option::Some(raw) && r
                    == Result::Ok::<HabExitStatus, Error>(
                    HabExitStatus { status: Option::Some(raw) },
                ),
                WaitEvent::Failed => *final(self) == *old(self) && r == Result::Err::<
                    HabExitStatus,
                    Error,
                >(Error::ProcessControl),
            },
    {
        match self.last_status {
            Option::Some(raw) => Result::Ok(HabExitStatus { status: Option::Some(raw) }),
            Option::None => match wait {
                WaitEvent::StillRunning => Result::Ok(HabExitStatus { status: Option::None }),
                WaitEvent::Reaped(raw) => {
                    self.last_status = Option::Some(raw);
                    Result::Ok(HabExitStatus { status: Option::Some(raw) })
                },
                WaitEvent::Failed => Result::Err(Error::ProcessControl),
            },
        }
    }
}

/// The two-valued outcome of one termination attempt.
#[derive(Clone, Copy, Debug, PartialEq, Eq)]
pub enum ShutdownMethod {
    /// The child reached a terminal status after the graceful signal.
    GracefulTermination,
    /// The deadline elapsed and the forceful kill was delivered.
    Killed,
}

/// The two signals the termination procedure may deliver, in escalation
/// order: a graceful request the child may intercept, then a forceful,
/// non-catchable kill.
#[derive(Clone, Copy, Debug, PartialEq, Eq)]
pub enum SignalKind {
    Graceful,
    Forceful,
}

/// Where the termination procedure stands.
#[derive(Clone, Copy, Debug, PartialEq, Eq)]
pub enum TermPhase {
    /// The graceful signal must now be delivered to the target.
    NeedGraceful,
    /// Waiting for a terminal status before the deadline.
    Waiting,
    /// The deadline elapsed first; the forceful kill must now be delivered.
    NeedForceful,
    /// The procedure finished with this outcome.
    Done(ShutdownMethod),
}

/// The escalating-termination state machine.  The platform layer performs
/// each requested delivery and reports back what it observed (delivery
/// made, target already gone, or a poll outcome); every decision between
/// those observations is taken here.
pub struct Terminator {
    /// Signal target: the negated pid when the child leads its own process
    /// group (so descendants are not orphaned), the pid alone otherwise.
    pub target: Pid,
    /// Whether the graceful signal has been delivered.
    pub graceful_sent: bool,
    /// Whether the forceful kill has been delivered.
    pub forceful_sent: bool,
    /// The current phase.
    pub phase: TermPhase,
}

/// The signal target for a child: the whole group (negated pid) when the
/// child is its own process-group leader, the pid alone otherwise.
pub open spec fn signal_target(pid: Pid, pgid: Pid) -> Pid {
    if pid == pgid {
        (0 - pid) as Pid
    } else {
        pid
    }
}

/// One poll round while waiting: a terminal status ends the procedure
/// gracefully; otherwise an elapsed deadline escalates to the forceful
/// kill; otherwise nothing changes.  A terminal status observed in the
/// same round as the deadline still counts as graceful.
pub open spec fn poll_step(t: Terminator, reaped: bool, deadline_passed: bool) -> Terminator {
    if reaped {
        Terminator { phase: TermPhase::Done(ShutdownMethod::GracefulTermination), ..t }
    } else if deadline_passed {
        Terminator { phase: TermPhase::NeedForceful, ..t }
    } else {
        t
    }
}

/// Recording a completed signal delivery: the graceful one starts the
/// bounded wait; the forceful one ends the procedure as `Killed` without
/// waiting further to confirm the kill.
pub open spec fn signal_sent_step(t: Terminator) -> Terminator {
    match t.phase {
        TermPhase::NeedGraceful => Terminator {
            graceful_sent: true,
            phase: TermPhase::Waiting,
            ..t
        },
        TermPhase::NeedForceful => Terminator {
            forceful_sent: true,
            phase: TermPhase::Done(ShutdownMethod::Killed),
            ..t
        },
        _ => t,
    }
}

/// Delivery reported "no such process": the target is already gone, which
/// is a terminal outcome, not an error.
pub open spec fn target_gone_step(t: Terminator) -> Terminator {
    match t.phase {
        TermPhase::NeedGraceful => Terminator {
            phase: TermPhase::Done(ShutdownMethod::GracefulTermination),
            ..t
        },
        TermPhase::NeedForceful => Terminator { phase: TermPhase::Done(ShutdownMethod::Killed), ..t },
        _ => t,
    }
}

/// A whole sequence of poll rounds, applied in order.
pub open spec fn run_polls(t: Terminator, polls: Seq<(bool, bool)>) -> Terminator
    decreases polls.len(),
{
    if polls.len() == 0 {
        t
    } else {
        run_polls(poll_step(t, polls[0].0, polls[0].1), polls.drop_first())
    }
}

impl Terminator {
    /// The state invariant: deliveries happen in escalation order, and each
    /// phase pins down which deliveries have already been made.
    pub open spec fn wf(&self) -> bool {
        &&& (self.forceful_sent ==> self.graceful_sent)
        &&& (self.phase is NeedGraceful ==> !self.graceful_sent && !self.forceful_sent)
        &&& (self.phase is Waiting ==> self.graceful_sent && !self.forceful_sent)
        &&& (self.phase is NeedForceful ==> self.graceful_sent && !self.forceful_sent)
    }

    /// The signal deliveries recorded so far, in order.
    pub open spec fn deliveries(&self) -> Seq<SignalKind> {
        if self.forceful_sent {
            seq![SignalKind::Graceful, SignalKind::Forceful]
        } else if self.graceful_sent {
            seq![SignalKind::Graceful]
        } else {
            Seq::empty()
        }
    }

    /// Begins a termination attempt for `pid`, whose process group is
    /// `pgid`: a group leader is signaled group-wide through the negated
    /// pid, any other child through its pid alone.
    pub fn new(pid: Pid, pgid: Pid) -> (t: Terminator)
        requires
            1 <= pid,
        ensures
            t == (Terminator {
                target: signal_target(pid, pgid),
                graceful_sent: false,
                forceful_sent: false,
                phase: TermPhase::NeedGraceful,
            }),
            t.wf(),
    {
        let target: Pid = if pid == pgid {
            -pid
        } else {
            pid
        };
        Terminator { target, graceful_sent: false, forceful_sent: false, phase: TermPhase::NeedGraceful }
    }

    /// The signal the platform layer must deliver now, if any.
    pub fn pending_signal(&self) -> (s: Option<SignalKind>)
        ensures
            s == match self.phase {
                TermPhase::NeedGraceful => Option::Some(SignalKind::Graceful),
                TermPhase::NeedForceful => Option::Some(SignalKind::Forceful),
                _ => Option::None::<SignalKind>,
            },
    {
        match self.phase {
            TermPhase::NeedGraceful => Option::Some(SignalKind::Graceful),
            TermPhase::NeedForceful => Option::Some(SignalKind::Forceful),
            _ => Option::None,
        }
    }

    /// Records that the pending signal was delivered.
    pub fn note_signal_sent(&mut self)
        requires
            old(self).phase is NeedGraceful || old(self).phase is NeedForceful,
        ensures
            *final(self) == signal_sent_step(*old(self)),
            old(self).wf() ==> final(self).wf(),
    {
        match self.phase {
            TermPhase::NeedGraceful => {
                self.graceful_sent = true;
                self.phase = TermPhase::Waiting;
            },
            TermPhase::NeedForceful => {
                self.forceful_sent = true;
                self.phase = TermPhase::Done(ShutdownMethod::Killed);
            },
            _ => {},
        }
    }

    /// Records that delivering the pending signal reported "no such
    /// process": the target is already gone, a terminal outcome.
    pub fn note_target_gone(&mut self)
        requires
            old(self).phase is NeedGraceful || old(self).phase is NeedForceful,
        ensures
            *final(self) == target_gone_step(*old(self)),
            old(self).wf() ==> final(self).wf(),
    {
        match self.phase {
            TermPhase::NeedGraceful => {
                self.phase = TermPhase::Done(ShutdownMethod::GracefulTermination);
            },
            TermPhase::NeedForceful => {
                self.phase = TermPhase::Done(ShutdownMethod::Killed);
            },
            _ => {},
        }
    }

    /// Records one poll round while waiting: whether a terminal status was
    /// observed, and whether the deadline has elapsed.
    pub fn note_poll(&mut self, reaped: bool, deadline_passed: bool)
        requires
            old(self).phase is Waiting,
        ensures
            *final(self) == poll_step(*old(self), reaped, deadline_passed),
            old(self).wf() ==> final(self).wf(),
    {
        if reaped {
            self.phase = TermPhase::Done(ShutdownMethod::GracefulTermination);
        } else if deadline_passed {
            self.phase = TermPhase::NeedForceful;
        }
    }

    /// The outcome, once the procedure has finished.
    pub fn outcome(&self) -> (o: Option<ShutdownMethod>)
        ensures
            o == match self.phase {
                TermPhase::Done(m) => Option::Some(m),
                _ => Option::None::<ShutdownMethod>,
            },
    {
        match self.phase {
            TermPhase::Done(m) => Option::Some(m),
            _ => Option::None,
        }
    }
}

/// A child that reaches a terminal status before the deadline ends the
/// procedure as `GracefulTermination`, with exactly one delivery made: the
/// graceful signal.
pub proof fn lemma_graceful_exit(t: Terminator, polls: Seq<(bool, bool)>)
    requires
        t.wf(),
        t.phase is Waiting,
        polls.len() >= 1,
        polls[polls.len() - 1].0,
        forall|j: int| 0 <= j < polls.len() - 1 ==> !polls[j].0 && !polls[j].1,
    ensures
        run_polls(t, polls).phase == TermPhase::Done(ShutdownMethod::GracefulTermination),
        run_polls(t, polls).deliveries() =~= seq![SignalKind::Graceful],
    decreases polls.len(),
{
    if polls.len() == 1 {
        assert(run_polls(poll_step(t, polls[0].0, polls[0].1), polls.drop_first()) == poll_step(
            t,
            polls[0].0,
            polls[0].1,
        ));
    } else {
        let rest = polls.drop_first();
        assert(!polls[0].0 && !polls[0].1);
        assert(poll_step(t, polls[0].0, polls[0].1) == t);
        assert(rest[rest.len() - 1].0);
        assert(forall|j: int| 0 <= j < rest.len() - 1 ==> !rest[j].0 && !rest[j].1);
        lemma_graceful_exit(t, rest);
    }
}

/// A child that never reacts: every poll sees it still running and the
/// deadline elapses, so the forceful kill becomes due; delivering it ends
/// the procedure as `Killed`, after exactly two deliveries, graceful then
/// forceful, in that order.
pub proof fn lemma_deadline_kill(t: Terminator, polls: Seq<(bool, bool)>)
    requires
        t.wf(),
        t.phase is Waiting,
        polls.len() >= 1,
        forall|j: int| 0 <= j < polls.len() ==> !polls[j].0,
        polls[polls.len() - 1].1,
        forall|j: int| 0 <= j < polls.len() - 1 ==> !polls[j].1,
    ensures
        run_polls(t, polls).phase is NeedForceful,
        run_polls(t, polls).deliveries() =~= seq![SignalKind::Graceful],
        signal_sent_step(run_polls(t, polls)).phase == TermPhase::Done(ShutdownMethod::Killed),
        signal_sent_step(run_polls(t, polls)).deliveries() =~= seq![
            SignalKind::Graceful,
            SignalKind::Forceful,
        ],
    decreases polls.len(),
{
    if polls.len() == 1 {
        assert(run_polls(poll_step(t, polls[0].0, polls[0].1), polls.drop_first()) == poll_step(
            t,
            polls[0].0,
            polls[0].1,
        ));
    } else {
        let rest = polls.drop_first();
        assert(!polls[0].0 && !polls[0].1);
        assert(poll_step(t, polls[0].0, polls[0].1) == t);
        assert(forall|j: int| 0 <= j < rest.len() ==> !rest[j].0);
        assert(rest[rest.len() - 1].1);
        assert(forall|j: int| 0 <= j < rest.len() - 1 ==> !rest[j].1);
        lemma_deadline_kill(t, rest);
    }
}

/// Polling is idempotent after the first successful reap: once an
/// observation has been cached, any later poll returns the identical value
/// and leaves the handle unchanged, whatever the later observation claims
/// — so the reap call is consumed at most once per child.
pub proof fn lemma_status_idempotent(c: Child, w1: WaitEvent, w2: WaitEvent)
    requires
        c.cached() is None,
        w1 is Reaped,
    ensures
        ({
            let (c1, r1) = status_spec(c, w1);
            let (c2, r2) = status_spec(c1, w2);
            c2 == c1 && r2 == r1 && c1.cached() is Some
        }),
{
}

} // verus!
