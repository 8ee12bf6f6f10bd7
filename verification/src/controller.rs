//! The controller: the single consumer of the channel. It applies the
//! retry policy to finished attempts, keeps the terminal accounting, and
//! dispatches operator commands to the scheduler.

use vstd::prelude::*;

use crate::scheduler::Attempt;
use crate::scheduler::Key;
use crate::scheduler::Msg;
use crate::scheduler::ProbeError;
use crate::scheduler::Scheduler;
use crate::scheduler::Script;

verus! {

/// What the embedding process must do after a controller step: show the
/// help text, report a state change, record a valid finding, log a failed
/// probe. The controller has already updated its counters and the
/// scheduler; the directive only carries what is to be shown or written.
#[derive(Debug)]
pub enum Directive {
    /// Show the key bindings.
    Help,
    /// Dispatch is paused; tell the operator.
    Paused,
    /// Dispatch resumed; tell the operator.
    Resumed,
    /// The worker count changed to the carried value.
    Workers(usize),
    /// The attempt found a valid credential: write it to the report and
    /// advance the progress by one unit.
    Valid(Attempt),
    /// The probe completed but the credential is not valid: advance the
    /// progress by one unit.
    Rejected(Attempt),
    /// The probe failed and the attempt was resubmitted with one unit of
    /// retry budget spent: log the error, do not advance the progress.
    Retrying(Attempt, ProbeError),
    /// The probe failed and the retry budget is exhausted; the attempt is
    /// discarded: log the error and advance the progress by one unit.
    Expired(Attempt, ProbeError),
}

/// The attempt `a` after a failure: the same probe unit with one unit of
/// retry budget spent.
pub open spec fn decremented(a: Attempt) -> Attempt {
    Attempt { user: a.user, password: a.password, script: a.script, ttl: (a.ttl - 1) as u8 }
}

/// The controller's accounting of one run: how many attempts were
/// initially submitted and how each terminal disposition came out.
pub struct Controller {
    /// Attempts initially submitted (retries are not counted again).
    pub total: usize,
    /// Attempts whose probe found a valid credential.
    pub valid: usize,
    /// Resubmissions after a failure with budget remaining.
    pub retries: usize,
    /// Attempts discarded with their retry budget exhausted.
    pub expired: usize,
    /// Attempts that reached a terminal disposition: valid, rejected, or
    /// expired.
    pub completed: usize,
}

impl Controller {
    /// Accounting invariant tying the controller to the scheduler:
    /// attempts with a terminal disposition plus attempts still in flight
    /// make up exactly the initially submitted total, and each terminal
    /// disposition is counted at most once as valid or expired.
    pub open spec fn accounted(self, sched: Scheduler) -> bool {
        &&& self.completed + sched.inflight == self.total
        &&& self.valid + self.expired <= self.completed
    }

    /// A fresh controller for a run of `total` submitted attempts.
    pub fn new(total: usize) -> (c: Controller)
        ensures
            c.total == total,
            c.valid == 0,
            c.retries == 0,
            c.expired == 0,
            c.completed == 0,
    {
        Controller { total, valid: 0, retries: 0, expired: 0, completed: 0 }
    }

    /// Apply the controller policy to one received message.
    ///
    /// A key command goes to the scheduler and never touches the attempt
    /// accounting. An attempt outcome is terminal when the probe completed
    /// (valid or not) or when the budget ran out; a failure spends exactly
    /// one unit of retry budget, and the attempt is resubmitted exactly
    /// when budget remains after that.
    pub fn step(&mut self, sched: &mut Scheduler, msg: Msg) -> (d: Directive)
        requires
            old(sched).wf(),
            old(self).accounted(*old(sched)),
            msg matches Msg::Attempt(_, _) ==> old(sched).inflight >= 1 && old(self).completed
                < old(self).total,
            msg matches Msg::Attempt(a, o) ==> (o matches Err(_) ==> a.ttl >= 1 && old(self).retries < usize::MAX),
            msg == Msg::Key(Key::Plus) ==> old(sched).num_threads < usize::MAX,
        ensures
            final(sched).wf(),
            final(self).accounted(*final(sched)),
            final(self).total == old(self).total,
            final(self).completed >= old(self).completed,
            final(sched).inflight <= old(sched).inflight,
            msg matches Msg::Key(_) ==> *final(self) == *old(self) && final(sched).queue@ == old(sched).queue@ && final(sched).inflight == old(sched).inflight,
            msg == Msg::Key(Key::H) ==> final(sched).num_threads == old(sched).num_threads
                && final(sched).paused == old(sched).paused && d == Directive::Help,
            msg == Msg::Key(Key::P) ==> final(sched).paused && final(sched).num_threads == old(sched).num_threads && d == Directive::Paused,
            msg == Msg::Key(Key::R) ==> !final(sched).paused && final(sched).num_threads == old(sched).num_threads && d == Directive::Resumed,
            msg == Msg::Key(Key::Plus) ==> final(sched).paused == old(sched).paused && final(sched).num_threads == old(sched).num_threads + 1 && d == Directive::Workers(
                final(sched).num_threads,
            ),
            msg == Msg::Key(Key::Minus) ==> final(sched).paused == old(sched).paused && final(sched).num_threads == (if old(sched).num_threads == 1 {
                1int
            } else {
                old(sched).num_threads - 1
            }) && d == Directive::Workers(final(sched).num_threads),
            msg matches Msg::Attempt(a, o) ==> (o matches Ok(v) ==> final(sched).queue@ == old(sched).queue@ && final(sched).inflight == old(sched).inflight - 1 && final(sched).num_threads == old(sched).num_threads && final(sched).paused == old(sched).paused
                && final(self).completed == old(self).completed + 1 && final(self).retries == old(self).retries && final(self).expired == old(self).expired && final(self).valid == old(self).valid + (if v {
                1int
            } else {
                0int
            }) && d == (if v {
                Directive::Valid(a)
            } else {
                Directive::Rejected(a)
            })),
            msg matches Msg::Attempt(a, o) ==> (o matches Err(e) ==> (a.ttl > 1 ==> final(sched).queue@ == old(sched).queue@.push(decremented(a)) && final(sched).inflight == old(sched).inflight && final(sched).num_threads == old(sched).num_threads && final(sched).paused
                == old(sched).paused && final(self).valid == old(self).valid && final(self).expired
                == old(self).expired && final(self).completed == old(self).completed && final(self).retries == old(self).retries + 1 && d == Directive::Retrying(decremented(a), e))
                && (a.ttl == 1 ==> final(sched).queue@ == old(sched).queue@ && final(sched).inflight == old(sched).inflight - 1
                && final(sched).num_threads == old(sched).num_threads && final(sched).paused == old(sched).paused && final(self).valid == old(self).valid && final(self).retries == old(self).retries && final(self).completed == old(self).completed + 1 && final(self).expired
                == old(self).expired + 1 && d == Directive::Expired(decremented(a), e))),
    {
        let msg = sched.recv(msg);
        match msg {
            Msg::Key(k) => match k {
                Key::H => Directive::Help,
                Key::P => {
                    sched.pause();
                    Directive::Paused
                },
                Key::R => {
                    sched.resume();
                    Directive::Resumed
                },
                Key::Plus => {
                    let n = sched.incr();
                    Directive::Workers(n)
                },
                Key::Minus => {
                    let n = sched.decr();
                    Directive::Workers(n)
                },
            },
            Msg::Attempt(a, outcome) => match outcome {
                Ok(v) => {
                    self.completed = self.completed + 1;
                    if v {
                        self.valid = self.valid + 1;
                        Directive::Valid(a)
                    } else {
                        Directive::Rejected(a)
                    }
                },
                Err(e) => {
                    let a = Attempt {
                        user: a.user,
                        password: a.password,
                        script: a.script,
                        ttl: a.ttl - 1,
                    };
                    if a.ttl > 0 {
                        self.retries = self.retries + 1;
                        let requeued = Attempt {
                            user: a.user.clone(),
                            password: a.password.clone(),
                            script: Script { id: a.script.id, descr: a.script.descr.clone() },
                            ttl: a.ttl,
                        };
                        sched.run(requeued);
                        Directive::Retrying(a, e)
                    } else {
                        self.completed = self.completed + 1;
                        self.expired = self.expired + 1;
                        Directive::Expired(a, e)
                    }
                },
            },
        }
    }
}

/// Terminal accounting: when no work is left in flight, every initially
/// submitted attempt has reached a terminal disposition, and at most that
/// many valid findings and expiries were recorded.
pub proof fn lemma_all_terminal(c: Controller, s: Scheduler)
    requires
        c.accounted(s),
        s.inflight == 0,
    ensures
        c.completed == c.total,
        c.valid + c.expired <= c.total,
{
}

/// When every terminal disposition was a valid finding or an expiry (no
/// probe ever completed with an invalid credential), the two terminal
/// counters together account for exactly the initially submitted
/// attempts.
pub proof fn lemma_terminal_dispositions(c: Controller, s: Scheduler)
    requires
        c.accounted(s),
        s.inflight == 0,
        c.valid + c.expired == c.completed,
    ensures
        c.valid + c.expired == c.total,
{
}

/// There is work left exactly while some submitted attempt has not yet
/// reached a terminal disposition: the run ends at the one point where
/// the terminal count meets the submitted total.
pub proof fn lemma_has_work_iff_pending(c: Controller, s: Scheduler)
    requires
        c.accounted(s),
    ensures
        s.inflight > 0 <==> c.completed < c.total,
{
}

} // verus!
