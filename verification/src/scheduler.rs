//! The attempt scheduler: the data model of one probe attempt, the message
//! type shared by workers and the key listener, and the scheduling state
//! (queue, pause gate, worker count, in-flight counter).

use vstd::prelude::*;

verus! {

/// An operator command, one per keystroke.
#[derive(Clone, Copy, PartialEq, Eq, Structural, Debug)]
pub enum Key {
    /// `h`: show the help text.
    H,
    /// `p`: pause dispatch.
    P,
    /// `r`: resume dispatch.
    R,
    /// `+`: one more worker.
    Plus,
    /// `-`: one worker fewer (floor of one).
    Minus,
}

/// Why a probe failed, as reported by the probe engine (network, protocol
/// or decode trouble). Terminal only for the attempt, never for the run.
#[derive(Debug)]
pub struct ProbeError {
    pub message: String,
}

/// What the scheduler knows of a probe script: a handle under which the
/// embedding process finds the loaded script, and the human-readable
/// description used in logs and reports.
#[derive(Debug)]
pub struct Script {
    pub id: usize,
    pub descr: String,
}

/// One (user, password, script) probe unit with a bounded retry budget.
#[derive(Debug)]
pub struct Attempt {
    pub user: String,
    pub password: String,
    pub script: Script,
    pub ttl: u8,
}

impl Attempt {
    /// A fresh attempt: the retry budget always starts at 5.
    pub fn new(user: &String, password: &String, script: &Script) -> (a: Attempt)
        ensures
            a.user == *user,
            a.password == *password,
            a.script == *script,
            a.ttl == 5,
    {
        Attempt {
            user: user.clone(),
            password: password.clone(),
            script: Script { id: script.id, descr: script.descr.clone() },
            ttl: 5,
        }
    }

    /// Package the outcome the probe engine produced for this attempt as
    /// the message that travels back to the controller.
    pub fn run(self, outcome: Result<bool, ProbeError>) -> (m: Msg)
        ensures
            m == Msg::Attempt(self, outcome),
    {
        Msg::Attempt(self, outcome)
    }
}

/// A message on the shared channel: a finished attempt with its outcome,
/// or an operator key command. The controller tells the two apart by the
/// tag alone, never by the producer.
#[derive(Debug)]
pub enum Msg {
    Attempt(Attempt, Result<bool, ProbeError>),
    Key(Key),
}

/// The scheduling state: queued attempts, the desired worker count, the
/// pause gate, and the in-flight counter.
///
/// The execution resources behind it (worker threads, the channel, the
/// condition variable of the pause flag) live with the embedding process,
/// which drives this state through the methods below: `run` to submit,
/// `next_attempt` when a worker asks for work, `recv` when a message leaves
/// the channel.
pub struct Scheduler {
    pub queue: Vec<Attempt>,
    pub num_threads: usize,
    pub inflight: usize,
    pub paused: bool,
}

impl Scheduler {
    /// Structural invariant: at least one worker, and every queued attempt
    /// still has retry budget.
    pub open spec fn wf(self) -> bool {
        &&& self.num_threads >= 1
        &&& forall|i: int| 0 <= i < self.queue@.len() ==> (#[trigger] self.queue@[i]).ttl >= 1
    }

    /// A fresh scheduler starts paused: workers must not execute any
    /// attempt until `resume` is called.
    pub fn new(workers: usize) -> (s: Scheduler)
        requires
            workers >= 1,
        ensures
            s.queue@.len() == 0,
            s.num_threads == workers,
            s.inflight == 0,
            s.paused,
            s.wf(),
    {
        Scheduler { queue: Vec::new(), num_threads: workers, inflight: 0, paused: true }
    }

    /// Pause dispatch: workers about to start an attempt will block;
    /// attempts already executing are unaffected.
    pub fn pause(&mut self)
        ensures
            final(self).paused,
            final(self).queue@ == old(self).queue@,
            final(self).num_threads == old(self).num_threads,
            final(self).inflight == old(self).inflight,
    {
        self.paused = true;
    }

    /// Resume dispatch: queued and newly submitted attempts proceed.
    pub fn resume(&mut self)
        ensures
            !final(self).paused,
            final(self).queue@ == old(self).queue@,
            final(self).num_threads == old(self).num_threads,
            final(self).inflight == old(self).inflight,
    {
        self.paused = false;
    }

    /// Raise the desired worker count by exactly one and return the new
    /// count.
    pub fn incr(&mut self) -> (n: usize)
        requires
            old(self).num_threads < usize::MAX,
        ensures
            final(self).num_threads == old(self).num_threads + 1,
            n == final(self).num_threads,
            final(self).queue@ == old(self).queue@,
            final(self).inflight == old(self).inflight,
            final(self).paused == old(self).paused,
    {
        self.num_threads = self.num_threads + 1;
        self.num_threads
    }

    /// Lower the desired worker count by exactly one, but never below one
    /// worker, and return the new count.
    pub fn decr(&mut self) -> (n: usize)
        requires
            old(self).num_threads >= 1,
        ensures
            old(self).num_threads == 1 ==> final(self).num_threads == 1,
            old(self).num_threads > 1 ==> final(self).num_threads == old(self).num_threads - 1,
            final(self).num_threads >= 1,
            n == final(self).num_threads,
            final(self).queue@ == old(self).queue@,
            final(self).inflight == old(self).inflight,
            final(self).paused == old(self).paused,
    {
        if self.num_threads == 1 {
            return self.num_threads;
        }
        self.num_threads = self.num_threads - 1;
        self.num_threads
    }

    /// The worker count currently applied to the pool.
    pub fn max_count(&self) -> (n: usize)
        ensures
            n == self.num_threads,
    {
        self.num_threads
    }

    /// True while some submitted attempt has not been finally accounted
    /// for.
    pub fn has_work(&self) -> (b: bool)
        ensures
            b == (self.inflight > 0),
    {
        self.inflight > 0
    }

    /// Submit an attempt for asynchronous execution. Never blocks: the
    /// attempt joins the queue and the in-flight counter rises by one; a
    /// worker picks the attempt up later, subject to the pause gate.
    pub fn run(&mut self, attempt: Attempt)
        requires
            old(self).inflight < usize::MAX,
            attempt.ttl >= 1,
        ensures
            final(self).queue@ == old(self).queue@.push(attempt),
            final(self).inflight == old(self).inflight + 1,
            final(self).num_threads == old(self).num_threads,
            final(self).paused == old(self).paused,
            old(self).wf() ==> final(self).wf(),
    {
        self.queue.push(attempt);
        self.inflight = self.inflight + 1;
    }

    /// Hand the oldest queued attempt to a worker. Yields nothing while
    /// dispatch is paused: no attempt starts executing during a paused
    /// interval, and one submitted while paused runs only after the
    /// following `resume`.
    pub fn next_attempt(&mut self) -> (r: Option<Attempt>)
        ensures
            final(self).inflight == old(self).inflight,
            final(self).num_threads == old(self).num_threads,
            final(self).paused == old(self).paused,
            old(self).paused ==> r is None && final(self).queue@ == old(self).queue@,
            !old(self).paused && old(self).queue@.len() == 0 ==> r is None && final(self).queue@
                == old(self).queue@,
            !old(self).paused && old(self).queue@.len() > 0 ==> r == Some(old(self).queue@[0])
                && final(self).queue@ == old(self).queue@.drop_first(),
            old(self).wf() ==> final(self).wf(),
            old(self).wf() ==> (r matches Some(a) ==> a.ttl >= 1),
    {
        if self.paused {
            None
        } else if self.queue.len() == 0 {
            None
        } else {
            let a = self.queue.remove(0);
            proof {
                assert(old(self).queue@.remove(0) =~= old(self).queue@.drop_first());
            }
            Some(a)
        }
    }

    /// Account for one message taken off the channel. Only an attempt
    /// outcome corresponds to submitted work, so only those lower the
    /// in-flight counter; operator key commands travel on the same channel
    /// but leave the accounting untouched, so a burst of keystrokes can
    /// never end the run while attempts are still outstanding.
    pub fn recv(&mut self, msg: Msg) -> (r: Msg)
        requires
            msg matches Msg::Attempt(_, _) ==> old(self).inflight >= 1,
        ensures
            r == msg,
            final(self).queue@ == old(self).queue@,
            final(self).num_threads == old(self).num_threads,
            final(self).paused == old(self).paused,
            msg matches Msg::Attempt(_, _) ==> final(self).inflight == old(self).inflight - 1,
            msg matches Msg::Key(_) ==> final(self).inflight == old(self).inflight,
    {
        let is_attempt = match &msg {
            Msg::Attempt(_, _) => true,
            Msg::Key(_) => false,
        };
        if is_attempt {
            self.inflight = self.inflight - 1;
        }
        msg
    }
}

} // verus!
