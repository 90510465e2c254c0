use vstd::prelude::*;

use crate::job::{lost_record, opt_view, settled, with_status, Job, JobView, Outcome};
use crate::queue::{Lookup, QueueError, Record};
use crate::status::Status;

verus! {

/// Where a worker stands within one iteration of its loop.
#[derive(Debug, Clone)]
pub enum Phase {
    /// Waiting to pop the next id off the pending list.
    Idle,
    /// An id was popped; its record is being read.
    Loading { id: String },
    /// The job was claimed and its processing started; `polls_left` checks of
    /// the completion signal remain.
    Supervising { id: String, job: Job, polls_left: usize },
    /// The final record is being written; `lost` tells whether it is `LOST`.
    Finishing { lost: bool },
    /// The loop has ended.
    Done,
}

/// What the surrounding loop reports back after carrying out an [`Action`].
#[derive(Debug, Clone)]
pub enum Event {
    /// The blocking pop returned this id, or none within the wait.
    Popped(Option<String>),
    /// The record of the popped id was read.
    Loaded(Lookup),
    /// The claimed record was written and processing was launched.
    Started,
    /// The completion signal was checked: an outcome, or none yet.
    Checked(Option<Outcome>),
    /// The pause between two checks is over.
    Slept,
    /// The final record was written.
    Persisted,
}

/// What the surrounding loop is to do next.
#[derive(Debug, Clone)]
pub enum Action {
    /// Pop an id off `<queue>:uuids`, waiting at most `wait` seconds.
    Pop { wait: usize },
    /// Read the record under `<queue>:<id>`.
    Load { id: String },
    /// Write `job` under `<queue>:<id>` with a time to live of `ttl` seconds,
    /// then launch processing of `id` with the job's arguments.
    Start { id: String, job: Job, ttl: usize },
    /// Check, without blocking, whether processing has reported back.
    Check,
    /// Pause for `millis` milliseconds.
    Sleep { millis: u64 },
    /// Write `job` under `<queue>:<id>` with a time to live of `ttl` seconds.
    Persist { id: String, job: Job, ttl: usize },
    /// A job was lost and the worker was told to fail hard on that.
    Abort,
    /// End the loop normally.
    Stop,
    /// End the loop with this error.
    Fail { error: QueueError },
}

/// The decisions of the worker loop, as a state machine driven by [`Event`]s.
#[derive(Debug, Clone)]
pub struct Worker {
    /// Seconds that one pop waits for an id.
    pub wait: usize,
    /// Checks of the completion signal before a job counts as lost:
    /// timeout times frequency.
    pub polls: usize,
    /// Pause between two checks, in milliseconds.
    pub pause_ms: u64,
    /// Time to live of a claimed record: timeout plus result expiry.
    pub claim_ttl: usize,
    /// Time to live of a final record.
    pub expire: usize,
    /// Whether a lost job ends the worker abnormally.
    pub fall: bool,
    /// Whether the loop goes on after one iteration.
    pub infinite: bool,
    pub phase: Phase,
}

/// The mathematical value of a [`Phase`].
pub enum PhaseView {
    Idle,
    Loading { id: Seq<char> },
    Supervising { id: Seq<char>, job: JobView, polls_left: usize },
    Finishing { lost: bool },
    Done,
}

impl View for Phase {
    type V = PhaseView;

    open spec fn view(&self) -> PhaseView {
        match self {
            Phase::Idle => PhaseView::Idle,
            Phase::Loading { id } => PhaseView::Loading { id: id@ },
            Phase::Supervising { id, job, polls_left } => PhaseView::Supervising {
                id: id@,
                job: job@,
                polls_left: *polls_left,
            },
            Phase::Finishing { lost } => PhaseView::Finishing { lost: *lost },
            Phase::Done => PhaseView::Done,
        }
    }
}

/// The mathematical value of an [`Event`].
pub enum EventView {
    Popped(Option<Seq<char>>),
    Loaded(Record),
    Started,
    Checked(Option<Outcome>),
    Slept,
    Persisted,
}

impl View for Event {
    type V = EventView;

    open spec fn view(&self) -> EventView {
        match self {
            Event::Popped(id) => EventView::Popped(opt_view(*id)),
            Event::Loaded(l) => EventView::Loaded(l@),
            Event::Started => EventView::Started,
            Event::Checked(o) => EventView::Checked(*o),
            Event::Slept => EventView::Slept,
            Event::Persisted => EventView::Persisted,
        }
    }
}

/// The mathematical value of an [`Action`].
pub enum ActionView {
    Pop { wait: usize },
    Load { id: Seq<char> },
    Start { id: Seq<char>, job: JobView, ttl: usize },
    Check,
    Sleep { millis: u64 },
    Persist { id: Seq<char>, job: JobView, ttl: usize },
    Abort,
    Stop,
    Fail { error: QueueError },
}

impl View for Action {
    type V = ActionView;

    open spec fn view(&self) -> ActionView {
        match self {
            Action::Pop { wait } => ActionView::Pop { wait: *wait },
            Action::Load { id } => ActionView::Load { id: id@ },
            Action::Start { id, job, ttl } => ActionView::Start { id: id@, job: job@, ttl: *ttl },
            Action::Check => ActionView::Check,
            Action::Sleep { millis } => ActionView::Sleep { millis: *millis },
            Action::Persist { id, job, ttl } => ActionView::Persist {
                id: id@,
                job: job@,
                ttl: *ttl,
            },
            Action::Abort => ActionView::Abort,
            Action::Stop => ActionView::Stop,
            Action::Fail { error } => ActionView::Fail { error: *error },
        }
    }
}

/// The mathematical value of a [`Worker`].
pub struct WorkerView {
    pub wait: usize,
    pub polls: usize,
    pub pause_ms: u64,
    pub claim_ttl: usize,
    pub expire: usize,
    pub fall: bool,
    pub infinite: bool,
    pub phase: PhaseView,
}

impl View for Worker {
    type V = WorkerView;

    open spec fn view(&self) -> WorkerView {
        WorkerView {
            wait: self.wait,
            polls: self.polls,
            pause_ms: self.pause_ms,
            claim_ttl: self.claim_ttl,
            expire: self.expire,
            fall: self.fall,
            infinite: self.infinite,
            phase: self.phase@,
        }
    }
}

/// The worker with its phase replaced.
pub open spec fn at(w: WorkerView, phase: PhaseView) -> WorkerView {
    WorkerView { phase, ..w }
}

/// The end of an iteration: pop again, or stop after one.
pub open spec fn again(w: WorkerView) -> (WorkerView, ActionView) {
    if w.infinite {
        (at(w, PhaseView::Idle), ActionView::Pop { wait: w.wait })
    } else {
        (at(w, PhaseView::Done), ActionView::Stop)
    }
}

/// Write the final record `job` of `id` with the result's time to live.
pub open spec fn finish(w: WorkerView, id: Seq<char>, job: JobView) -> (WorkerView, ActionView) {
    (
        at(w, PhaseView::Finishing { lost: job.status == Status::LOST }),
        ActionView::Persist { id, job, ttl: w.expire },
    )
}

/// An event that does not fit the phase ends the loop.
pub open spec fn stray(w: WorkerView) -> (WorkerView, ActionView) {
    (at(w, PhaseView::Done), ActionView::Stop)
}

/// The next state of the worker and its next action, after event `e`.
pub open spec fn next(w: WorkerView, e: EventView) -> (WorkerView, ActionView) {
    match w.phase {
        PhaseView::Idle => match e {
            EventView::Popped(Some(id)) => (at(w, PhaseView::Loading { id }), ActionView::Load { id }),
            EventView::Popped(None) => again(w),
            _ => stray(w),
        },
        PhaseView::Loading { id } => match e {
            EventView::Loaded(Record::Found(job)) => (
                at(
                    w,
                    PhaseView::Supervising {
                        id,
                        job: with_status(job, Status::RUNNING),
                        polls_left: w.polls,
                    },
                ),
                ActionView::Start { id, job: with_status(job, Status::RUNNING), ttl: w.claim_ttl },
            ),
            EventView::Loaded(Record::Missing) => again(w),
            EventView::Loaded(Record::Corrupt) => (
                at(w, PhaseView::Done),
                ActionView::Fail { error: QueueError::DecodeError },
            ),
            _ => stray(w),
        },
        PhaseView::Supervising { id, job, polls_left } => match e {
            EventView::Started | EventView::Slept => if polls_left > 0 {
                (w, ActionView::Check)
            } else {
                finish(w, id, lost_record(job))
            },
            EventView::Checked(Some(o)) => finish(w, id, settled(job, o)),
            EventView::Checked(None) => if polls_left > 0 {
                (
                    at(
                        w,
                        PhaseView::Supervising { id, job, polls_left: (polls_left - 1) as usize },
                    ),
                    ActionView::Sleep { millis: w.pause_ms },
                )
            } else {
                finish(w, id, lost_record(job))
            },
            _ => stray(w),
        },
        PhaseView::Finishing { lost } => match e {
            EventView::Persisted => if lost && w.fall {
                (at(w, PhaseView::Done), ActionView::Abort)
            } else {
                again(w)
            },
            _ => stray(w),
        },
        PhaseView::Done => (w, ActionView::Stop),
    }
}

impl Worker {
    /// A worker that pops with a wait of `wait` seconds, gives each job
    /// `timeout` seconds checked `freq` times a second, keeps final records
    /// `expire` seconds, fails hard on a lost job if `fall`, and goes on after
    /// one iteration if `infinite`.
    ///
    /// `None` where `timeout * freq` or `timeout + expire` does not fit in
    /// `usize`.
    pub fn new(
        wait: usize,
        timeout: usize,
        freq: usize,
        expire: usize,
        fall: bool,
        infinite: bool,
    ) -> (r: Option<Worker>)
        ensures
            r is None <==> timeout * freq > usize::MAX || timeout + expire > usize::MAX,
            r matches Some(w) ==> {
                &&& w.wait == wait
                &&& w.polls == timeout * freq
                &&& (freq > 0 ==> w.pause_ms as int == 1000int / (freq as int))
                &&& (freq == 0 ==> w.pause_ms == 0)
                &&& w.claim_ttl == timeout + expire
                &&& w.expire == expire
                &&& w.fall == fall
                &&& w.infinite == infinite
                &&& w.phase@ is Idle
            },
    {
        let polls = match timeout.checked_mul(freq) {
            Some(p) => p,
            None => return None,
        };
        let claim_ttl = match timeout.checked_add(expire) {
            Some(t) => t,
            None => return None,
        };
        let pause_ms: u64 = if freq > 0 {
            1000 / (freq as u64)
        } else {
            0
        };
        Some(Worker { wait, polls, pause_ms, claim_ttl, expire, fall, infinite, phase: Phase::Idle })
    }

    /// The first action of the loop: pop an id.
    pub fn begin(&self) -> (a: Action)
        ensures
            a@ == (ActionView::Pop { wait: self.wait }),
    {
        Action::Pop { wait: self.wait }
    }

    fn again(&mut self) -> (a: Action)
        ensures
            (final(self)@, a@) == again(old(self)@),
    {
        if self.infinite {
            self.phase = Phase::Idle;
            Action::Pop { wait: self.wait }
        } else {
            self.phase = Phase::Done;
            Action::Stop
        }
    }

    fn finish(&mut self, id: String, job: Job) -> (a: Action)
        ensures
            (final(self)@, a@) == finish(old(self)@, id@, job@),
    {
        self.phase = Phase::Finishing { lost: job.status == Status::LOST };
        Action::Persist { id, job, ttl: self.expire }
    }

    /// Takes in what the loop observed and decides what it does next.
    pub fn step(&mut self, e: Event) -> (a: Action)
        ensures
            (final(self)@, a@) == next(old(self)@, e@),
    {
        let mut phase = Phase::Done;
        std::mem::swap(&mut self.phase, &mut phase);
        match phase {
            Phase::Idle => match e {
                Event::Popped(Some(id)) => {
                    let load = Action::Load { id: id.clone() };
                    self.phase = Phase::Loading { id };
                    load
                },
                Event::Popped(None) => self.again(),
                _ => Action::Stop,
            },
            Phase::Loading { id } => match e {
                Event::Loaded(Lookup::Found(job)) => {
                    let job = job.claimed();
                    let start = Action::Start { id: id.clone(), job: job.copy(), ttl: self.claim_ttl };
                    self.phase = Phase::Supervising { id, job, polls_left: self.polls };
                    start
                },
                Event::Loaded(Lookup::Missing) => self.again(),
                Event::Loaded(Lookup::Corrupt) => Action::Fail { error: QueueError::DecodeError },
                _ => Action::Stop,
            },
            Phase::Supervising { id, job, polls_left } => match e {
                Event::Started | Event::Slept => {
                    if polls_left > 0 {
                        self.phase = Phase::Supervising { id, job, polls_left };
                        Action::Check
                    } else {
                        self.finish(id, job.lost())
                    }
                },
                Event::Checked(Some(o)) => self.finish(id, job.settle(o)),
                Event::Checked(None) => {
                    if polls_left > 0 {
                        self.phase = Phase::Supervising { id, job, polls_left: polls_left - 1 };
                        Action::Sleep { millis: self.pause_ms }
                    } else {
                        self.finish(id, job.lost())
                    }
                },
                _ => Action::Stop,
            },
            Phase::Finishing { lost } => match e {
                Event::Persisted => {
                    if lost && self.fall {
                        Action::Abort
                    } else {
                        self.again()
                    }
                },
                _ => Action::Stop,
            },
            Phase::Done => Action::Stop,
        }
    }
}

} // verus!
