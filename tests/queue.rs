use std::collections::{HashMap, VecDeque};

use rjq::job::{Job, Outcome};
use rjq::queue::{Lookup, Queue, QueueError};
use rjq::status::Status;
use rjq::worker::{Action, Event, Worker};

/// An in-memory stand-in for the store, with a clock that only sleeps move.
struct Sim {
    records: HashMap<String, Job>,
    lists: HashMap<String, VecDeque<String>>,
    now_ms: u64,
}

impl Sim {
    fn new() -> Sim {
        Sim { records: HashMap::new(), lists: HashMap::new(), now_ms: 0 }
    }

    fn drop_list(&mut self, q: &Queue) {
        self.lists.remove(&q.uuids_key());
    }

    fn enqueue(&mut self, q: &Queue, args: Vec<String>) -> String {
        let job = q.new_job(args);
        let id = job.uuid.clone();
        self.records.insert(q.job_key(&id), job);
        self.lists.entry(q.uuids_key()).or_default().push_back(id.clone());
        id
    }

    fn lookup(&self, q: &Queue, id: &str) -> Lookup {
        match self.records.get(&q.job_key(id)) {
            Some(j) => Lookup::Found(j.copy()),
            None => Lookup::Missing,
        }
    }

    fn status(&self, q: &Queue, id: &str) -> Result<Status, QueueError> {
        q.status_of(self.lookup(q, id))
    }

    fn result(&self, q: &Queue, id: &str) -> Result<Option<String>, QueueError> {
        q.result_of(self.lookup(q, id))
    }

    fn expire(&mut self, q: &Queue, id: &str) {
        self.records.remove(&q.job_key(id));
    }

    /// Runs the worker loop; processing of each job takes `runtime_ms` and
    /// then reports what `fun` returns. Returns the final action and the
    /// writes made.
    fn work(
        &mut self,
        q: &Queue,
        mut w: Worker,
        fun: fn(&str, &[String]) -> Result<String, String>,
        runtime_ms: u64,
    ) -> (Action, Vec<(String, Status, usize)>) {
        let mut writes = Vec::new();
        let mut action = w.begin();
        let mut started_at = 0u64;
        let mut pending: Option<Outcome> = None;
        for _ in 0..10_000 {
            let event = match &action {
                Action::Pop { .. } => {
                    let id = self.lists.get_mut(&q.uuids_key()).and_then(|l| l.pop_front());
                    if id.is_none() && w.infinite {
                        return (action, writes);
                    }
                    Event::Popped(id)
                }
                Action::Load { id } => Event::Loaded(self.lookup(q, id)),
                Action::Start { id, job, ttl } => {
                    writes.push((id.clone(), job.status, *ttl));
                    self.records.insert(q.job_key(id), job.copy());
                    started_at = self.now_ms;
                    pending = Some(match fun(id, &job.args) {
                        Ok(r) => Outcome::Finished(r),
                        Err(_) => Outcome::Failed,
                    });
                    Event::Started
                }
                Action::Check => {
                    if self.now_ms - started_at >= runtime_ms {
                        Event::Checked(pending.take())
                    } else {
                        Event::Checked(None)
                    }
                }
                Action::Sleep { millis } => {
                    self.now_ms += millis;
                    Event::Slept
                }
                Action::Persist { id, job, ttl } => {
                    writes.push((id.clone(), job.status, *ttl));
                    self.records.insert(q.job_key(id), job.copy());
                    Event::Persisted
                }
                Action::Abort | Action::Stop | Action::Fail { .. } => return (action, writes),
            };
            action = w.step(event);
        }
        panic!("worker loop did not end");
    }
}

fn fn_ok(_: &str, _: &[String]) -> Result<String, String> {
    Ok("ok".to_string())
}

fn fn_err(_: &str, _: &[String]) -> Result<String, String> {
    Err("err".to_string())
}

fn echo(id: &str, args: &[String]) -> Result<String, String> {
    Ok(format!("{} {}", id, args.join(" ")))
}

fn worker(wait: usize, timeout: usize, freq: usize, expire: usize, fall: bool, infinite: bool) -> Worker {
    Worker::new(wait, timeout, freq, expire, fall, infinite).unwrap()
}

#[test]
fn test_job_queued() {
    let queue = Queue::new("redis://localhost/", "test-queued");
    let mut sim = Sim::new();
    sim.drop_list(&queue);

    let uuid = sim.enqueue(&queue, vec![]);

    let status = sim.status(&queue, &uuid).unwrap();
    assert!(status == Status::QUEUED);
}

#[test]
#[should_panic]
fn test_job_expired() {
    let queue = Queue::new("redis://localhost/", "test-expired");
    let mut sim = Sim::new();
    sim.drop_list(&queue);

    let uuid = sim.enqueue(&queue, vec![]);
    sim.expire(&queue, &uuid);

    sim.status(&queue, &uuid).unwrap();
}

#[test]
fn test_job_finished() {
    let queue = Queue::new("redis://localhost/", "test-finished");
    let mut sim = Sim::new();
    sim.drop_list(&queue);

    let uuid = sim.enqueue(&queue, vec![]);
    let (last, _) = sim.work(&queue, worker(1, 5, 1, 5, false, false), fn_ok, 1000);
    assert!(matches!(last, Action::Stop));

    let status = sim.status(&queue, &uuid).unwrap();
    assert!(status == Status::FINISHED);
}

#[test]
fn test_job_result() {
    let queue = Queue::new("redis://localhost/", "test-result");
    let mut sim = Sim::new();
    sim.drop_list(&queue);

    let uuid = sim.enqueue(&queue, vec![]);
    let (last, _) = sim.work(&queue, worker(1, 5, 1, 5, false, false), fn_ok, 1000);
    assert!(matches!(last, Action::Stop));

    let res = sim.result(&queue, &uuid).unwrap();
    assert!(res == Some("ok".to_string()));
}

#[test]
fn test_job_failed() {
    let queue = Queue::new("redis://localhost/", "test-failed");
    let mut sim = Sim::new();
    sim.drop_list(&queue);

    let uuid = sim.enqueue(&queue, vec![]);
    let (last, _) = sim.work(&queue, worker(1, 5, 1, 5, false, false), fn_err, 1000);
    assert!(matches!(last, Action::Stop));

    let status = sim.status(&queue, &uuid).unwrap();
    assert!(status == Status::FAILED);
    assert_eq!(sim.result(&queue, &uuid), Ok(None));
}

#[test]
fn test_job_lost() {
    let queue = Queue::new("redis://localhost/", "test-lost");
    let mut sim = Sim::new();
    sim.drop_list(&queue);

    let uuid = sim.enqueue(&queue, vec![]);
    let (last, _) = sim.work(&queue, worker(1, 5, 1, 5, false, false), fn_ok, 10000);
    assert!(matches!(last, Action::Stop));

    let status = sim.status(&queue, &uuid).unwrap();
    assert!(status == Status::LOST);
}

#[test]
fn drained_queue_all_finished_with_echo() {
    let queue = Queue::new("redis://localhost/", "rjq");
    let mut sim = Sim::new();
    let ids: Vec<String> = (0..3).map(|i| sim.enqueue(&queue, vec![format!("a{}", i)])).collect();
    let (last, writes) = sim.work(&queue, worker(1, 5, 10, 5, false, true), echo, 1000);
    assert!(matches!(last, Action::Pop { wait: 1 }));
    assert_eq!(writes.len(), 6);
    for (i, id) in ids.iter().enumerate() {
        assert_eq!(sim.status(&queue, id), Ok(Status::FINISHED));
        assert_eq!(sim.result(&queue, id), Ok(Some(format!("{} a{}", id, i))));
    }
    assert!(sim.lists[&queue.uuids_key()].is_empty());
}

#[test]
fn claim_and_final_writes_carry_their_ttls() {
    let queue = Queue::new("redis://localhost/", "ttl");
    let mut sim = Sim::new();
    let id = sim.enqueue(&queue, vec![]);
    let (last, writes) = sim.work(&queue, worker(1, 5, 1, 30, false, false), fn_ok, 1000);
    assert!(matches!(last, Action::Stop));
    assert_eq!(writes, vec![(id.clone(), Status::RUNNING, 35), (id, Status::FINISHED, 30)]);
}

#[test]
fn lost_job_aborts_when_fall_is_set() {
    let queue = Queue::new("redis://localhost/", "fall");
    let mut sim = Sim::new();
    let id = sim.enqueue(&queue, vec![]);
    let (last, _) = sim.work(&queue, worker(1, 2, 10, 5, true, true), fn_ok, 5000);
    assert!(matches!(last, Action::Abort));
    assert_eq!(sim.status(&queue, &id), Ok(Status::LOST));
    assert_eq!(sim.result(&queue, &id), Ok(None));
}

#[test]
fn lost_job_counts_every_poll() {
    let mut w = worker(1, 2, 2, 5, false, false);
    assert_eq!(w.polls, 4);
    assert_eq!(w.pause_ms, 500);
    assert!(matches!(w.step(Event::Popped(Some("x".to_string()))), Action::Load { .. }));
    let job = Job::with_id("x".to_string(), vec![]);
    assert!(matches!(w.step(Event::Loaded(Lookup::Found(job))), Action::Start { ttl: 7, .. }));
    let mut a = w.step(Event::Started);
    let mut checks = 0;
    while matches!(a, Action::Check) {
        checks += 1;
        assert!(matches!(w.step(Event::Checked(None)), Action::Sleep { millis: 500 }));
        a = w.step(Event::Slept);
    }
    assert_eq!(checks, 4);
    match a {
        Action::Persist { id, job, ttl } => {
            assert_eq!(id, "x");
            assert_eq!(job.status, Status::LOST);
            assert_eq!(ttl, 5);
        }
        _ => panic!("expected the final write"),
    }
    assert!(matches!(w.step(Event::Persisted), Action::Stop));
}

#[test]
fn zero_frequency_gives_up_at_once() {
    let mut w = worker(1, 5, 0, 5, false, false);
    assert_eq!(w.polls, 0);
    w.step(Event::Popped(Some("x".to_string())));
    w.step(Event::Loaded(Lookup::Found(Job::with_id("x".to_string(), vec![]))));
    match w.step(Event::Started) {
        Action::Persist { job, .. } => assert_eq!(job.status, Status::LOST),
        _ => panic!("expected the final write"),
    }
}

#[test]
fn failed_outcome_clears_result() {
    let mut job = Job::with_id("x".to_string(), vec!["a".to_string()]);
    job.result = Some("stale".to_string());
    let failed = job.copy().settle(Outcome::Failed);
    assert_eq!(failed.status, Status::FAILED);
    assert_eq!(failed.result, None);
    assert_eq!(failed.args, vec!["a".to_string()]);
    let done = job.claimed().settle(Outcome::Finished("r".to_string()));
    assert_eq!(done.status, Status::FINISHED);
    assert_eq!(done.result, Some("r".to_string()));
    assert_eq!(done.uuid, "x");
}

#[test]
fn missing_record_is_skipped() {
    let mut once = worker(1, 5, 1, 5, false, false);
    once.step(Event::Popped(Some("gone".to_string())));
    assert!(matches!(once.step(Event::Loaded(Lookup::Missing)), Action::Stop));
    let mut forever = worker(3, 5, 1, 5, false, true);
    forever.step(Event::Popped(Some("gone".to_string())));
    assert!(matches!(forever.step(Event::Loaded(Lookup::Missing)), Action::Pop { wait: 3 }));
}

#[test]
fn empty_pop_stops_or_waits_again() {
    let mut once = worker(1, 5, 1, 5, false, false);
    assert!(matches!(once.begin(), Action::Pop { wait: 1 }));
    assert!(matches!(once.step(Event::Popped(None)), Action::Stop));
    let mut forever = worker(2, 5, 1, 5, false, true);
    assert!(matches!(forever.step(Event::Popped(None)), Action::Pop { wait: 2 }));
}

#[test]
fn corrupt_record_fails_the_loop() {
    let mut w = worker(1, 5, 1, 5, false, true);
    w.step(Event::Popped(Some("x".to_string())));
    assert!(matches!(
        w.step(Event::Loaded(Lookup::Corrupt)),
        Action::Fail { error: QueueError::DecodeError }
    ));
}

#[test]
fn stray_event_ends_the_loop() {
    let mut w = worker(1, 5, 1, 5, false, true);
    assert!(matches!(w.step(Event::Persisted), Action::Stop));
    assert!(matches!(w.step(Event::Popped(None)), Action::Stop));
}

#[test]
fn worker_settings_that_overflow_are_refused() {
    assert!(Worker::new(1, usize::MAX, 2, 5, false, false).is_none());
    assert!(Worker::new(1, usize::MAX, 1, 1, false, false).is_none());
    let w = Worker::new(1, 5, 10, 30, false, true).unwrap();
    assert_eq!((w.polls, w.pause_ms, w.claim_ttl, w.expire), (50, 100, 35, 30));
}

#[test]
fn reads_report_missing_and_corrupt_records() {
    let queue = Queue::new("redis://localhost/", "reads");
    assert_eq!(queue.status_of(Lookup::Missing), Err(QueueError::NotFound));
    assert_eq!(queue.result_of(Lookup::Missing), Err(QueueError::NotFound));
    assert_eq!(queue.status_of(Lookup::Corrupt), Err(QueueError::DecodeError));
    assert_eq!(queue.result_of(Lookup::Corrupt), Err(QueueError::DecodeError));
}

#[test]
fn expired_job_result_is_not_found() {
    let queue = Queue::new("redis://localhost/", "expired");
    let mut sim = Sim::new();
    let id = sim.enqueue(&queue, vec![]);
    sim.expire(&queue, &id);
    assert_eq!(sim.result(&queue, &id), Err(QueueError::NotFound));
}

#[test]
fn keys_follow_the_layout() {
    let queue = Queue::new("redis://localhost/", "jobs");
    assert_eq!(queue.url(), "redis://localhost/");
    assert_eq!(queue.name(), "jobs");
    assert_eq!(queue.uuids_key(), "jobs:uuids");
    assert_eq!(queue.job_key("abc"), "jobs:abc");
}

#[test]
fn new_jobs_get_distinct_hyphenated_ids() {
    let queue = Queue::new("redis://localhost/", "ids");
    let a = queue.new_job(vec!["x".to_string()]);
    let b = queue.new_job(vec!["x".to_string()]);
    assert_eq!(a.uuid.len(), 36);
    for (i, c) in a.uuid.chars().enumerate() {
        if i == 8 || i == 13 || i == 18 || i == 23 {
            assert_eq!(c, '-');
        } else {
            assert!(c.is_ascii_digit() || ('a'..='f').contains(&c));
        }
    }
    assert_eq!(a.uuid.chars().nth(14), Some('4'));
    assert!(matches!(a.uuid.chars().nth(19), Some('8' | '9' | 'a' | 'b')));
    assert_ne!(a.uuid, b.uuid);
    assert_eq!(a.status, Status::QUEUED);
    assert_eq!(a.result, None);
    assert_eq!(a.args, vec!["x".to_string()]);
}

#[test]
fn drop_then_enqueue_leaves_one_id() {
    let queue = Queue::new("redis://localhost/", "dropq");
    let mut sim = Sim::new();
    sim.enqueue(&queue, vec![]);
    sim.enqueue(&queue, vec![]);
    sim.drop_list(&queue);
    let id = sim.enqueue(&queue, vec![]);
    let list: Vec<String> = sim.lists[&queue.uuids_key()].iter().cloned().collect();
    assert_eq!(list, vec![id]);
}

#[test]
fn repeated_status_reads_agree() {
    let queue = Queue::new("redis://localhost/", "again");
    let mut sim = Sim::new();
    let id = sim.enqueue(&queue, vec![]);
    assert_eq!(sim.status(&queue, &id), sim.status(&queue, &id));
    assert_eq!(sim.status(&queue, &id), Ok(Status::QUEUED));
    assert_eq!(sim.result(&queue, &id), Ok(None));
}

#[test]
fn lost_record_drops_a_stale_result() {
    let mut w = worker(1, 1, 1, 5, false, false);
    w.step(Event::Popped(Some("x".to_string())));
    let mut job = Job::with_id("x".to_string(), vec![]);
    job.result = Some("stale".to_string());
    w.step(Event::Loaded(Lookup::Found(job)));
    assert!(matches!(w.step(Event::Started), Action::Check));
    assert!(matches!(w.step(Event::Checked(None)), Action::Sleep { millis: 1000 }));
    match w.step(Event::Slept) {
        Action::Persist { job, ttl, .. } => {
            assert_eq!(job.status, Status::LOST);
            assert_eq!(job.result, None);
            assert_eq!(ttl, 5);
        }
        _ => panic!("expected the final write"),
    }
    assert!(matches!(w.step(Event::Checked(Some(Outcome::Finished("late".to_string())))), Action::Stop));
}
