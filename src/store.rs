use vstd::prelude::*;

use crate::job::{lost_record, queued, settled, with_status, JobView, Outcome};
use crate::queue::{job_key_of, result_in, status_in, uuids_key_of, QueueError, Record};
use crate::status::Status;
use crate::worker::{next, ActionView, EventView, PhaseView, WorkerView};

verus! {

/// The store as the protocol sees it: job records by key, each with the time
/// to live in seconds given at its last write, and lists of ids by key.
pub struct Store {
    pub records: Map<Seq<char>, (JobView, usize)>,
    pub lists: Map<Seq<char>, Seq<Seq<char>>>,
}

/// What reading `key` gives back.
pub open spec fn read(s: Store, key: Seq<char>) -> Record {
    if s.records.contains_key(key) {
        Record::Found(s.records[key].0)
    } else {
        Record::Missing
    }
}

/// The time to live that the last write of `key` gave it, if it is there.
pub open spec fn ttl(s: Store, key: Seq<char>) -> Option<usize> {
    if s.records.contains_key(key) {
        Some(s.records[key].1)
    } else {
        None
    }
}

/// The list under `key`; a missing list reads as empty.
pub open spec fn list(s: Store, key: Seq<char>) -> Seq<Seq<char>> {
    if s.lists.contains_key(key) {
        s.lists[key]
    } else {
        Seq::empty()
    }
}

/// `SET` of a record with a time to live of `secs` seconds.
pub open spec fn set(s: Store, key: Seq<char>, j: JobView, secs: usize) -> Store {
    Store { records: s.records.insert(key, (j, secs)), ..s }
}

/// The record under `key` reaches the end of its time to live.
pub open spec fn expire(s: Store, key: Seq<char>) -> Store {
    Store { records: s.records.remove(key), ..s }
}

/// `RPUSH` of one id.
pub open spec fn push(s: Store, key: Seq<char>, id: Seq<char>) -> Store {
    Store { lists: s.lists.insert(key, list(s, key).push(id)), ..s }
}

/// `DEL` of a list.
pub open spec fn delete_list(s: Store, key: Seq<char>) -> Store {
    Store { lists: s.lists.remove(key), ..s }
}

/// The two writes of an enqueue with a time to live of `secs`: the record,
/// then its id on the list.
pub open spec fn enqueued(s: Store, name: Seq<char>, j: JobView, secs: usize) -> Store {
    push(set(s, job_key_of(name, j.uuid), j, secs), uuids_key_of(name), j.uuid)
}

/// The write of a drop.
pub open spec fn dropped(s: Store, name: Seq<char>) -> Store {
    delete_list(s, uuids_key_of(name))
}

/// What a worker action writes into the records of queue `name`.
pub open spec fn performed(s: Store, name: Seq<char>, a: ActionView) -> Store {
    match a {
        ActionView::Start { id, job, ttl } => set(s, job_key_of(name, id), job, ttl),
        ActionView::Persist { id, job, ttl } => set(s, job_key_of(name, id), job, ttl),
        _ => s,
    }
}

/// The records after the actions `acts`, in order.
pub open spec fn replay(s: Store, name: Seq<char>, acts: Seq<ActionView>) -> Store
    decreases acts.len(),
{
    if acts.len() == 0 {
        s
    } else {
        replay(performed(s, name, acts[0]), name, acts.drop_first())
    }
}

/// The worker's state and the actions it takes, driven by the events `es`.
pub open spec fn run(w: WorkerView, es: Seq<EventView>) -> (WorkerView, Seq<ActionView>)
    decreases es.len(),
{
    if es.len() == 0 {
        (w, Seq::empty())
    } else {
        let (w1, a) = next(w, es[0]);
        let (w2, rest) = run(w1, es.drop_first());
        (w2, seq![a] + rest)
    }
}

/// `k` rounds of a check that finds no outcome, followed by the pause.
pub open spec fn quiet(k: nat) -> Seq<EventView>
    decreases k,
{
    if k == 0 {
        Seq::empty()
    } else {
        seq![EventView::Checked(None), EventView::Slept] + quiet((k - 1) as nat)
    }
}

/// One iteration of the loop on job `id`, whose record reads as `job` and
/// whose processing reports `o` at the first check.
pub open spec fn iteration(id: Seq<char>, job: JobView, o: Outcome) -> Seq<EventView> {
    seq![
        EventView::Popped(Some(id)),
        EventView::Loaded(Record::Found(job)),
        EventView::Started,
        EventView::Checked(Some(o)),
        EventView::Persisted,
    ]
}

/// The iterations on `jobs`, one after the other, each given as id, record
/// and outcome.
pub open spec fn drain(jobs: Seq<(Seq<char>, JobView, Outcome)>) -> Seq<EventView>
    decreases jobs.len(),
{
    if jobs.len() == 0 {
        Seq::empty()
    } else {
        iteration(jobs[0].0, jobs[0].1, jobs[0].2) + drain(jobs.drop_first())
    }
}

/// A job that was just enqueued reads back as `QUEUED`, with no result, and
/// with the time to live it was enqueued with.
pub proof fn lemma_enqueued_is_queued(
    s: Store,
    name: Seq<char>,
    id: Seq<char>,
    args: Seq<Seq<char>>,
    secs: usize,
)
    ensures
        status_in(read(enqueued(s, name, queued(id, args), secs), job_key_of(name, id)))
            == Ok::<Status, QueueError>(Status::QUEUED),
        result_in(read(enqueued(s, name, queued(id, args), secs), job_key_of(name, id)))
            == Ok::<Option<Seq<char>>, QueueError>(None),
        ttl(enqueued(s, name, queued(id, args), secs), job_key_of(name, id)) == Some(secs),
        list(enqueued(s, name, queued(id, args), secs), uuids_key_of(name))
            == list(s, uuids_key_of(name)).push(id),
{
}

/// A job whose record expired before any worker claimed it is not found by
/// either read.
pub proof fn lemma_expired_not_found(
    s: Store,
    name: Seq<char>,
    id: Seq<char>,
    args: Seq<Seq<char>>,
    secs: usize,
)
    ensures
        status_in(read(expire(enqueued(s, name, queued(id, args), secs), job_key_of(name, id)), job_key_of(name, id)))
            == Err::<Status, QueueError>(QueueError::NotFound),
        result_in(read(expire(enqueued(s, name, queued(id, args), secs), job_key_of(name, id)), job_key_of(name, id)))
            == Err::<Option<Seq<char>>, QueueError>(QueueError::NotFound),
{
}

/// After a drop, an enqueue leaves exactly its own id on the pending list.
pub proof fn lemma_drop_then_enqueue(s: Store, name: Seq<char>, j: JobView, secs: usize)
    ensures
        list(enqueued(dropped(s, name), name, j, secs), uuids_key_of(name)) == seq![j.uuid],
{
    assert(list(dropped(s, name), uuids_key_of(name)) =~= Seq::<Seq<char>>::empty());
    assert(seq![j.uuid] =~= Seq::<Seq<char>>::empty().push(j.uuid));
}

/// Reads are repeatable: an action that writes no record leaves what every
/// key reads back as, its status and its result, as it was.
pub proof fn lemma_reads_repeatable(s: Store, name: Seq<char>, a: ActionView, key: Seq<char>)
    requires
        !(a is Start || a is Persist),
    ensures
        read(performed(s, name, a), key) == read(s, key),
        status_in(read(performed(s, name, a), key)) == status_in(read(s, key)),
        result_in(read(performed(s, name, a), key)) == result_in(read(s, key)),
{
}

/// Distinct ids have distinct record keys.
pub proof fn lemma_job_key_injective(name: Seq<char>, a: Seq<char>, b: Seq<char>)
    requires
        a != b,
    ensures
        job_key_of(name, a) != job_key_of(name, b),
{
    let p = name + ":"@;
    assert((p + a).subrange(p.len() as int, (p + a).len() as int) =~= a);
    assert((p + b).subrange(p.len() as int, (p + b).len() as int) =~= b);
}

/// Driving the worker with one event and then `rest` is one step of
/// [`next`] followed by the run on `rest`.
pub proof fn lemma_run_cons(w: WorkerView, e: EventView, rest: Seq<EventView>)
    ensures
        run(w, seq![e] + rest) == ({
            let (w1, a) = next(w, e);
            let (w2, acts) = run(w1, rest);
            (w2, seq![a] + acts)
        }),
{
    let es = seq![e] + rest;
    assert(es[0] == e);
    assert(es.drop_first() =~= rest);
}

/// Replaying two runs of actions is replaying the first, then the second.
pub proof fn lemma_replay_append(s: Store, name: Seq<char>, a: Seq<ActionView>, b: Seq<ActionView>)
    ensures
        replay(s, name, a + b) == replay(replay(s, name, a), name, b),
    decreases a.len(),
{
    if a.len() == 0 {
        assert(a + b =~= b);
    } else {
        assert((a + b)[0] == a[0]);
        assert((a + b).drop_first() =~= a.drop_first() + b);
        lemma_replay_append(performed(s, name, a[0]), name, a.drop_first(), b);
    }
}

/// Supervision with `k` checks left, fed `k` empty checks, ends by writing
/// the record as `LOST`.
proof fn lemma_wait_out(w: WorkerView, e: EventView, k: nat)
    requires
        w.phase matches PhaseView::Supervising { polls_left, .. } && polls_left == k,
        e is Started || e is Slept,
    ensures
        run(w, seq![e] + quiet(k)).1.len() == 2 * k + 1,
        run(w, seq![e] + quiet(k)).1.last() == (ActionView::Persist {
            id: w.phase->Supervising_id,
            job: lost_record(w.phase->Supervising_job),
            ttl: w.expire,
        }),
    decreases k,
{
    lemma_run_cons(w, e, quiet(k));
    if k == 0 {
        assert(run(w, quiet(0)).1 =~= Seq::<ActionView>::empty());
    } else {
        let w1 = next(w, e).0;
        assert(w1 == w);
        assert(quiet(k) =~= seq![EventView::Checked(None)] + (seq![EventView::Slept] + quiet((k - 1) as nat)));
        lemma_run_cons(w, EventView::Checked(None), seq![EventView::Slept] + quiet((k - 1) as nat));
        let w2 = next(w, EventView::Checked(None)).0;
        lemma_wait_out(w2, EventView::Slept, (k - 1) as nat);
    }
}

/// A worker that claims a job whose processing reports `o` at the first
/// check starts it as `RUNNING`, then writes the record settled with `o`: it
/// reads back as `FINISHED` with the result returned, or as `FAILED` with
/// none, and lives for the result's time to live.
pub proof fn lemma_outcome_recorded(
    w: WorkerView,
    s: Store,
    name: Seq<char>,
    id: Seq<char>,
    job: JobView,
    o: Outcome,
)
    requires
        w.phase == (PhaseView::Loading { id }),
        w.polls > 0,
    ensures
        ({
            let acts = run(
                w,
                seq![EventView::Loaded(Record::Found(job)), EventView::Started, EventView::Checked(Some(o))],
            ).1;
            let after = read(performed(s, name, acts.last()), job_key_of(name, id));
            &&& acts.len() == 3
            &&& acts[0] == (ActionView::Start { id, job: with_status(job, Status::RUNNING), ttl: w.claim_ttl })
            &&& acts[2] == (ActionView::Persist { id, job: settled(job, o), ttl: w.expire })
            &&& ttl(performed(s, name, acts.last()), job_key_of(name, id)) == Some(w.expire)
            &&& (o matches Outcome::Finished(r) ==> {
                &&& status_in(after) == Ok::<Status, QueueError>(Status::FINISHED)
                &&& result_in(after) == Ok::<Option<Seq<char>>, QueueError>(Some(r@))
            })
            &&& (o is Failed ==> {
                &&& status_in(after) == Ok::<Status, QueueError>(Status::FAILED)
                &&& result_in(after) == Ok::<Option<Seq<char>>, QueueError>(None)
            })
        }),
{
    let e0 = EventView::Loaded(Record::Found(job));
    let e2 = EventView::Checked(Some(o));
    assert(seq![e0, EventView::Started, e2] =~= seq![e0] + (seq![EventView::Started] + (seq![e2] + Seq::empty())));
    lemma_run_cons(w, e0, seq![EventView::Started] + (seq![e2] + Seq::empty()));
    let w1 = next(w, e0).0;
    lemma_run_cons(w1, EventView::Started, seq![e2] + Seq::empty());
    let w2 = next(w1, EventView::Started).0;
    lemma_run_cons(w2, e2, Seq::empty());
    let w3 = next(w2, e2).0;
    assert(run(w3, Seq::empty()).1 =~= Seq::<ActionView>::empty());
    let acts = run(w, seq![e0, EventView::Started, e2]).1;
    assert(acts =~= seq![next(w, e0).1, next(w1, EventView::Started).1, next(w2, e2).1]);
}

/// A worker that claims a job whose processing never reports back within the
/// poll budget starts it as `RUNNING`, then writes the record as `LOST` with
/// no result, for the result's time to live.
pub proof fn lemma_lost_after_budget(w: WorkerView, s: Store, name: Seq<char>, id: Seq<char>, job: JobView)
    requires
        w.phase == (PhaseView::Loading { id }),
    ensures
        ({
            let acts = run(
                w,
                seq![EventView::Loaded(Record::Found(job)), EventView::Started] + quiet(w.polls as nat),
            ).1;
            let after = performed(s, name, acts.last());
            &&& acts.len() == 2 * w.polls + 2
            &&& acts[0] == (ActionView::Start { id, job: with_status(job, Status::RUNNING), ttl: w.claim_ttl })
            &&& acts.last() == (ActionView::Persist { id, job: lost_record(job), ttl: w.expire })
            &&& status_in(read(after, job_key_of(name, id))) == Ok::<Status, QueueError>(Status::LOST)
            &&& result_in(read(after, job_key_of(name, id))) == Ok::<Option<Seq<char>>, QueueError>(None)
            &&& ttl(after, job_key_of(name, id)) == Some(w.expire)
        }),
{
    let e0 = EventView::Loaded(Record::Found(job));
    let rest = seq![EventView::Started] + quiet(w.polls as nat);
    assert(seq![e0, EventView::Started] + quiet(w.polls as nat) =~= seq![e0] + rest);
    lemma_run_cons(w, e0, rest);
    let w1 = next(w, e0).0;
    lemma_wait_out(w1, EventView::Started, w.polls as nat);
    let tail = run(w1, rest).1;
    let acts = run(w, seq![e0] + rest).1;
    assert(acts == seq![next(w, e0).1] + tail);
    assert(acts.last() == tail.last());
    assert(lost_record(with_status(job, Status::RUNNING)) == lost_record(job));
}

/// Once the final record is being written, an outcome that arrives late, or
/// any other event, leads to no further write of that record.
pub proof fn lemma_late_outcome_ignored(w: WorkerView, s: Store, name: Seq<char>, e: EventView)
    requires
        w.phase is Finishing,
    ensures
        performed(s, name, next(w, e).1) == s,
        !(next(w, e).0.phase is Supervising),
{
}

/// One iteration on a job whose processing reports at the first check, in a
/// worker that goes on after each job: the loop's actions on the job, and
/// the worker back where it started.
proof fn lemma_iteration(
    w: WorkerView,
    id: Seq<char>,
    job: JobView,
    o: Outcome,
    rest: Seq<EventView>,
)
    requires
        w.phase is Idle,
        w.infinite,
        w.polls > 0,
    ensures
        run(w, iteration(id, job, o) + rest) == (
            run(w, rest).0,
            seq![
                ActionView::Load { id },
                ActionView::Start { id, job: with_status(job, Status::RUNNING), ttl: w.claim_ttl },
                ActionView::Check,
                ActionView::Persist { id, job: settled(job, o), ttl: w.expire },
                ActionView::Pop { wait: w.wait },
            ] + run(w, rest).1,
        ),
{
    let e0 = EventView::Popped(Some(id));
    let e1 = EventView::Loaded(Record::Found(job));
    let e2 = EventView::Started;
    let e3 = EventView::Checked(Some(o));
    let e4 = EventView::Persisted;
    let r4 = seq![e4] + rest;
    let r3 = seq![e3] + r4;
    let r2 = seq![e2] + r3;
    let r1 = seq![e1] + r2;
    assert(iteration(id, job, o) + rest =~= seq![e0] + r1);
    lemma_run_cons(w, e0, r1);
    let w1 = next(w, e0).0;
    lemma_run_cons(w1, e1, r2);
    let w2 = next(w1, e1).0;
    lemma_run_cons(w2, e2, r3);
    let w3 = next(w2, e2).0;
    lemma_run_cons(w3, e3, r4);
    let w4 = next(w3, e3).0;
    lemma_run_cons(w4, e4, rest);
    assert(settled(with_status(job, Status::RUNNING), o) == settled(job, o));
    assert(next(w4, e4).0 == w);
    assert(run(w, iteration(id, job, o) + rest).1 =~= seq![
        next(w, e0).1,
        next(w1, e1).1,
        next(w2, e2).1,
        next(w3, e3).1,
        next(w4, e4).1,
    ] + run(w, rest).1);
}

/// A worker that goes on after each job, fed the iterations on `jobs` (each
/// processing reporting at its first check), ends where it started, and then
/// every job's record reads back settled with its own outcome: `FINISHED`
/// with its own result, or `FAILED` with none, with the result's time to
/// live. Every other record is as it was.
pub proof fn lemma_drain(
    w: WorkerView,
    s: Store,
    name: Seq<char>,
    jobs: Seq<(Seq<char>, JobView, Outcome)>,
)
    requires
        w.phase is Idle,
        w.infinite,
        w.polls > 0,
        forall|i: int, j: int| 0 <= i < j < jobs.len() ==> jobs[i].0 != jobs[j].0,
    ensures
        run(w, drain(jobs)).0 == w,
        forall|i: int| 0 <= i < jobs.len() ==> {
            let after = replay(s, name, run(w, drain(jobs)).1);
            let key = #[trigger] job_key_of(name, jobs[i].0);
            &&& read(after, key) == Record::Found(settled(jobs[i].1, jobs[i].2))
            &&& ttl(after, key) == Some(w.expire)
            &&& (jobs[i].2 matches Outcome::Finished(r) ==> {
                &&& status_in(read(after, key)) == Ok::<Status, QueueError>(Status::FINISHED)
                &&& result_in(read(after, key)) == Ok::<Option<Seq<char>>, QueueError>(Some(r@))
            })
            &&& (jobs[i].2 is Failed ==> status_in(read(after, key)) == Ok::<Status, QueueError>(Status::FAILED))
        },
        forall|key: Seq<char>|
            (forall|i: int| 0 <= i < jobs.len() ==> key != #[trigger] job_key_of(name, jobs[i].0)) ==> {
                &&& read(replay(s, name, run(w, drain(jobs)).1), key) == read(s, key)
                &&& ttl(replay(s, name, run(w, drain(jobs)).1), key) == ttl(s, key)
            },
    decreases jobs.len(),
{
    if jobs.len() == 0 {
        assert(drain(jobs) =~= Seq::<EventView>::empty());
        assert(run(w, drain(jobs)).1 =~= Seq::<ActionView>::empty());
    } else {
        let (id, job, o) = jobs[0];
        let tail = jobs.drop_first();
        let k0 = job_key_of(name, id);
        assert(drain(jobs) == iteration(id, job, o) + drain(tail));
        lemma_iteration(w, id, job, o, drain(tail));
        let first = seq![
            ActionView::Load { id },
            ActionView::Start { id, job: with_status(job, Status::RUNNING), ttl: w.claim_ttl },
            ActionView::Check,
            ActionView::Persist { id, job: settled(job, o), ttl: w.expire },
            ActionView::Pop { wait: w.wait },
        ];
        let later = run(w, drain(tail)).1;
        lemma_replay_append(s, name, first, later);
        let s1 = set(set(s, k0, with_status(job, Status::RUNNING), w.claim_ttl), k0, settled(job, o), w.expire);
        assert(replay(s, name, first) == s1) by {
            reveal_with_fuel(replay, 6);
            assert(first.drop_first().drop_first().drop_first().drop_first().drop_first() =~= Seq::<ActionView>::empty());
        }
        assert forall|i: int, j: int| 0 <= i < j < tail.len() implies tail[i].0 != tail[j].0 by {
            assert(tail[i] == jobs[i + 1] && tail[j] == jobs[j + 1]);
        }
        lemma_drain(w, s1, name, tail);
        let after = replay(s, name, run(w, drain(jobs)).1);
        assert(after == replay(s1, name, later));
        assert(forall|i: int| 0 <= i < tail.len() ==> key_differs(k0, job_key_of(name, #[trigger] tail[i].0))) by {
            assert forall|i: int| 0 <= i < tail.len() implies key_differs(k0, job_key_of(name, #[trigger] tail[i].0)) by {
                assert(tail[i] == jobs[i + 1]);
                lemma_job_key_injective(name, jobs[i + 1].0, id);
            }
        }
        assert forall|i: int| 0 <= i < jobs.len() implies {
            let key = #[trigger] job_key_of(name, jobs[i].0);
            &&& read(after, key) == Record::Found(settled(jobs[i].1, jobs[i].2))
            &&& ttl(after, key) == Some(w.expire)
        } by {
            if i == 0 {
                assert forall|m: int| 0 <= m < tail.len() implies k0 != #[trigger] job_key_of(name, tail[m].0) by {
                    assert(key_differs(k0, job_key_of(name, tail[m].0)));
                }
                assert(read(replay(s1, name, later), k0) == read(s1, k0));
                assert(ttl(replay(s1, name, later), k0) == ttl(s1, k0));
            } else {
                assert(tail[i - 1] == jobs[i]);
                let ki = job_key_of(name, tail[i - 1].0);
                assert(read(replay(s1, name, later), ki) == Record::Found(settled(tail[i - 1].1, tail[i - 1].2)));
                assert(ttl(replay(s1, name, later), ki) == Some(w.expire));
            }
        }
        assert forall|key: Seq<char>|
            (forall|i: int| 0 <= i < jobs.len() ==> key != #[trigger] job_key_of(name, jobs[i].0)) implies {
                &&& read(after, key) == read(s, key)
                &&& ttl(after, key) == ttl(s, key)
            } by {
            assert(key != job_key_of(name, jobs[0].0));
            assert forall|m: int| 0 <= m < tail.len() implies key != #[trigger] job_key_of(name, tail[m].0) by {
                assert(tail[m] == jobs[m + 1]);
                assert(key != job_key_of(name, jobs[m + 1].0));
            }
            assert(read(replay(s1, name, later), key) == read(s1, key));
            assert(ttl(replay(s1, name, later), key) == ttl(s1, key));
        }
    }
}

spec fn key_differs(a: Seq<char>, b: Seq<char>) -> bool {
    a != b
}

} // verus!
