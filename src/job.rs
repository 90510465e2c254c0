use vstd::prelude::*;

use crate::status::Status;

verus! {

/// A job record as it is kept in the store under `<queue>:<id>`.
///
/// `result` stays `None` until processing returns a result; only a
/// `FINISHED` record written by a worker carries `Some`.
#[derive(Debug, Clone)]
pub struct Job {
    pub uuid: String,
    pub status: Status,
    pub args: Vec<String>,
    pub result: Option<String>,
}

/// The mathematical value of a job record.
pub struct JobView {
    pub uuid: Seq<char>,
    pub status: Status,
    pub args: Seq<Seq<char>>,
    pub result: Option<Seq<char>>,
}

pub open spec fn opt_view(o: Option<String>) -> Option<Seq<char>> {
    match o {
        Some(s) => Some(s@),
        None => None,
    }
}

impl View for Job {
    type V = JobView;

    open spec fn view(&self) -> JobView {
        JobView {
            uuid: self.uuid@,
            status: self.status,
            args: self.args.deep_view(),
            result: opt_view(self.result),
        }
    }
}

/// What the processing of a job reported back to the worker.
#[derive(Debug, Clone)]
pub enum Outcome {
    /// Processing returned this result.
    Finished(String),
    /// Processing returned an error.
    Failed,
}

/// A fresh record: queued, with the given id and arguments and no result.
pub open spec fn queued(uuid: Seq<char>, args: Seq<Seq<char>>) -> JobView {
    JobView { uuid, status: Status::QUEUED, args, result: None }
}

/// The record with its status replaced; id, arguments and result are kept.
pub open spec fn with_status(j: JobView, status: Status) -> JobView {
    JobView { status, ..j }
}

/// The record given up on: `LOST`, with no result.
pub open spec fn lost_record(j: JobView) -> JobView {
    JobView { status: Status::LOST, result: None, ..j }
}

/// The record after processing reported `o`: `FINISHED` with the result, or
/// `FAILED` with none.
pub open spec fn settled(j: JobView, o: Outcome) -> JobView {
    match o {
        Outcome::Finished(r) => JobView { status: Status::FINISHED, result: Some(r@), ..j },
        Outcome::Failed => JobView { status: Status::FAILED, result: None, ..j },
    }
}

/// A lowercase hexadecimal digit.
pub open spec fn is_lower_hex(c: char) -> bool {
    ('0' <= c && c <= '9') || ('a' <= c && c <= 'f')
}

/// The hyphenated text of a version 4 id: 36 characters, hyphens at 8, 13,
/// 18 and 23, lowercase hex digits elsewhere, the version digit `4` at 14 and
/// one of `8`, `9`, `a`, `b` at 19.
pub open spec fn is_v4_text(s: Seq<char>) -> bool {
    &&& s.len() == 36
    &&& forall|i: int|
        0 <= i < 36 ==> if i == 8 || i == 13 || i == 18 || i == 23 {
            s[i] == '-'
        } else {
            is_lower_hex(#[trigger] s[i])
        }
    &&& s[14] == '4'
    &&& (s[19] == '8' || s[19] == '9' || s[19] == 'a' || s[19] == 'b')
}

/// Relies on uuid's `Uuid::new_v4` (random bits with the version and variant
/// bits set) and its `Display` impl (`LowerHex` of the hyphenated form): a
/// random version 4 id in lowercase hyphenated text.
#[verifier::external_body]
fn fresh_uuid() -> (r: String)
    ensures
        is_v4_text(r@),
{
    uuid::Uuid::new_v4().to_string()
}

impl Job {
    /// A queued record with the given id and arguments.
    pub fn with_id(uuid: String, args: Vec<String>) -> (r: Job)
        ensures
            r@ == queued(uuid@, args.deep_view()),
    {
        Job { uuid, status: Status::QUEUED, args, result: None }
    }

    /// A queued record with a freshly generated id.
    pub fn new(args: Vec<String>) -> (r: Job)
        ensures
            r@ == queued(r.uuid@, args.deep_view()),
            is_v4_text(r.uuid@),
    {
        Job::with_id(fresh_uuid(), args)
    }

    /// An equal, separately owned record.
    pub fn copy(&self) -> (r: Job)
        ensures
            r@ == self@,
    {
        let result = match &self.result {
            Some(s) => Some(s.clone()),
            None => None,
        };
        let mut args: Vec<String> = Vec::new();
        let mut i: usize = 0;
        while i < self.args.len()
            invariant
                i <= self.args.len(),
                args@ == self.args@.subrange(0, i as int),
            decreases self.args.len() - i,
        {
            args.push(self.args[i].clone());
            i += 1;
            assert(args@ =~= self.args@.subrange(0, i as int));
        }
        assert(args@ =~= self.args@);
        Job { uuid: self.uuid.clone(), status: self.status, args, result }
    }

    /// The record marked `RUNNING`, as a worker claims it.
    pub fn claimed(self) -> (r: Job)
        ensures
            r@ == with_status(self@, Status::RUNNING),
    {
        Job { status: Status::RUNNING, ..self }
    }

    /// The record marked `LOST` with no result, as a worker gives up
    /// waiting on it.
    pub fn lost(self) -> (r: Job)
        ensures
            r@ == lost_record(self@),
    {
        Job { status: Status::LOST, result: None, ..self }
    }

    /// The record after processing reported `o`.
    pub fn settle(self, o: Outcome) -> (r: Job)
        ensures
            r@ == settled(self@, o),
    {
        match o {
            Outcome::Finished(res) => Job { status: Status::FINISHED, result: Some(res), ..self },
            Outcome::Failed => Job { status: Status::FAILED, result: None, ..self },
        }
    }
}

} // verus!
