use vstd::prelude::*;
use vstd::string::StringExecFns;

use crate::job::{opt_view, Job, JobView};
use crate::status::Status;

verus! {

/// Errors of the producer-facing reads.
#[derive(Debug, Clone, Copy, PartialEq, Eq, Structural)]
pub enum QueueError {
    /// The record's key is missing: it expired or never existed.
    NotFound,
    /// The stored payload could not be decoded as a job record.
    DecodeError,
}

/// What reading a record's key gave back.
#[derive(Debug, Clone)]
pub enum Lookup {
    /// No value under the key.
    Missing,
    /// A value that does not decode as a job record.
    Corrupt,
    /// A decoded record.
    Found(Job),
}

/// The mathematical value of a [`Lookup`].
pub enum Record {
    Missing,
    Corrupt,
    Found(JobView),
}

impl View for Lookup {
    type V = Record;

    open spec fn view(&self) -> Record {
        match self {
            Lookup::Missing => Record::Missing,
            Lookup::Corrupt => Record::Corrupt,
            Lookup::Found(j) => Record::Found(j@),
        }
    }
}

/// The status that a read of `r` reports.
pub open spec fn status_in(r: Record) -> Result<Status, QueueError> {
    match r {
        Record::Missing => Err(QueueError::NotFound),
        Record::Corrupt => Err(QueueError::DecodeError),
        Record::Found(j) => Ok(j.status),
    }
}

/// The result that a read of `r` reports.
pub open spec fn result_in(r: Record) -> Result<Option<Seq<char>>, QueueError> {
    match r {
        Record::Missing => Err(QueueError::NotFound),
        Record::Corrupt => Err(QueueError::DecodeError),
        Record::Found(j) => Ok(j.result),
    }
}

/// The mathematical value of what [`Queue::result_of`] returns.
pub open spec fn result_view(r: Result<Option<String>, QueueError>) -> Result<Option<Seq<char>>, QueueError> {
    match r {
        Ok(o) => Ok(opt_view(o)),
        Err(e) => Err(e),
    }
}

/// The key of the list of pending ids: `<name>:uuids`.
pub open spec fn uuids_key_of(name: Seq<char>) -> Seq<char> {
    name + ":uuids"@
}

/// The key of a job record: `<name>:<id>`.
pub open spec fn job_key_of(name: Seq<char>, id: Seq<char>) -> Seq<char> {
    name + ":"@ + id
}

/// A handle on a named queue in the store at `url`.
///
/// It holds no connection: building one performs no I/O.
#[derive(Debug, Clone)]
pub struct Queue {
    url: String,
    name: String,
}

impl Queue {
    pub closed spec fn url_view(&self) -> Seq<char> {
        self.url@
    }

    pub closed spec fn name_view(&self) -> Seq<char> {
        self.name@
    }

    /// A handle on the queue `name` in the store at `url`.
    pub fn new(url: &str, name: &str) -> (r: Queue)
        ensures
            r.url_view() == url@,
            r.name_view() == name@,
    {
        Queue { url: String::from_str(url), name: String::from_str(name) }
    }

    /// The store's address.
    pub fn url(&self) -> (r: &str)
        ensures
            r@ == self.url_view(),
    {
        self.url.as_str()
    }

    /// The queue's name.
    pub fn name(&self) -> (r: &str)
        ensures
            r@ == self.name_view(),
    {
        self.name.as_str()
    }

    /// The key of this queue's list of pending ids.
    pub fn uuids_key(&self) -> (r: String)
        ensures
            r@ == uuids_key_of(self.name_view()),
    {
        let mut k = self.name.clone();
        k.append(":uuids");
        k
    }

    /// The key under which the record of job `id` is kept.
    pub fn job_key(&self, id: &str) -> (r: String)
        ensures
            r@ == job_key_of(self.name_view(), id@),
    {
        let mut k = self.name.clone();
        k.append(":");
        k.append(id);
        k
    }

    /// A new queued job with the given arguments and a fresh id, ready to be
    /// written under [`Queue::job_key`] and pushed on [`Queue::uuids_key`].
    pub fn new_job(&self, args: Vec<String>) -> (r: Job)
        ensures
            r@ == crate::job::queued(r.uuid@, args.deep_view()),
            crate::job::is_v4_text(r.uuid@),
    {
        Job::new(args)
    }

    /// The status reported by a read of a job's key.
    pub fn status_of(&self, found: Lookup) -> (r: Result<Status, QueueError>)
        ensures
            r == status_in(found@),
    {
        match found {
            Lookup::Missing => Err(QueueError::NotFound),
            Lookup::Corrupt => Err(QueueError::DecodeError),
            Lookup::Found(j) => Ok(j.status),
        }
    }

    /// The result reported by a read of a job's key.
    pub fn result_of(&self, found: Lookup) -> (r: Result<Option<String>, QueueError>)
        ensures
            result_view(r) == result_in(found@),
    {
        match found {
            Lookup::Missing => Err(QueueError::NotFound),
            Lookup::Corrupt => Err(QueueError::DecodeError),
            Lookup::Found(j) => Ok(j.result),
        }
    }
}

} // verus!
