use vstd::prelude::*;

use crate::channel::answer_reply;
use crate::engine::Engine;
use crate::request::DbRequest;

verus! {

/// The actor worker's state machine: `Running` holds the engine — the only
/// handle to storage in the whole process — and `Stopped` is terminal.
///
/// A driver on a dedicated thread owns the queue's consumer and feeds
/// `step` one request at a time, in arrival order, until the worker stops;
/// that thread must not share an executor with non-blocking work. Because a
/// single thread calls `step` to completion before taking the next request,
/// no two operations are ever in flight against the engine at once, however
/// many callers enqueue concurrently.
pub enum Worker {
    Running(Engine),
    Stopped,
}

impl Worker {
    /// A fresh worker owning the engine, running immediately.
    pub fn start(engine: Engine) -> (w: Worker)
        ensures
            (w matches Worker::Running(e) && e@ == engine@),
    {
        Worker::Running(engine)
    }

    /// One transition: execute the request against the engine to
    /// completion, answer through its reply slot, and move to the next
    /// state.
    ///
    /// - A full scan or a point lookup answers and leaves the store as it
    ///   was.
    /// - A put answers and either upserts its record or, where the engine
    ///   failed, reports the cause and leaves the store as it was.
    /// - `Shutdown` closes the engine, answers with how closing went, and
    ///   stops — unconditionally terminal even when closing fails.
    /// - No request (the queue is closed and drained: every handle is gone)
    ///   stops the worker.
    /// - A stopped worker stays stopped and drops the request's reply slot
    ///   unanswered, which the caller sees as a delivery error.
    ///
    /// A reply that nobody awaits any more is dropped silently; that never
    /// stops the worker.
    pub fn step(self, request: Option<DbRequest>) -> (next: Worker)
        ensures
            self is Stopped ==> next is Stopped,
            request is None ==> next is Stopped,
            (request matches Some(DbRequest::Shutdown { .. })) ==> next is Stopped,
            self matches Worker::Running(e) ==> (request matches Some(
                DbRequest::GetAll { .. },
            ) ==> (next matches Worker::Running(e2) && e2@ == e@)),
            self matches Worker::Running(e) ==> (request matches Some(
                DbRequest::GetItem { .. },
            ) ==> (next matches Worker::Running(e2) && e2@ == e@)),
            self matches Worker::Running(e) ==> (request matches Some(
                DbRequest::PutItem { item, .. },
            ) ==> (next matches Worker::Running(e2) && (e2@ == e@.insert(item@.key, item@.value)
                || e2@ == e@))),
    {
        match self {
            Worker::Stopped => Worker::Stopped,
            Worker::Running(engine) => {
                let mut engine = engine;
                match request {
                    None => Worker::Stopped,
                    Some(DbRequest::GetAll { respond_to }) => {
                        let result = engine.get_all();
                        answer_reply(respond_to, result);
                        Worker::Running(engine)
                    },
                    Some(DbRequest::GetItem { key, respond_to }) => {
                        let result = engine.get_one(key.as_str());
                        answer_reply(respond_to, result);
                        Worker::Running(engine)
                    },
                    Some(DbRequest::PutItem { item, respond_to }) => {
                        let result = engine.put(&item);
                        answer_reply(respond_to, result);
                        Worker::Running(engine)
                    },
                    Some(DbRequest::Shutdown { respond_to }) => {
                        let result = engine.close();
                        answer_reply(respond_to, result);
                        Worker::Stopped
                    },
                }
            },
        }
    }

    /// Whether the worker still serves requests; once false, it is false
    /// for good.
    pub fn is_running(&self) -> (r: bool)
        ensures
            r == (self is Running),
    {
        match self {
            Worker::Running(_) => true,
            Worker::Stopped => false,
        }
    }
}

} // verus!
