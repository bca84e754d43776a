use vstd::prelude::*;

use crate::channel::{clone_queue_sender, queue_send, reply_slot, wait_reply};
use crate::error::DbError;
use crate::item::Item;
use crate::request::DbRequest;

verus! {

/// Turns the outcome of one enqueue-and-await round into the caller's
/// result, keeping "my request never reached or was never answered by
/// storage" apart from "storage rejected my request":
/// - the request was not enqueued, or no reply arrived: a delivery error;
/// - the worker answered with the engine's failure: a storage error,
///   carrying the cause verbatim;
/// - the worker answered with the engine's success: that value.
pub fn settle_reply<T>(sent: bool, reply: Option<Result<T, String>>) -> (r: Result<T, DbError>)
    ensures
        !sent ==> r == Err::<T, DbError>(DbError::Delivery),
        reply is None ==> r == Err::<T, DbError>(DbError::Delivery),
        sent ==> (reply matches Some(Ok(v)) ==> r == Ok::<T, DbError>(v)),
        sent ==> (reply matches Some(Err(m)) ==> r == Err::<T, DbError>(DbError::Storage(m))),
{
    match reply {
        None => Err(DbError::Delivery),
        Some(outcome) => {
            if sent {
                match outcome {
                    Ok(v) => Ok(v),
                    Err(m) => Err(DbError::Storage(m)),
                }
            } else {
                Err(DbError::Delivery)
            }
        },
    }
}

/// The client handle: the only way the rest of the process touches
/// storage. It wraps a producer for the worker's request queue; cloning it
/// shares the queue, never the engine. Each call enqueues one typed request
/// with a fresh single-use reply slot, suspends until the slot is answered
/// or the attempt fails, and classifies the outcome with `settle_reply`.
///
/// The calls block the calling thread; issue them from outside any async
/// executor.
pub struct DatabaseClient {
    db_tx: tokio::sync::mpsc::Sender<DbRequest>,
}

impl DatabaseClient {
    /// A handle over the producer side of a worker's request queue.
    pub fn new(db_tx: tokio::sync::mpsc::Sender<DbRequest>) -> DatabaseClient {
        DatabaseClient { db_tx }
    }

    /// Every stored record, in no promised order. The worker answers with
    /// exactly what the engine's full scan returned.
    pub fn get_all_items(&self) -> Result<Vec<Item>, DbError> {
        let (respond_to, response) = reply_slot();
        let sent = queue_send(&self.db_tx, DbRequest::GetAll { respond_to });
        let reply = if sent {
            wait_reply(response)
        } else {
            None
        };
        settle_reply(sent, reply)
    }

    /// The record stored under the key, or `Ok(None)` where the key is
    /// absent — absence is a normal answer, never an error.
    pub fn get_item(&self, key: String) -> Result<Option<Item>, DbError> {
        let (respond_to, response) = reply_slot();
        let sent = queue_send(&self.db_tx, DbRequest::GetItem { key, respond_to });
        let reply = if sent {
            wait_reply(response)
        } else {
            None
        };
        settle_reply(sent, reply)
    }

    /// Inserts or overwrites the record by its key (upsert).
    pub fn put_item(&self, item: Item) -> Result<(), DbError> {
        let (respond_to, response) = reply_slot();
        let sent = queue_send(&self.db_tx, DbRequest::PutItem { item, respond_to });
        let reply = if sent {
            wait_reply(response)
        } else {
            None
        };
        settle_reply(sent, reply)
    }

    /// The sanctioned way to stop the worker: asks it to close the engine
    /// and terminate, and reports how closing went. Once the worker has
    /// stopped, every later call on any handle to it yields a delivery
    /// error.
    pub fn shutdown(&self) -> Result<(), DbError> {
        let (respond_to, response) = reply_slot();
        let sent = queue_send(&self.db_tx, DbRequest::Shutdown { respond_to });
        let reply = if sent {
            wait_reply(response)
        } else {
            None
        };
        settle_reply(sent, reply)
    }
}

impl Clone for DatabaseClient {
    /// A second handle to the same worker: it feeds the same queue.
    fn clone(&self) -> DatabaseClient {
        DatabaseClient { db_tx: clone_queue_sender(&self.db_tx) }
    }
}

} // verus!
