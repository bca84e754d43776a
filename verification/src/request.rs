use vstd::prelude::*;

use crate::item::Item;

verus! {

/// The request envelope: a closed sum of exactly the operations the worker
/// serves. Every variant carries a single-use reply slot bound to the
/// operation's result type; the worker consumes the envelope, writes the
/// slot once, and the original caller reads it once. A storage failure
/// travels back as the engine's message.
pub enum DbRequest {
    GetAll { respond_to: tokio::sync::oneshot::Sender<Result<Vec<Item>, String>> },
    GetItem { key: String, respond_to: tokio::sync::oneshot::Sender<Result<Option<Item>, String>> },
    PutItem { item: Item, respond_to: tokio::sync::oneshot::Sender<Result<(), String>> },
    Shutdown { respond_to: tokio::sync::oneshot::Sender<Result<(), String>> },
}

} // verus!
