//! A durable key/value store built around a single-writer storage actor.
//!
//! The storage engine is not safe for unmediated concurrent access, so the
//! only handle to it is owned by one worker ([`Worker`]), which serializes
//! every read and write issued by arbitrarily many concurrent callers into
//! one ordered stream of operations and answers each through a correlated
//! single-use reply slot. Callers hold a cloneable [`DatabaseClient`] that
//! enqueues typed requests ([`DbRequest`]) on a bounded queue and awaits the
//! matching reply; nobody else ever touches the engine.
//!
//! The store itself is modelled as a map from key to value: the engine's
//! contracts state each operation over that map, and the laws of the model —
//! upsert idempotence, overwrite semantics, absence of never-written keys —
//! are proved as public proof functions over it.

use vstd::prelude::*;

mod channel;
mod client;
mod engine;
mod error;
mod item;
mod model;
mod request;
mod worker;

pub use client::settle_reply;
pub use client::DatabaseClient;

pub use engine::open;
pub use engine::table_of;
pub use engine::Engine;
pub use error::DbError;
pub use item::Item;
pub use item::ItemModel;
pub use model::apply_puts;
pub use model::distinct_keys;
pub use model::found_value;
pub use model::lemma_last_put_wins;
pub use model::lemma_never_written_is_absent;
pub use model::lemma_put_overwrites;
pub use model::lemma_puts_leave_other_keys;
pub use model::lemma_scan_after_distinct_puts;
pub use model::lookup;
pub use model::records_match_map;
pub use request::DbRequest;
pub use worker::Worker;
