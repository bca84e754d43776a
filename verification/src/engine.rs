use vstd::prelude::*;

use rusqlite::OptionalExtension;

use crate::item::Item;
use crate::model::{found_value, lookup, records_match_map};

verus! {

#[verifier::external_type_specification]
#[verifier::external_body]
pub struct ExConnection(rusqlite::Connection);

/// The contents of the table behind a connection: the map from key to
/// value that the statements of this module maintain. This names what the
/// backing file holds; it is meaningful only while the connection is the
/// sole handle to that file, which the single-writer design guarantees.
pub uninterp spec fn table_of(conn: rusqlite::Connection) -> Map<Seq<char>, Seq<char>>;

/// Relies on rusqlite::Statement::query_map over `SELECT key, value FROM
/// items`: one row per stored key (the key column is the primary key), in
/// no promised order; an empty table yields an empty list, never an error.
#[verifier::external_body]
fn conn_get_all(conn: &rusqlite::Connection) -> (r: Result<Vec<Item>, String>)
    ensures
        r matches Ok(records) ==> records_match_map(records@, table_of(*conn)),
{
    let mut stmt = conn.prepare("SELECT key, value FROM items").map_err(|e| e.to_string())?;
    let rows = stmt.query_map((), |row| Ok(Item { key: row.get(0)?, value: row.get(1)? }))
        .map_err(|e| e.to_string())?;
    let mut records = Vec::new();
    for row in rows {
        records.push(row.map_err(|e| e.to_string())?);
    }
    Ok(records)
}

/// Relies on rusqlite::Statement::query_row over `SELECT value FROM items
/// WHERE key = ?1`, with a missing row mapped to absence rather than an
/// error.
#[verifier::external_body]
fn conn_get_one(conn: &rusqlite::Connection, key: &str) -> (r: Result<Option<Item>, String>)
    ensures
        r matches Ok(found) ==> found_value(found) == lookup(table_of(*conn), key@),
        r matches Ok(found) ==> (found matches Some(it) ==> it.key@ == key@),
{
    let mut stmt = conn.prepare("SELECT value FROM items WHERE key = ?1").map_err(
        |e| e.to_string(),
    )?;
    let value = stmt.query_row((key,), |row| row.get::<_, String>(0)).optional().map_err(
        |e| e.to_string(),
    )?;
    Ok(value.map(|value| Item { key: key.to_string(), value }))
}

/// Relies on rusqlite::Connection::execute running the single statement
/// `INSERT ... ON CONFLICT(key) DO UPDATE`: insert or overwrite by key; a
/// statement that fails has no effect on the table.
#[verifier::external_body]
fn conn_put(conn: &mut rusqlite::Connection, item: &Item) -> (r: Result<(), String>)
    ensures
        r is Ok ==> table_of(*final(conn)) == table_of(*old(conn)).insert(item@.key, item@.value),
        r is Err ==> table_of(*final(conn)) == table_of(*old(conn)),
{
    conn.execute(
        "INSERT INTO items (key, value) VALUES (?1, ?2) \
         ON CONFLICT(key) DO UPDATE SET value = excluded.value",
        (&item.key, &item.value),
    ).map_err(|e| e.to_string())?;
    Ok(())
}

/// Relies on rusqlite::Connection::open followed by Connection::execute
/// running `CREATE TABLE IF NOT EXISTS`: idempotent, and failing fast when
/// the path is unusable. What the file already held decides the table's
/// contents, so nothing is claimed of them.
#[verifier::external_body]
fn conn_open(path: &str) -> (r: Result<rusqlite::Connection, String>) {
    let conn = rusqlite::Connection::open(path).map_err(|e| e.to_string())?;
    conn.execute(
        "CREATE TABLE IF NOT EXISTS items (key TEXT PRIMARY KEY, value TEXT NOT NULL)",
        (),
    ).map_err(|e| e.to_string())?;
    Ok(conn)
}

/// Relies on rusqlite::Connection::close; a failure carries the cause.
#[verifier::external_body]
fn conn_close(conn: rusqlite::Connection) -> (r: Result<(), String>) {
    match conn.close() {
        Ok(()) => Ok(()),
        Err((_, err)) => Err(err.to_string()),
    }
}

/// The storage engine binding: the only handle to the backing file. It has
/// no concurrency of its own; the worker owns it exclusively and serializes
/// every operation against it.
pub struct Engine {
    conn: rusqlite::Connection,
}

impl View for Engine {
    type V = Map<Seq<char>, Seq<char>>;

    closed spec fn view(&self) -> Map<Seq<char>, Seq<char>> {
        table_of(self.conn)
    }
}

/// Opens the backing file and ensures the schema exists; safe to call on
/// every startup. The store the engine then holds is whatever the file
/// already held — for a fresh file, nothing.
pub fn open(path: &str) -> (r: Result<Engine, String>) {
    match conn_open(path) {
        Ok(conn) => Ok(Engine { conn }),
        Err(e) => Err(e),
    }
}

impl Engine {
    /// Every stored record: the returned list matches the store exactly,
    /// one record per stored key, in no promised order. An empty store
    /// yields an empty list, never an error.
    pub fn get_all(&self) -> (r: Result<Vec<Item>, String>)
        ensures
            r matches Ok(records) ==> records_match_map(records@, self@),
    {
        conn_get_all(&self.conn)
    }

    /// A point lookup: the record stored under the key, or absence where
    /// the key was never stored — a normal result, not an error.
    pub fn get_one(&self, key: &str) -> (r: Result<Option<Item>, String>)
        ensures
            r matches Ok(found) ==> found_value(found) == lookup(self@, key@),
            r matches Ok(found) ==> (found matches Some(it) ==> it.key@ == key@),
    {
        conn_get_one(&self.conn, key)
    }

    /// Inserts or overwrites by key (upsert). On failure the store is as it
    /// was, and the cause is reported, not retried.
    pub fn put(&mut self, item: &Item) -> (r: Result<(), String>)
        ensures
            r is Ok ==> final(self)@ == old(self)@.insert(item@.key, item@.value),
            r is Err ==> final(self)@ == old(self)@,
    {
        conn_put(&mut self.conn, item)
    }

    /// Releases the backing file; called once, only during shutdown.
    /// Failing to close cleanly is reported to whoever asked, not retried.
    pub fn close(self) -> (r: Result<(), String>) {
        conn_close(self.conn)
    }
}

} // verus!
