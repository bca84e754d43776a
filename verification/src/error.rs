use vstd::prelude::*;

verus! {

/// How a call through the client can fail. Callers must be able to tell a
/// request that never reached storage apart from one that storage rejected:
/// - `Delivery`: the request never reached, or was never answered by, the
///   worker (queue closed, worker terminated, reply slot dropped).
/// - `Storage`: the engine operation itself failed; the cause is forwarded
///   verbatim, never retried.
///
/// A key that is absent is not an error: `get_item` answers `Ok(None)`.
#[derive(Clone, Debug)]
pub enum DbError {
    Delivery,
    Storage(String),
}

impl PartialEq for DbError {
    fn eq(&self, other: &DbError) -> (r: bool) {
        match (self, other) {
            (DbError::Delivery, DbError::Delivery) => true,
            (DbError::Storage(m), DbError::Storage(n)) => *m == *n,
            _ => false,
        }
    }
}

impl vstd::std_specs::cmp::PartialEqSpecImpl for DbError {
    open spec fn obeys_eq_spec() -> bool {
        true
    }

    open spec fn eq_spec(&self, other: &DbError) -> bool {
        match (self, other) {
            (DbError::Delivery, DbError::Delivery) => true,
            (DbError::Storage(m), DbError::Storage(n)) => m@ == n@,
            _ => false,
        }
    }
}

} // verus!
