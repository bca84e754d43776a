use kvactor::{open, settle_reply, DbError, DbRequest, Item, Worker};

fn item(key: &str, value: &str) -> Item {
    Item {
        key: String::from(key),
        value: String::from(value),
    }
}

#[test]
fn settle_reply_success_returns_the_value() {
    let r = settle_reply::<u8>(true, Some(Ok(7)));
    assert_eq!(r, Ok(7));
}

#[test]
fn settle_reply_storage_failure_carries_the_cause() {
    let r = settle_reply::<u8>(true, Some(Err(String::from("disk full"))));
    assert_eq!(r, Err(DbError::Storage(String::from("disk full"))));
}

#[test]
fn settle_reply_unsent_request_is_a_delivery_error() {
    let r = settle_reply::<u8>(false, None);
    assert_eq!(r, Err(DbError::Delivery));
}

#[test]
fn settle_reply_unanswered_request_is_a_delivery_error() {
    let r = settle_reply::<u8>(true, None);
    assert_eq!(r, Err(DbError::Delivery));
}

#[test]
fn engine_put_get_and_scan() {
    let mut engine = open(":memory:").unwrap();

    assert_eq!(engine.get_all(), Ok(vec![]));
    assert_eq!(engine.get_one("a"), Ok(None));

    assert_eq!(engine.put(&item("a", "1")), Ok(()));
    assert_eq!(engine.get_one("a"), Ok(Some(item("a", "1"))));

    assert_eq!(engine.put(&item("a", "2")), Ok(()));
    assert_eq!(engine.get_one("a"), Ok(Some(item("a", "2"))));
    assert_eq!(engine.get_all(), Ok(vec![item("a", "2")]));

    assert_eq!(engine.close(), Ok(()));
}

#[test]
fn engine_open_fails_fast_on_unusable_path() {
    let r = open("/no-such-directory-anywhere/store.db");
    assert!(r.is_err());
}

#[test]
fn worker_serves_requests_in_arrival_order() {
    let engine = open(":memory:").unwrap();
    let mut w = Worker::start(engine);
    assert!(w.is_running());

    let (put_tx, put_rx) = tokio::sync::oneshot::channel();
    w = w.step(Some(DbRequest::PutItem {
        item: item("a", "1"),
        respond_to: put_tx,
    }));
    assert_eq!(put_rx.blocking_recv().unwrap(), Ok(()));
    assert!(w.is_running());

    let (get_tx, get_rx) = tokio::sync::oneshot::channel();
    w = w.step(Some(DbRequest::GetItem {
        key: String::from("a"),
        respond_to: get_tx,
    }));
    assert_eq!(get_rx.blocking_recv().unwrap(), Ok(Some(item("a", "1"))));
    assert!(w.is_running());

    let (all_tx, all_rx) = tokio::sync::oneshot::channel();
    w = w.step(Some(DbRequest::GetAll { respond_to: all_tx }));
    assert_eq!(all_rx.blocking_recv().unwrap(), Ok(vec![item("a", "1")]));
    assert!(w.is_running());
}

#[test]
fn worker_shutdown_is_terminal() {
    let engine = open(":memory:").unwrap();
    let mut w = Worker::start(engine);

    let (stop_tx, stop_rx) = tokio::sync::oneshot::channel();
    w = w.step(Some(DbRequest::Shutdown { respond_to: stop_tx }));
    assert_eq!(stop_rx.blocking_recv().unwrap(), Ok(()));
    assert!(!w.is_running());

    // A stopped worker drops the reply slot unanswered: the caller sees a
    // delivery error, never a hang.
    let (late_tx, late_rx) = tokio::sync::oneshot::channel();
    w = w.step(Some(DbRequest::GetAll { respond_to: late_tx }));
    assert!(!w.is_running());
    let late_reply = late_rx.blocking_recv().ok();
    assert_eq!(settle_reply(true, late_reply), Err(DbError::Delivery));
}

#[test]
fn worker_stops_when_the_queue_closes() {
    let engine = open(":memory:").unwrap();
    let w = Worker::start(engine);
    let w = w.step(None);
    assert!(!w.is_running());
}

#[test]
fn dropped_caller_never_stops_the_worker() {
    let engine = open(":memory:").unwrap();
    let mut w = Worker::start(engine);

    let (put_tx, put_rx) = tokio::sync::oneshot::channel();
    drop(put_rx);
    w = w.step(Some(DbRequest::PutItem {
        item: item("a", "1"),
        respond_to: put_tx,
    }));
    assert!(w.is_running());

    let (get_tx, get_rx) = tokio::sync::oneshot::channel();
    w = w.step(Some(DbRequest::GetItem {
        key: String::from("a"),
        respond_to: get_tx,
    }));
    assert_eq!(get_rx.blocking_recv().unwrap(), Ok(Some(item("a", "1"))));
}
