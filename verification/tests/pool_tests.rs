use async_sqlite::{
    AcquireStep, ClientBuilder, JournalMode, PoolBuilder, PoolState, ReleaseStep, SqlError,
    collect_close_failures, collect_close_results, collect_open_results, create_conn,
};

#[test]
fn pool_builder_get_num_conns() {
    let b = PoolBuilder::new().num_conns(3);
    assert_eq!(b.get_num_conns(8), 3);
    let b = PoolBuilder::new();
    assert_eq!(b.get_num_conns(8), 8);
    assert_eq!(b.get_num_conns(0), 1);
}

#[test]
fn pool_builder_client_builder_copies_config() {
    let b = PoolBuilder::new()
        .path("some.db")
        .journal_mode(JournalMode::Off)
        .vfs("unix")
        .num_conns(2);
    let cb: ClientBuilder = b.client_builder();
    assert_eq!(cb.path.as_deref(), Some("some.db"));
    assert_eq!(cb.vfs.as_deref(), Some("unix"));
    assert_eq!(cb.journal_mode.map(|m| m.as_str()), Some("OFF"));
}

#[test]
fn collect_open_results_all_ok() {
    let results: Vec<Result<u32, SqlError>> = vec![Ok(1), Ok(2), Ok(3)];
    let vs = collect_open_results(results).unwrap();
    assert_eq!(vs, vec![1, 2, 3]);
}

#[test]
fn collect_open_results_first_error() {
    let results: Vec<Result<u32, SqlError>> =
        vec![Ok(1), Err(SqlError::Closed), Err(SqlError::Closed)];
    assert!(matches!(
        collect_open_results(results),
        Err(SqlError::Closed)
    ));
}

#[test]
fn collect_close_results_aggregates() {
    let results: Vec<Result<(), SqlError>> = vec![Ok(()), Ok(())];
    assert!(collect_close_results(results).is_ok());
    let results: Vec<Result<(), SqlError>> = vec![Ok(()), Err(SqlError::Closed), Ok(())];
    assert!(matches!(
        collect_close_results(results),
        Err(SqlError::Closed)
    ));
}

#[test]
fn collect_results_of_nothing() {
    let none: Vec<Result<(), SqlError>> = vec![];
    assert!(collect_close_results(none).is_ok());
    let none: Vec<Result<u32, SqlError>> = vec![];
    assert_eq!(collect_open_results(none).unwrap(), Vec::<u32>::new());
}

#[test]
fn collect_close_failures_lists_all() {
    let results: Vec<Result<(), SqlError>> = vec![
        Ok(()),
        Err(SqlError::Closed),
        Ok(()),
        Err(SqlError::Closed),
    ];
    let fails = collect_close_failures(results);
    assert_eq!(fails.len(), 2);
    assert!(fails.iter().all(|e| matches!(e, SqlError::Closed)));
}

#[test]
fn pool_state_saturation_bound() {
    // With max_conns == 2, a third concurrent acquire must wait: the pool
    // never checks out more handles than its bound.
    let mut s = PoolState::new(2);
    assert!(matches!(s.acquire(), AcquireStep::StartCreate));
    s.create_finished();
    assert!(matches!(s.acquire(), AcquireStep::StartCreate));
    s.create_finished();
    assert_eq!(s.in_use, 2);
    match s.acquire() {
        AcquireStep::Wait { .. } => {}
        _ => panic!("a saturated pool must enqueue a waiter"),
    }
    assert_eq!(s.in_use, 2);
    assert!(s.in_use <= s.max_conns);
    assert_eq!(s.count, 2);
}

#[test]
fn pool_state_closed_behaviour() {
    // After close begins, every acquire fails and a second close is a
    // defined error, never a hang.
    let mut s = PoolState::new(1);
    assert!(matches!(s.acquire(), AcquireStep::StartCreate));
    s.create_finished();
    match s.release(0) {
        ReleaseStep::MadeIdle => {}
        _ => panic!("no waiter was pending, the handle must be parked idle"),
    }
    let (to_drain, abandoned) = s.close_begin().expect("first close must begin");
    assert_eq!(to_drain, vec![0], "the idle handle goes to the coordinator");
    assert!(abandoned.is_empty());
    assert!(s.closing);
    assert!(matches!(s.acquire(), AcquireStep::Refused));
    assert!(matches!(s.close_begin(), Err(SqlError::Closed)));
    s.actor_drained();
    assert!(s.close_finished());
}

#[test]
fn pool_state_direct_handoff_to_waiter() {
    // max_conns == 1 with a waiter pending: the released handle is handed
    // straight to the waiter, never becoming observably idle in between.
    let mut s = PoolState::new(1);
    assert!(matches!(s.acquire(), AcquireStep::StartCreate));
    s.create_finished();
    let waiter = match s.acquire() {
        AcquireStep::Wait { waiter } => waiter,
        _ => panic!("the sole handle is checked out, the acquire must wait"),
    };
    match s.release(42) {
        ReleaseStep::HandToWaiter { waiter: w, handle } => {
            assert_eq!(w, waiter);
            assert_eq!(handle, 42);
        }
        _ => panic!("the handle must go directly to the pending waiter"),
    }
    assert!(s.idle.is_empty(), "the handle never touched the idle list");
    assert_eq!(s.in_use, 1, "the handle stays checked out, now by the waiter");
}

#[test]
fn pool_state_abandoned_waiter_is_removed() {
    let mut s = PoolState::new(1);
    assert!(matches!(s.acquire(), AcquireStep::StartCreate));
    s.create_finished();
    let waiter = match s.acquire() {
        AcquireStep::Wait { waiter } => waiter,
        _ => panic!("expected a waiter"),
    };
    s.waiter_abandoned(waiter);
    assert!(s.waiters.is_empty());
    match s.release(7) {
        ReleaseStep::MadeIdle => {}
        _ => panic!("an abandoned waiter must never be granted a handle"),
    }
}

#[test]
fn pool_state_creation_failure_restores_count() {
    // Opening with an invalid configuration fails; the pool's accounting
    // must return to zero rather than leak the reserved slot.
    let mut s = PoolState::new(1);
    assert!(matches!(s.acquire(), AcquireStep::StartCreate));
    assert_eq!(s.count, 1);
    let builder = ClientBuilder::new().path("/this/path/does/not/exist/db.sqlite3");
    let opened = create_conn(builder);
    assert!(matches!(opened, Err(SqlError::Rusqlite(_))));
    let notify = s.create_failed();
    assert!(!notify, "the pool is not closing, nobody to notify");
    assert_eq!(s.count, 0, "a failed open must not leak capacity");
    // The pool is still usable afterwards.
    assert!(matches!(s.acquire(), AcquireStep::StartCreate));
}

#[test]
fn pool_state_close_waits_for_inflight() {
    // One operation is mid-flight on the only actor while close begins:
    // shutdown completes only after that handle is released, forwarded to
    // the coordinator, and its actor drained.
    let mut s = PoolState::new(1);
    assert!(matches!(s.acquire(), AcquireStep::StartCreate));
    s.create_finished();
    let (to_drain, abandoned) = s.close_begin().expect("close must begin");
    assert!(to_drain.is_empty());
    assert!(abandoned.is_empty());
    assert!(!s.close_finished(), "an operation is still mid-flight");
    match s.release(0) {
        ReleaseStep::ForwardToCloser { handle } => assert_eq!(handle, 0),
        _ => panic!("a release while closing goes to the coordinator"),
    }
    assert!(!s.close_finished(), "the forwarded actor is not yet drained");
    s.actor_drained();
    assert!(s.close_finished());
}

#[test]
fn pool_state_drain_batch_counts_down() {
    // Two idle actors are captured when close begins; one of them fails
    // to close. Both are still drained — one failure does not block the
    // other — and the failure stays observable.
    let mut s = PoolState::new(2);
    assert!(matches!(s.acquire(), AcquireStep::StartCreate));
    s.create_finished();
    assert!(matches!(s.acquire(), AcquireStep::StartCreate));
    s.create_finished();
    assert!(matches!(s.release(0), ReleaseStep::MadeIdle));
    assert!(matches!(s.release(1), ReleaseStep::MadeIdle));
    let (to_drain, _) = s.close_begin().expect("close must begin");
    assert_eq!(to_drain, vec![0, 1]);
    assert!(!s.close_finished());
    let fails = s.drain_batch(vec![Ok(()), Err(SqlError::Closed)]);
    assert_eq!(fails.len(), 1);
    assert!(matches!(fails[0], SqlError::Closed));
    assert!(s.close_finished());
}

#[test]
fn pool_two_conns_ten_reads() {
    // Two connections onto one shared in-memory database, ten operations
    // reading a pre-seeded single row through the pool's bookkeeping: all
    // ten return the seeded value.
    let uri = "file:pool_two_conns_ten_reads?mode=memory&cache=shared";
    let seed = create_conn(ClientBuilder::new().path(uri)).expect("client unable to be opened");
    seed.execute(
        "CREATE TABLE testing (id INTEGER PRIMARY KEY, val TEXT NOT NULL)",
        (),
    )
    .expect("writing schema and seed data");
    seed.execute("INSERT INTO testing VALUES (1, ?)", ["value1"])
        .expect("writing schema and seed data");

    let mut s = PoolState::new(2);
    let mut conns: Vec<rusqlite::Connection> = Vec::new();
    let mut reads = 0;
    while reads < 10 {
        // Check two handles out, run one read on each, give both back.
        let mut held: Vec<u64> = Vec::new();
        for _ in 0..2 {
            match s.acquire() {
                AcquireStep::Reuse { handle } => held.push(handle),
                AcquireStep::StartCreate => {
                    let conn = create_conn(ClientBuilder::new().path(uri))
                        .expect("client unable to be opened");
                    conns.push(conn);
                    s.create_finished();
                    held.push((conns.len() - 1) as u64);
                }
                _ => panic!("the pool has room for two handles"),
            }
        }
        assert!(s.in_use <= s.max_conns);
        for handle in held {
            let conn = &conns[handle as usize];
            let val: String = conn
                .query_row("SELECT val FROM testing WHERE id=?", [1], |row| row.get(0))
                .expect("querying for result");
            assert_eq!(val, "value1");
            reads += 1;
            match s.release(handle) {
                ReleaseStep::MadeIdle | ReleaseStep::HandToWaiter { .. } => {}
                _ => panic!("the pool is not closing"),
            }
        }
    }
    assert_eq!(reads, 10);
    assert_eq!(conns.len(), 2, "the pool never created beyond its bound");
}
