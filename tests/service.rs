use fast_realworld::db::service::{
    after_failure, classify, dispatch_outcome, ClientState, DispatchStep, ErrorClass, Failure, Retries,
    StatementAction, StatementEvent, StatementState, VersionedClient, VersionedStatement, MAX_RETRIES,
};
use fast_realworld::AppError;

type Client = VersionedClient<&'static str>;
type Statement = VersionedStatement<&'static str, u32>;

fn version_of(c: &Client) -> u64 {
    c.version()
}

/// A client connected at generation `v`.
fn client_at(v: u64) -> Client {
    let mut c = Client::new();
    for _ in 1..v {
        c.begin_connect();
        c.set_connected("old");
        c.set_disconnected();
    }
    c.begin_connect();
    c.set_connected("live");
    c
}

/// Runs `get_statement` against `client`, answering each request at once;
/// returns the actions taken.
fn resolve(stmt: &mut Statement, client: &Client, retries: &mut Retries, handle: u32) -> Vec<StatementAction> {
    let mut actions = Vec::new();
    let mut ev = StatementEvent::Poll;
    loop {
        let a = stmt.step(client, retries, ev);
        actions.push(a);
        ev = match a {
            StatementAction::FetchClient(_) => match client.get_state() {
                ClientState::Connected(v, _) => StatementEvent::ClientReady(*v),
                _ => panic!("test client is connected"),
            },
            StatementAction::Prepare(v) => StatementEvent::Prepared(v, "live", handle),
            StatementAction::Poll | StatementAction::Sleep => StatementEvent::Poll,
            _ => return actions,
        };
    }
}

#[test]
fn manager_connects_after_two_failures() {
    let mut c = Client::new();
    assert!(matches!(c.get_state(), ClientState::Disconnected(0)));
    let v = c.begin_connect();
    assert_eq!(v, 1);
    // two failed attempts: the generation stays the same
    for _ in 0..2 {
        assert!(matches!(c.get_state(), ClientState::Connecting(1)));
        assert_eq!(version_of(&c), 1);
    }
    c.set_connected("db");
    assert!(matches!(c.get_state(), ClientState::Connected(1, "db")));
    assert!(c.check_version(1));
    assert!(!c.check_version(0));
}

#[test]
fn manager_generation_grows_on_every_reconnect() {
    let mut c = client_at(1);
    c.set_disconnected();
    assert!(matches!(c.get_state(), ClientState::Disconnected(1)));
    assert!(!c.check_version(1));
    assert_eq!(c.begin_connect(), 2);
    c.set_connected("db2");
    assert!(c.check_version(2));
    assert!(!c.check_version(1));
}

#[test]
fn get_client_waits_then_gives_up() {
    let mut c = Client::new();
    c.begin_connect();
    let mut retries = Retries::new();
    for i in 1..MAX_RETRIES {
        assert!(matches!(c.get_client(&mut retries), Ok(None)));
        assert_eq!(retries.count(), i);
    }
    assert!(matches!(c.get_client(&mut retries), Err(AppError::DisconnectedError(_))));
    assert_eq!(retries.count(), MAX_RETRIES);
}

#[test]
fn get_client_hands_out_live_handle() {
    let c = client_at(3);
    let mut retries = Retries::new();
    match c.get_client(&mut retries) {
        Ok(Some((v, h))) => {
            assert_eq!(v, 3);
            assert_eq!(*h, "live");
        }
        _ => panic!("expected the live connection"),
    }
    assert_eq!(retries.count(), 0);
}

#[test]
fn stale_statement_is_reprepared_on_new_version() {
    // prepared at generation 3
    let c3 = client_at(3);
    let mut stmt = Statement::new("SELECT 1");
    let mut retries = Retries::new();
    let actions = resolve(&mut stmt, &c3, &mut retries, 30);
    assert_eq!(
        actions,
        vec![
            StatementAction::FetchClient(0),
            StatementAction::Prepare(3),
            StatementAction::Poll,
            StatementAction::Ready
        ]
    );
    assert_eq!(stmt.prepared().unwrap().get_version(), 3);

    // the manager has rotated to generation 4
    let c4 = client_at(4);
    let mut retries = Retries::new();
    let actions = resolve(&mut stmt, &c4, &mut retries, 40);
    assert_eq!(
        actions,
        vec![
            StatementAction::Poll,
            StatementAction::FetchClient(3),
            StatementAction::Prepare(4),
            StatementAction::Poll,
            StatementAction::Ready
        ]
    );
    let p = stmt.prepared().unwrap();
    assert_eq!(p.get_version(), 4);
    let (cl, st) = p.get_cl_statement();
    assert_eq!(*cl, "live");
    assert_eq!(*st, 40);
}

#[test]
fn stale_statement_is_never_ready() {
    let c4 = client_at(4);
    let mut stmt = Statement::new("SELECT 1");
    let mut retries = Retries::new();
    stmt.step(&c4, &mut retries, StatementEvent::Prepared(3, "old", 1));
    let a = stmt.step(&c4, &mut retries, StatementEvent::Poll);
    assert_eq!(a, StatementAction::Poll);
    assert!(matches!(stmt.get_state(), StatementState::Init(3)));
    assert!(stmt.prepared().is_none());
}

#[test]
fn prepared_statement_is_reused_while_version_holds() {
    let c = client_at(2);
    let mut stmt = Statement::new("SELECT 1");
    let mut retries = Retries::new();
    resolve(&mut stmt, &c, &mut retries, 7);
    for _ in 0..20 {
        let mut retries = Retries::new();
        assert_eq!(stmt.step(&c, &mut retries, StatementEvent::Poll), StatementAction::Ready);
        assert_eq!(retries.count(), 0);
        assert_eq!(stmt.prepared().unwrap().get_version(), 2);
        assert_eq!(*stmt.prepared().unwrap().get_cl_statement().1, 7);
    }
}

#[test]
fn concurrent_callers_wait_during_reconnect() {
    let c = client_at(5);
    let mut stmt = Statement::new("SELECT 1");
    let mut first = Retries::new();
    let mut second = Retries::new();
    // the first caller starts preparing
    assert_eq!(stmt.step(&c, &mut first, StatementEvent::Poll), StatementAction::FetchClient(0));
    // the second caller only waits
    assert_eq!(stmt.step(&c, &mut second, StatementEvent::Poll), StatementAction::Sleep);
    assert_eq!(stmt.step(&c, &mut first, StatementEvent::ClientReady(5)), StatementAction::Prepare(5));
    assert_eq!(stmt.step(&c, &mut second, StatementEvent::Poll), StatementAction::Sleep);
    assert_eq!(stmt.step(&c, &mut first, StatementEvent::Prepared(5, "live", 9)), StatementAction::Poll);
    // both now get the statement of the live generation
    assert_eq!(stmt.step(&c, &mut first, StatementEvent::Poll), StatementAction::Ready);
    assert_eq!(stmt.step(&c, &mut second, StatementEvent::Poll), StatementAction::Ready);
    assert_eq!(stmt.prepared().unwrap().get_version(), 5);
    assert_eq!(second.count(), 2);
}

#[test]
fn waiting_caller_gives_up_at_ceiling() {
    let c = client_at(1);
    let mut stmt = Statement::new("SELECT 1");
    let mut owner = Retries::new();
    stmt.step(&c, &mut owner, StatementEvent::Poll);
    let mut waiter = Retries::new();
    for _ in 1..MAX_RETRIES {
        assert_eq!(stmt.step(&c, &mut waiter, StatementEvent::Poll), StatementAction::Sleep);
    }
    assert_eq!(stmt.step(&c, &mut waiter, StatementEvent::Poll), StatementAction::GiveUp);
}

#[test]
fn execute_gives_up_after_tenth_closed_connection() {
    let mut retries = Retries::new();
    let mut outcomes = Vec::new();
    for _ in 0..12 {
        outcomes.push(after_failure(ErrorClass::ConnectionClosed, &mut retries));
    }
    for (i, f) in outcomes.iter().enumerate() {
        if i < 9 {
            assert_eq!(*f, Failure::Retry, "failure {}", i + 1);
        } else {
            assert_eq!(*f, Failure::GiveUp, "failure {}", i + 1);
        }
    }
    assert_eq!(outcomes.iter().position(|f| *f == Failure::GiveUp), Some(9));
    assert_eq!(retries.count(), MAX_RETRIES);
}

#[test]
fn malformed_query_fails_prepare_without_retry() {
    let c = client_at(1);
    let mut stmt = Statement::new("SELEC oops");
    let mut retries = Retries::new();
    assert_eq!(stmt.step(&c, &mut retries, StatementEvent::Poll), StatementAction::FetchClient(0));
    assert_eq!(stmt.step(&c, &mut retries, StatementEvent::ClientReady(1)), StatementAction::Prepare(1));
    let class = classify(true, false);
    assert_eq!(class, ErrorClass::Server);
    assert_eq!(
        stmt.step(&c, &mut retries, StatementEvent::PrepareFailed(1, class)),
        StatementAction::Propagate
    );
    assert_eq!(retries.count(), 0);
    assert!(matches!(stmt.get_state(), StatementState::Init(1)));
}

#[test]
fn prepare_on_closed_connection_is_retried() {
    let c = client_at(1);
    let mut stmt = Statement::new("SELECT 1");
    let mut retries = Retries::new();
    stmt.step(&c, &mut retries, StatementEvent::Poll);
    stmt.step(&c, &mut retries, StatementEvent::ClientReady(1));
    assert_eq!(
        stmt.step(&c, &mut retries, StatementEvent::PrepareFailed(1, ErrorClass::ConnectionClosed)),
        StatementAction::Poll
    );
    assert_eq!(retries.count(), 1);
    assert!(matches!(stmt.get_state(), StatementState::Init(1)));
}

#[test]
fn failed_connection_wait_propagates() {
    let c = Client::new();
    let mut stmt = Statement::new("SELECT 1");
    let mut retries = Retries::new();
    assert_eq!(stmt.step(&c, &mut retries, StatementEvent::Poll), StatementAction::FetchClient(0));
    assert!(matches!(stmt.get_state(), StatementState::WaitingClient(0)));
    assert_eq!(stmt.step(&c, &mut retries, StatementEvent::ClientFailed(0)), StatementAction::Propagate);
    assert!(matches!(stmt.get_state(), StatementState::Init(0)));
}

#[test]
fn query_opt_with_no_row_is_not_an_error() {
    let mut retries = Retries::new();
    match dispatch_outcome::<Option<i32>>(Ok(None), &mut retries) {
        DispatchStep::Done(Ok(None)) => {}
        _ => panic!("no row must be a success"),
    }
    match dispatch_outcome::<Option<i32>>(Ok(Some(42)), &mut retries) {
        DispatchStep::Done(Ok(Some(42))) => {}
        _ => panic!("one row must be handed back"),
    }
    assert_eq!(retries.count(), 0);
}

#[test]
fn classify_failures() {
    assert_eq!(classify(true, false), ErrorClass::Server);
    assert_eq!(classify(true, true), ErrorClass::Server);
    assert_eq!(classify(false, true), ErrorClass::ConnectionClosed);
    assert_eq!(classify(false, false), ErrorClass::OtherClient);
}

#[test]
fn other_failures_propagate_without_counting() {
    let mut retries = Retries::new();
    assert_eq!(after_failure(ErrorClass::Server, &mut retries), Failure::Propagate);
    assert_eq!(after_failure(ErrorClass::OtherClient, &mut retries), Failure::Propagate);
    assert_eq!(retries.count(), 0);
}

#[test]
fn retries_record_stops_at_ceiling() {
    let mut r = Retries::new();
    for i in 1..MAX_RETRIES {
        assert!(r.record());
        assert_eq!(r.count(), i);
    }
    assert!(!r.record());
    assert!(!r.record());
    assert_eq!(r.count(), MAX_RETRIES);
}

#[test]
fn statement_keeps_its_query() {
    let stmt = Statement::new("SELECT tag_name FROM article_tags");
    assert_eq!(stmt.query(), "SELECT tag_name FROM article_tags");
    assert!(matches!(stmt.get_state(), StatementState::Init(0)));
}
