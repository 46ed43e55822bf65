//! The resilient connection layer: one logical connection per worker that
//! survives connection loss, and statement handles that are only ever used
//! on the connection they were prepared on.
//!
//! Everything here is a decision: the connection manager's state and its
//! transitions, one step of resolving a prepared statement, and what follows
//! a failed database call.  The caller performs each action (connect, wait,
//! prepare, dispatch) and hands the outcome back as the next event.
use vstd::prelude::*;

use crate::error::{disconnected, AppError};

verus! {

/// How many failed attempts a caller sits through before giving up.
pub const MAX_RETRIES: u32 = 10;

/// Pause between two looks at a state that is still changing.
pub const POLL_INTERVAL_MS: u64 = 100;

/// Pause before a new attempt at the physical connection.
pub const RECONNECT_BACKOFF_MS: u64 = 500;

// ---------------------------------------------------------------------------
// Bounded retries
// ---------------------------------------------------------------------------

/// Counts the failed attempts of one call, up to `MAX_RETRIES`.
pub struct Retries {
    used: u32,
}

impl Retries {
    pub closed spec fn used(&self) -> nat {
        self.used as nat
    }

    pub fn new() -> (r: Retries)
        ensures
            r.used() == 0,
    {
        Retries { used: 0 }
    }

    pub fn count(&self) -> (r: u32)
        ensures
            r == self.used(),
    {
        self.used
    }

    /// Records one failed attempt; tells whether another one is allowed.
    pub fn record(&mut self) -> (more: bool)
        ensures
            final(self).used() == counted(old(self).used()),
            more == (final(self).used() < MAX_RETRIES),
    {
        if self.used < MAX_RETRIES {
            self.used = self.used + 1;
        }
        self.used < MAX_RETRIES
    }
}

/// The number of failed attempts after one more, which stops at the ceiling.
pub open spec fn counted(used: nat) -> nat {
    if used < MAX_RETRIES { used + 1 } else { used }
}

// ---------------------------------------------------------------------------
// Classifying database failures
// ---------------------------------------------------------------------------

/// What kind of failure a database call ended with.
#[derive(Debug, Clone, Copy, PartialEq, Eq, Structural)]
pub enum ErrorClass {
    /// The client lost its connection: transient, retried.
    ConnectionClosed,
    /// The client failed for another reason: not retried.
    OtherClient,
    /// The server rejected the request (it carries an error code): not retried.
    Server,
}

pub open spec fn class_of(has_code: bool, closed: bool) -> ErrorClass {
    if has_code {
        ErrorClass::Server
    } else if closed {
        ErrorClass::ConnectionClosed
    } else {
        ErrorClass::OtherClient
    }
}

/// Classifies a failure from whether the server gave an error code and
/// whether the client reports its connection as closed.
pub fn classify(has_code: bool, closed: bool) -> (r: ErrorClass)
    ensures
        r == class_of(has_code, closed),
{
    if has_code {
        ErrorClass::Server
    } else if closed {
        ErrorClass::ConnectionClosed
    } else {
        ErrorClass::OtherClient
    }
}

/// Whether `tokio_postgres::Error::code` gives a code for this error.
pub uninterp spec fn pg_has_code(e: tokio_postgres::Error) -> bool;

/// What `tokio_postgres::Error::is_closed` says of this error.
pub uninterp spec fn pg_closed(e: tokio_postgres::Error) -> bool;

/// Relies on `tokio_postgres::Error::code`, which is `Some` exactly for errors
/// that the server reported; it depends on the error alone.
#[verifier::external_body]
fn pg_error_has_code(e: &tokio_postgres::Error) -> (r: bool)
    ensures
        r == pg_has_code(*e),
{
    e.code().is_some()
}

/// Relies on `tokio_postgres::Error::is_closed`: whether the error comes from a
/// closed connection; it depends on the error alone.
#[verifier::external_body]
fn pg_error_is_closed(e: &tokio_postgres::Error) -> (r: bool)
    ensures
        r == pg_closed(*e),
{
    e.is_closed()
}

/// The class of an error of the database client.
pub open spec fn pg_class(e: tokio_postgres::Error) -> ErrorClass {
    class_of(pg_has_code(e), pg_closed(e))
}

/// Classifies an error of the database client by its structure: whether
/// the server sent an error code, and whether the client reports a closed
/// connection.
pub fn classify_pg_error(e: &tokio_postgres::Error) -> (r: ErrorClass)
    ensures
        r == pg_class(*e),
{
    let has_code = pg_error_has_code(e);
    let closed = pg_error_is_closed(e);
    classify(has_code, closed)
}

/// What to do after a failed database call.
#[derive(Debug, Clone, Copy, PartialEq, Eq, Structural)]
pub enum Failure {
    /// Wait a poll interval and try the whole call again.
    Retry,
    /// The retries are used up: fail with the disconnected error.
    GiveUp,
    /// Fail at once with the error itself.
    Propagate,
}

pub open spec fn failure_of(class: ErrorClass, used_after: nat) -> Failure {
    if class != ErrorClass::ConnectionClosed {
        Failure::Propagate
    } else if used_after < MAX_RETRIES {
        Failure::Retry
    } else {
        Failure::GiveUp
    }
}

/// Decides what follows a failure of the given class: a closed connection
/// counts one retry and is tried again until the retries are used up;
/// anything else is handed to the caller at once, without counting.
pub fn after_failure(class: ErrorClass, retries: &mut Retries) -> (r: Failure)
    ensures
        final(retries).used() == if class == ErrorClass::ConnectionClosed {
            counted(old(retries).used())
        } else {
            old(retries).used()
        },
        r == failure_of(class, final(retries).used()),
{
    match class {
        ErrorClass::ConnectionClosed => {
            if retries.record() {
                Failure::Retry
            } else {
                Failure::GiveUp
            }
        },
        _ => Failure::Propagate,
    }
}

/// What follows one dispatch of a prepared statement.
pub enum DispatchStep<T> {
    /// The call is over, with this result.
    Done(Result<T, AppError>),
    /// Wait a poll interval, resolve the statement again and dispatch again.
    Retry,
}

/// Decides what follows the outcome of one dispatch: a result is handed back
/// unchanged, a closed connection is retried until the retries are used up,
/// any other error is handed back at once.
pub fn dispatch_outcome<T>(outcome: Result<T, tokio_postgres::Error>, retries: &mut Retries) -> (r:
    DispatchStep<T>)
    ensures
        outcome is Ok ==> r == DispatchStep::<T>::Done(Ok(outcome->Ok_0)) && final(retries).used()
            == old(retries).used(),
        outcome is Err ==> {
            let class = pg_class(outcome->Err_0);
            &&& final(retries).used() == if class == ErrorClass::ConnectionClosed {
                counted(old(retries).used())
            } else {
                old(retries).used()
            }
            &&& match failure_of(class, final(retries).used()) {
                Failure::Retry => r is Retry,
                Failure::GiveUp => r matches DispatchStep::Done(Err(AppError::DisconnectedError(_))),
                Failure::Propagate => r == DispatchStep::<T>::Done(
                    Err(AppError::PgError { source: outcome->Err_0 }),
                ),
            }
        },
{
    match outcome {
        Ok(v) => DispatchStep::Done(Ok(v)),
        Err(e) => {
            let class = classify_pg_error(&e);
            match after_failure(class, retries) {
                Failure::Retry => DispatchStep::Retry,
                Failure::GiveUp => DispatchStep::Done(Err(disconnected())),
                Failure::Propagate => DispatchStep::Done(Err(AppError::PgError { source: e })),
            }
        },
    }
}

/// The retries counted after `n` failed rounds in a row, from none.
pub open spec fn used_after(n: nat) -> nat
    decreases n,
{
    if n == 0 {
        0
    } else {
        counted(used_after((n - 1) as nat))
    }
}

/// Failures of a closed connection in a row are retried until the one that
/// brings the count to `MAX_RETRIES`, which gives up with the disconnected
/// error: no call sits through more than `MAX_RETRIES` of them.
pub proof fn law_closed_failures_give_up_at_ceiling(n: nat)
    requires
        n >= 1,
    ensures
        used_after(n) == if n < MAX_RETRIES { n } else { MAX_RETRIES as nat },
        failure_of(ErrorClass::ConnectionClosed, used_after(n)) == if n < MAX_RETRIES {
            Failure::Retry
        } else {
            Failure::GiveUp
        },
    decreases n,
{
    assert(used_after(0) == 0);
    if n > 1 {
        law_closed_failures_give_up_at_ceiling((n - 1) as nat);
    }
}

// ---------------------------------------------------------------------------
// Connection manager
// ---------------------------------------------------------------------------

/// The state of the one physical connection, tagged with its generation.
pub enum ClientState<C> {
    Disconnected(u64),
    Connecting(u64),
    Connected(u64, C),
}

impl<C> ClientState<C> {
    pub open spec fn version(self) -> u64 {
        match self {
            ClientState::Disconnected(v) => v,
            ClientState::Connecting(v) => v,
            ClientState::Connected(v, _) => v,
        }
    }

    /// Whether the connection of generation `v` is the live one.
    pub open spec fn is_live(self, v: u64) -> bool {
        self matches ClientState::Connected(w, _) && w == v
    }
}

/// The connection manager's state: the connection handle of type `C`, and
/// a generation number that grows with every new connect sequence.
pub struct VersionedClient<C> {
    state: ClientState<C>,
}

impl<C> VersionedClient<C> {
    pub closed spec fn state(&self) -> ClientState<C> {
        self.state
    }

    pub fn new() -> (r: Self)
        ensures
            r.state() == ClientState::<C>::Disconnected(0),
    {
        VersionedClient { state: ClientState::Disconnected(0) }
    }

    pub fn get_state(&self) -> (r: &ClientState<C>)
        ensures
            *r == self.state(),
    {
        &self.state
    }

    /// The current generation.
    pub fn version(&self) -> (r: u64)
        ensures
            r == self.state().version(),
    {
        match &self.state {
            ClientState::Disconnected(v) => *v,
            ClientState::Connecting(v) => *v,
            ClientState::Connected(v, _) => *v,
        }
    }

    /// Starts a new connect sequence under the next generation.
    pub fn begin_connect(&mut self) -> (v: u64)
        requires
            old(self).state().version() < u64::MAX,
        ensures
            v == old(self).state().version() + 1,
            final(self).state() == ClientState::<C>::Connecting(v),
    {
        let v = self.version() + 1;
        self.state = ClientState::Connecting(v);
        v
    }

    /// The connect sequence of the current generation succeeded.  Only a
    /// connect sequence in progress can succeed, so no generation ever gets a
    /// second handle.
    pub fn set_connected(&mut self, cl: C)
        requires
            old(self).state() is Connecting,
        ensures
            final(self).state() == ClientState::Connected(old(self).state().version(), cl),
    {
        let v = self.version();
        self.state = ClientState::Connected(v, cl);
    }

    /// The live connection closed; its generation is over.
    pub fn set_disconnected(&mut self)
        ensures
            final(self).state() == ClientState::<C>::Disconnected(old(self).state().version()),
    {
        let v = self.version();
        self.state = ClientState::Disconnected(v);
    }

    /// Whether the connection of generation `version` is the live one.
    pub fn check_version(&self, version: u64) -> (r: bool)
        ensures
            r == self.state().is_live(version),
    {
        match &self.state {
            ClientState::Connected(v, _) => *v == version,
            _ => false,
        }
    }

    /// One look at the connection: the live handle and its generation, or
    /// `None` when the caller should wait a poll interval and look again, or
    /// the disconnected error once the retries are used up.
    pub fn get_client(&self, retries: &mut Retries) -> (r: Result<Option<(u64, &C)>, AppError>)
        ensures
            match self.state() {
                ClientState::Connected(v, c) => r matches Ok(Some((w, h))) && w == v && *h == c
                    && final(retries).used() == old(retries).used(),
                _ => {
                    &&& final(retries).used() == counted(old(retries).used())
                    &&& (r is Err <==> final(retries).used() >= MAX_RETRIES)
                    &&& (r is Err ==> r->Err_0 is DisconnectedError)
                    &&& (r is Ok ==> r matches Ok(None))
                },
            },
    {
        match &self.state {
            ClientState::Connected(v, c) => Ok(Some((*v, c))),
            _ => {
                if retries.record() {
                    Ok(None)
                } else {
                    Err(disconnected())
                }
            },
        }
    }
}

// ---------------------------------------------------------------------------
// Statement handle
// ---------------------------------------------------------------------------

/// A statement prepared on the connection of generation `version`.
pub struct ClientStatement<C, S> {
    pub version: u64,
    pub cl: C,
    pub statement: S,
}

impl<C, S> ClientStatement<C, S> {
    pub fn get_version(&self) -> (r: u64)
        ensures
            r == self.version,
    {
        self.version
    }

    pub fn get_cl_statement(&self) -> (r: (&C, &S))
        ensures
            *r.0 == self.cl,
            *r.1 == self.statement,
    {
        (&self.cl, &self.statement)
    }
}

/// Where a statement handle stands in preparing its query.
pub enum StatementState<C, S> {
    /// Nothing is in flight for this generation.
    Init(u64),
    /// A caller is waiting for the connection.
    WaitingClient(u64),
    /// A caller is preparing the statement on the connection of this generation.
    Preparing(u64),
    /// Ready to use while its generation is the live one.
    Prepared(ClientStatement<C, S>),
}

/// What happened since the last step of `get_statement`.
pub enum StatementEvent<C, S> {
    /// Nothing yet: a look at the state.
    Poll,
    /// The manager handed out the connection of this generation.
    ClientReady(u64),
    /// No connection could be had; the wait started from this generation.
    ClientFailed(u64),
    /// The statement was prepared on the connection of this generation.
    Prepared(u64, C, S),
    /// Preparing on the connection of this generation failed this way.
    PrepareFailed(u64, ErrorClass),
}

/// What the caller of `get_statement` does next.
#[derive(Debug, Clone, Copy, PartialEq, Eq, Structural)]
pub enum StatementAction {
    /// Use the prepared statement: it belongs to the live connection.
    Ready,
    /// Ask the connection manager for the live connection.
    FetchClient(u64),
    /// Prepare the query on the connection of this generation.
    Prepare(u64),
    /// Wait a poll interval, then poll.
    Sleep,
    /// Poll again at once.
    Poll,
    /// Fail with the disconnected error.
    GiveUp,
    /// Fail with the error that came with the event.
    Propagate,
}

/// The statement state after an event.
pub open spec fn next_state<C, S>(s: StatementState<C, S>, c: ClientState<C>, ev: StatementEvent<C, S>) -> StatementState<C, S> {
    match ev {
        StatementEvent::Poll => match s {
            StatementState::Init(v) => StatementState::WaitingClient(v),
            StatementState::Prepared(p) => if c.is_live(p.version) {
                s
            } else {
                StatementState::Init(p.version)
            },
            _ => s,
        },
        StatementEvent::ClientReady(v) => StatementState::Preparing(v),
        StatementEvent::ClientFailed(v) => StatementState::Init(v),
        StatementEvent::Prepared(v, cl, st) => StatementState::Prepared(
            ClientStatement { version: v, cl, statement: st },
        ),
        StatementEvent::PrepareFailed(v, _) => StatementState::Init(v),
    }
}

/// Whether an event ends a round of `get_statement` that counts as a retry.
pub open spec fn counts_retry<C, S>(s: StatementState<C, S>, c: ClientState<C>, ev: StatementEvent<C, S>) -> bool {
    match ev {
        StatementEvent::Poll => match s {
            StatementState::Init(_) => false,
            StatementState::Prepared(p) => !c.is_live(p.version),
            _ => true,
        },
        StatementEvent::Prepared(..) => true,
        StatementEvent::PrepareFailed(_, class) => class == ErrorClass::ConnectionClosed,
        _ => false,
    }
}

/// The next action, before the retry ceiling is taken into account.
pub open spec fn planned_action<C, S>(s: StatementState<C, S>, c: ClientState<C>, ev: StatementEvent<C, S>) -> StatementAction {
    match ev {
        StatementEvent::Poll => match s {
            StatementState::Init(v) => StatementAction::FetchClient(v),
            StatementState::Prepared(p) => if c.is_live(p.version) {
                StatementAction::Ready
            } else {
                StatementAction::Poll
            },
            _ => StatementAction::Sleep,
        },
        StatementEvent::ClientReady(v) => StatementAction::Prepare(v),
        StatementEvent::ClientFailed(_) => StatementAction::Propagate,
        StatementEvent::Prepared(..) => StatementAction::Poll,
        StatementEvent::PrepareFailed(_, class) => if class == ErrorClass::ConnectionClosed {
            StatementAction::Poll
        } else {
            StatementAction::Propagate
        },
    }
}

/// The next action: a round that counts as a retry gives up once the
/// retries are used up.
pub open spec fn next_action<C, S>(s: StatementState<C, S>, c: ClientState<C>, ev: StatementEvent<C, S>, used: nat) -> StatementAction {
    if counts_retry(s, c, ev) && counted(used) >= MAX_RETRIES {
        StatementAction::GiveUp
    } else {
        planned_action(s, c, ev)
    }
}

/// A query, and the statement prepared for it on the live connection.
pub struct VersionedStatement<C, S> {
    state: StatementState<C, S>,
    query: String,
}

impl<C, S> VersionedStatement<C, S> {
    pub closed spec fn state(&self) -> StatementState<C, S> {
        self.state
    }

    pub closed spec fn query_text(&self) -> Seq<char> {
        self.query@
    }

    pub fn new(query: &str) -> (r: Self)
        ensures
            r.state() == StatementState::<C, S>::Init(0),
            r.query_text() == query@,
    {
        VersionedStatement { state: StatementState::Init(0), query: String::from_str(query) }
    }

    /// The query text to prepare.
    pub fn query(&self) -> (r: &str)
        ensures
            r@ == self.query_text(),
    {
        self.query.as_str()
    }

    pub fn get_state(&self) -> (r: &StatementState<C, S>)
        ensures
            *r == self.state(),
    {
        &self.state
    }

    /// The prepared statement, if there is one.
    pub fn prepared(&self) -> (r: Option<&ClientStatement<C, S>>)
        ensures
            match self.state() {
                StatementState::Prepared(p) => r matches Some(q) && *q == p,
                _ => r is None,
            },
    {
        match &self.state {
            StatementState::Prepared(p) => Some(p),
            _ => None,
        }
    }

    /// One step of `get_statement`: takes what happened since the last step,
    /// moves the state, counts a retry when the round failed, and says what
    /// the caller does next.
    pub fn step(&mut self, client: &VersionedClient<C>, retries: &mut Retries, event: StatementEvent<C, S>) -> (r: StatementAction)
        ensures
            final(self).state() == next_state(old(self).state(), client.state(), event),
            final(self).query_text() == old(self).query_text(),
            final(retries).used() == if counts_retry(old(self).state(), client.state(), event) {
                counted(old(retries).used())
            } else {
                old(retries).used()
            },
            r == next_action(old(self).state(), client.state(), event, old(retries).used()),
    {
        let planned = match event {
            StatementEvent::Poll => {
                let (next, planned) = match &self.state {
                    StatementState::Init(v) => (Some(StatementState::WaitingClient(*v)), StatementAction::FetchClient(*v)),
                    StatementState::WaitingClient(_) => (None, StatementAction::Sleep),
                    StatementState::Preparing(_) => (None, StatementAction::Sleep),
                    StatementState::Prepared(p) => {
                        if client.check_version(p.version) {
                            (None, StatementAction::Ready)
                        } else {
                            (Some(StatementState::Init(p.version)), StatementAction::Poll)
                        }
                    },
                };
                if let Some(next) = next {
                    self.state = next;
                }
                planned
            },
            StatementEvent::ClientReady(v) => {
                self.state = StatementState::Preparing(v);
                StatementAction::Prepare(v)
            },
            StatementEvent::ClientFailed(v) => {
                self.state = StatementState::Init(v);
                StatementAction::Propagate
            },
            StatementEvent::Prepared(v, cl, st) => {
                self.state = StatementState::Prepared(ClientStatement { version: v, cl, statement: st });
                StatementAction::Poll
            },
            StatementEvent::PrepareFailed(v, class) => {
                self.state = StatementState::Init(v);
                if class == ErrorClass::ConnectionClosed {
                    StatementAction::Poll
                } else {
                    StatementAction::Propagate
                }
            },
        };
        let counts = match planned {
            StatementAction::Sleep => true,
            StatementAction::Poll => true,
            _ => false,
        };
        if counts {
            if retries.record() {
                planned
            } else {
                StatementAction::GiveUp
            }
        } else {
            planned
        }
    }

    /// Takes the outcome of asking the manager for the connection (after
    /// `FetchClient(v)`): the connection's generation and handle are handed
    /// back to be prepared on, the manager's error is handed back unchanged.
    pub fn after_fetch(
        &mut self,
        client: &VersionedClient<C>,
        retries: &mut Retries,
        v: u64,
        fetched: Result<(u64, C), AppError>,
    ) -> (r: Result<(u64, C), AppError>)
        ensures
            r == fetched,
            final(retries).used() == old(retries).used(),
            final(self).query_text() == old(self).query_text(),
            match fetched {
                Ok((w, _)) => final(self).state() == next_state(
                    old(self).state(),
                    client.state(),
                    StatementEvent::<C, S>::ClientReady(w),
                ),
                Err(_) => final(self).state() == next_state(
                    old(self).state(),
                    client.state(),
                    StatementEvent::<C, S>::ClientFailed(v),
                ),
            },
    {
        match fetched {
            Ok((w, cl)) => {
                self.step(client, retries, StatementEvent::ClientReady(w));
                Ok((w, cl))
            },
            Err(e) => {
                self.step(client, retries, StatementEvent::ClientFailed(v));
                Err(e)
            },
        }
    }

    /// Takes the outcome of preparing the query on the connection `cl` of
    /// generation `v` (after `Prepare(v)`): `Ok(())` means look at the state
    /// again; a closed connection is retried until the retries are used up;
    /// any other error is handed back as it came.
    pub fn after_prepare(
        &mut self,
        client: &VersionedClient<C>,
        retries: &mut Retries,
        v: u64,
        cl: C,
        prepared: Result<S, tokio_postgres::Error>,
    ) -> (r: Result<(), AppError>)
        ensures
            final(self).query_text() == old(self).query_text(),
            match prepared {
                Ok(st) => {
                    let ev = StatementEvent::Prepared(v, cl, st);
                    &&& final(self).state() == next_state(old(self).state(), client.state(), ev)
                    &&& final(retries).used() == counted(old(retries).used())
                    &&& if next_action(old(self).state(), client.state(), ev, old(retries).used())
                        == StatementAction::GiveUp {
                        r matches Err(AppError::DisconnectedError(_))
                    } else {
                        r is Ok
                    }
                },
                Err(e) => {
                    let ev = StatementEvent::<C, S>::PrepareFailed(v, pg_class(e));
                    &&& final(self).state() == next_state(old(self).state(), client.state(), ev)
                    &&& final(retries).used() == if pg_class(e) == ErrorClass::ConnectionClosed {
                        counted(old(retries).used())
                    } else {
                        old(retries).used()
                    }
                    &&& match next_action(old(self).state(), client.state(), ev, old(retries).used()) {
                        StatementAction::Poll => r is Ok,
                        StatementAction::GiveUp => r matches Err(AppError::DisconnectedError(_)),
                        StatementAction::Propagate => r == Err::<(), AppError>(
                            AppError::PgError { source: e },
                        ),
                        _ => false,
                    }
                },
            },
    {
        match prepared {
            Ok(st) => {
                let action = self.step(client, retries, StatementEvent::Prepared(v, cl, st));
                match action {
                    StatementAction::GiveUp => Err(disconnected()),
                    _ => Ok(()),
                }
            },
            Err(e) => {
                let class = classify_pg_error(&e);
                let action = self.step(client, retries, StatementEvent::PrepareFailed(v, class));
                match action {
                    StatementAction::Poll => Ok(()),
                    StatementAction::Propagate => Err(AppError::PgError { source: e }),
                    _ => Err(disconnected()),
                }
            },
        }
    }
}

// ---------------------------------------------------------------------------
// Laws of the statement handle
// ---------------------------------------------------------------------------

/// A statement is handed out for dispatch only by a look at a prepared
/// statement whose generation is the live connection's, and the look leaves
/// it in place: nothing prepared on an earlier connection is ever dispatched.
pub proof fn law_ready_only_on_live_version<C, S>(
    s: StatementState<C, S>,
    c: ClientState<C>,
    ev: StatementEvent<C, S>,
    used: nat,
)
    ensures
        next_action(s, c, ev, used) == StatementAction::Ready ==> {
            &&& ev is Poll
            &&& s is Prepared
            &&& c.is_live(s->Prepared_0.version)
            &&& next_state(s, c, ev) == s
        },
{
}

/// The statement state and the retries counted after a run of steps of one
/// call, each step taken against the connection state of its moment.
pub open spec fn run<C, S>(
    s: StatementState<C, S>,
    used: nat,
    steps: Seq<(ClientState<C>, StatementEvent<C, S>)>,
) -> (StatementState<C, S>, nat)
    decreases steps.len(),
{
    if steps.len() == 0 {
        (s, used)
    } else {
        let (s1, u1) = run(s, used, steps.drop_last());
        let (c, ev) = steps.last();
        (next_state(s1, c, ev), if counts_retry(s1, c, ev) { counted(u1) } else { u1 })
    }
}

/// However the connection drops and comes back during a call, every
/// statement the call is handed was prepared on the connection that is live
/// at that moment; and the call ends with the disconnected error as soon as
/// its failed rounds reach the ceiling, never later.
pub proof fn law_no_stale_dispatch_in_any_run<C, S>(
    s: StatementState<C, S>,
    steps: Seq<(ClientState<C>, StatementEvent<C, S>)>,
    i: int,
)
    requires
        0 <= i < steps.len(),
    ensures
        ({
            let (si, ui) = run(s, 0, steps.take(i));
            let (c, ev) = steps[i];
            &&& next_action(si, c, ev, ui) == StatementAction::Ready ==> (si is Prepared && c.is_live(
                si->Prepared_0.version,
            ))
            &&& ui <= MAX_RETRIES
            &&& (counts_retry(si, c, ev) && counted(ui) >= MAX_RETRIES) <==> next_action(si, c, ev, ui)
                == StatementAction::GiveUp
        }),
{
    lemma_run_counts_bounded(s, steps.take(i));
    let (si, ui) = run(s, 0, steps.take(i));
    let (c, ev) = steps[i];
    law_ready_only_on_live_version(si, c, ev, ui);
    law_give_up_at_ceiling(si, c, ev, ui);
}

proof fn lemma_run_counts_bounded<C, S>(s: StatementState<C, S>, steps: Seq<(ClientState<C>, StatementEvent<C, S>)>)
    ensures
        run(s, 0, steps).1 <= MAX_RETRIES,
    decreases steps.len(),
{
    if steps.len() > 0 {
        lemma_run_counts_bounded(s, steps.drop_last());
    }
}

/// A call gives up with the disconnected error exactly when a failed round
/// brings its retries to the ceiling.
pub proof fn law_give_up_at_ceiling<C, S>(
    s: StatementState<C, S>,
    c: ClientState<C>,
    ev: StatementEvent<C, S>,
    used: nat,
)
    ensures
        (next_action(s, c, ev, used) == StatementAction::GiveUp) <==> (counts_retry(s, c, ev) && counted(used)
            >= MAX_RETRIES),
{
}

/// While the connection stays on one generation, a statement prepared on it
/// is reused on every call without being prepared again; once the
/// connection has moved on, the first look sends the handle back to `Init`,
/// the next one asks for the new connection, and the statement prepared on
/// it is then reused in turn.
pub proof fn law_reprepare_once_per_version<C, S>(
    p: ClientStatement<C, S>,
    c: ClientState<C>,
    cl: C,
    st: S,
    used: nat,
)
    ensures
        c.is_live(p.version) ==> {
            let s = StatementState::Prepared(p);
            &&& next_state(s, c, StatementEvent::Poll) == s
            &&& !counts_retry(s, c, StatementEvent::Poll)
            &&& next_action(s, c, StatementEvent::Poll, used) == StatementAction::Ready
        },
        !c.is_live(p.version) ==> {
            let s = StatementState::Prepared(p);
            let s1 = next_state(s, c, StatementEvent::Poll);
            &&& s1 == StatementState::<C, S>::Init(p.version)
            &&& planned_action(s, c, StatementEvent::<C, S>::Poll) == StatementAction::Poll
            &&& next_state(s1, c, StatementEvent::Poll) == StatementState::<C, S>::WaitingClient(p.version)
            &&& next_action(s1, c, StatementEvent::Poll, used) == StatementAction::FetchClient(p.version)
        },
        forall|w: u64, v: u64|
            #![trigger next_state(StatementState::<C, S>::WaitingClient(w), c, StatementEvent::<C, S>::ClientReady(v))]
            c.is_live(v) ==> {
                let s2 = next_state(
                    StatementState::<C, S>::WaitingClient(w),
                    c,
                    StatementEvent::<C, S>::ClientReady(v),
                );
                let s3 = next_state(s2, c, StatementEvent::Prepared(v, cl, st));
                &&& s2 == StatementState::<C, S>::Preparing(v)
                &&& s3 is Prepared && s3->Prepared_0.version == v
                &&& next_state(s3, c, StatementEvent::Poll) == s3
                &&& next_action(s3, c, StatementEvent::Poll, used) == StatementAction::Ready
            },
{
}

/// Callers that find another caller waiting for the connection or preparing
/// only wait: they change nothing and are never handed a statement.
pub proof fn law_waiters_do_not_dispatch<C, S>(s: StatementState<C, S>, c: ClientState<C>, used: nat)
    requires
        s is WaitingClient || s is Preparing,
    ensures
        next_state(s, c, StatementEvent::Poll) == s,
        next_action(s, c, StatementEvent::Poll, used) == StatementAction::Sleep || next_action(
            s,
            c,
            StatementEvent::Poll,
            used,
        ) == StatementAction::GiveUp,
{
}

/// Once the statement is prepared on the live connection, every caller that
/// was waiting gets it on its next look, whatever retries it has counted so
/// far: the look counts no retry and cannot give up.
pub proof fn law_waiters_get_new_statement<C, S>(p: ClientStatement<C, S>, c: ClientState<C>, used: nat)
    requires
        c.is_live(p.version),
    ensures
        !counts_retry(StatementState::Prepared(p), c, StatementEvent::<C, S>::Poll),
        next_action(StatementState::Prepared(p), c, StatementEvent::<C, S>::Poll, used)
            == StatementAction::Ready,
        next_state(StatementState::Prepared(p), c, StatementEvent::<C, S>::Poll) == StatementState::Prepared(p),
{
}

/// A round that counts no retry either ends the call (with the statement or
/// an error) or hands out outside work: fetching the connection, which only
/// a handle in `Init` asks for, or preparing, which only a fetched
/// connection leads to.  The answer to a prepare always counts a retry or
/// ends the call, so no call runs more than two rounds in a row without
/// counting one.
pub proof fn law_rounds_without_retry_are_bounded<C, S>(
    s: StatementState<C, S>,
    c: ClientState<C>,
    ev: StatementEvent<C, S>,
    used: nat,
)
    ensures
        !counts_retry(s, c, ev) ==> {
            let a = next_action(s, c, ev, used);
            ||| a == StatementAction::Ready
            ||| a == StatementAction::Propagate
            ||| (a is FetchClient && ev is Poll && s is Init && next_state(s, c, ev) is WaitingClient)
            ||| (a is Prepare && ev is ClientReady && next_state(s, c, ev) is Preparing)
        },
        ev is Prepared ==> counts_retry(s, c, ev),
        ev matches StatementEvent::PrepareFailed(_, class) ==> (counts_retry(s, c, ev) || next_action(
            s,
            c,
            ev,
            used,
        ) == StatementAction::Propagate),
{
}

/// A prepare that fails with anything but a closed connection is handed to
/// the caller at once: no retry is counted and nothing is tried again.
pub proof fn law_fatal_prepare_is_not_retried<C, S>(
    s: StatementState<C, S>,
    c: ClientState<C>,
    v: u64,
    class: ErrorClass,
    used: nat,
)
    requires
        class != ErrorClass::ConnectionClosed,
    ensures
        !counts_retry(s, c, StatementEvent::PrepareFailed(v, class)),
        next_action(s, c, StatementEvent::PrepareFailed(v, class), used) == StatementAction::Propagate,
{
}

} // verus!
