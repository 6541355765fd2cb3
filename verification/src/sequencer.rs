//! The startup sequencer.
//!
//! Startup is a strictly ordered sequence of steps with outside effects:
//! read the database URL from the environment, connect a bounded pool, run
//! migrations, bind a socket, read the cache URL, create the cache pool,
//! create the session store, and serve. The sequencer holds the decisions:
//! given the phase reached so far and the outcome of the last step, it says
//! what happens next. The surrounding program performs each [`Action`] and
//! feeds the outcome back as an [`Event`].
//!
//! Failure policy: a missing environment variable, a failed connection, a
//! failed migration, a too-short secret, or a failed cache or session store
//! is fatal — the process is told to terminate rather than serve degraded.
//! A failed socket bind or a failed server start is instead returned to the
//! caller as a startup error, so a test harness can react to it.
//!
//! A supplied database pool (test mode) skips the environment read, the
//! connection, and the migrations: the caller owes a pool whose schema is
//! already current.

use vstd::prelude::*;

use crate::settings::Settings;

verus! {

/// The number of database connections the pool is bounded to.
pub const DB_MAX_CONNECTIONS: u32 = 5;

/// Why startup told the process to terminate.
#[derive(Clone, Copy, PartialEq, Eq, Structural, Debug)]
pub enum AbortCause {
    /// The database URL environment variable is absent.
    MissingDbUrl,
    /// No database connection could be established.
    DbConnectFailed,
    /// The schema migrations could not be applied.
    MigrationFailed,
    /// The cache URL environment variable is absent.
    MissingCacheUrl,
    /// The cache connection pool could not be created.
    CachePoolFailed,
    /// The configured secret is too short to derive a signing key from.
    SecretTooShort,
    /// The session store could not be created.
    SessionStoreFailed,
}

/// A startup failure returned to the caller instead of terminating.
#[derive(Clone, Copy, PartialEq, Eq, Structural, Debug)]
pub enum StartupError {
    /// The listening socket could not be bound.
    BindFailed,
    /// The assembled server could not start on the bound listener.
    ServeFailed,
}

/// How far startup has come.
#[derive(PartialEq, Eq, Debug)]
pub enum Phase {
    /// Waiting for the database URL from the environment.
    AwaitingDbUrl,
    /// Waiting for the database pool to connect.
    Connecting,
    /// Waiting for the migrations to finish.
    Migrating,
    /// Waiting for the listening socket; the event carries the bound port.
    Binding,
    /// Waiting for the cache URL from the environment.
    AwaitingCacheUrl { port: u16 },
    /// Waiting for the cache pool; the URL is kept for the session store.
    CreatingCachePool { port: u16, cache_url: String },
    /// Waiting for the session store.
    CreatingSessionStore { port: u16 },
    /// Waiting for the server to start on the bound listener.
    Serving { port: u16 },
    /// Startup succeeded; the server runs on `port`.
    Running { port: u16 },
    /// Startup was fatal; the process must terminate.
    Aborted { cause: AbortCause },
    /// Startup failed recoverably; the caller got `error`.
    Failed { error: StartupError },
}

/// What the surrounding program is to do next.
#[derive(PartialEq, Eq, Debug)]
pub enum Action {
    /// Read the database URL environment variable; answer with [`Event::DbUrl`].
    ReadDbUrl,
    /// Connect a database pool to `url`, bounded to `max_connections`
    /// connections; answer with [`Event::ConnectDone`].
    ConnectDb { url: String, max_connections: u32 },
    /// Apply all pending schema migrations; answer with [`Event::MigrateDone`].
    RunMigrations,
    /// Bind a TCP listener on `host:port`; answer with [`Event::BindDone`]
    /// carrying the actually bound port.
    Bind { host: String, port: u16 },
    /// Read the cache URL environment variable; answer with [`Event::CacheUrl`].
    ReadCacheUrl,
    /// Create the cache connection pool from `url`; answer with
    /// [`Event::CachePoolDone`].
    CreateCachePool { url: String },
    /// Create the session store from `url`; answer with
    /// [`Event::SessionStoreDone`].
    CreateSessionStore { url: String },
    /// Assemble middleware and routes and start serving on the listener
    /// bound to `port`; answer with [`Event::ServeDone`].
    Serve { port: u16 },
    /// Startup is complete; hand the caller a handle reporting `port`.
    Finish { port: u16 },
    /// Terminate the process with a diagnostic for `cause`.
    Abort { cause: AbortCause },
    /// Return `error` to the caller as the outcome of startup.
    Fail { error: StartupError },
    /// Nothing: the event belongs to no pending step.
    Idle,
}

/// The outcome of the last action, handed back by the surrounding program.
#[derive(PartialEq, Eq, Debug)]
pub enum Event {
    /// The database URL environment variable, if present.
    DbUrl(Option<String>),
    /// Whether the database pool connected.
    ConnectDone(bool),
    /// Whether the migrations applied.
    MigrateDone(bool),
    /// The bound port, or nothing if the bind failed.
    BindDone(Option<u16>),
    /// The cache URL environment variable, if present.
    CacheUrl(Option<String>),
    /// Whether the cache pool was created.
    CachePoolDone(bool),
    /// Whether the session store was created.
    SessionStoreDone(bool),
    /// Whether the server started on the bound listener.
    ServeDone(bool),
}

/// A fatal transition: terminal phase, process told to terminate.
pub open spec fn spec_abort(cause: AbortCause) -> (Phase, Action) {
    (Phase::Aborted { cause }, Action::Abort { cause })
}

/// Where the sequencer begins. With a supplied database pool the
/// environment read, the connection and the migrations are skipped and the
/// first step is the bind; otherwise the database URL is read first.
pub open spec fn spec_start(settings: Settings, supplied_pool: bool) -> (Phase, Action) {
    if supplied_pool {
        (
            Phase::Binding,
            Action::Bind { host: settings.application.host, port: settings.application.port },
        )
    } else {
        (Phase::AwaitingDbUrl, Action::ReadDbUrl)
    }
}

/// One decision of the sequencer: from the phase reached and the outcome of
/// the last step to the next phase and the next action. An event that
/// belongs to no pending step changes nothing.
pub open spec fn spec_step(settings: Settings, p: Phase, e: Event) -> (Phase, Action) {
    match (p, e) {
        (Phase::AwaitingDbUrl, Event::DbUrl(r)) => match r {
            Some(url) => (
                Phase::Connecting,
                Action::ConnectDb { url, max_connections: DB_MAX_CONNECTIONS },
            ),
            None => spec_abort(AbortCause::MissingDbUrl),
        },
        (Phase::Connecting, Event::ConnectDone(ok)) => if ok {
            (Phase::Migrating, Action::RunMigrations)
        } else {
            spec_abort(AbortCause::DbConnectFailed)
        },
        (Phase::Migrating, Event::MigrateDone(ok)) => if ok {
            (
                Phase::Binding,
                Action::Bind {
                    host: settings.application.host,
                    port: settings.application.port,
                },
            )
        } else {
            spec_abort(AbortCause::MigrationFailed)
        },
        (Phase::Binding, Event::BindDone(r)) => match r {
            Some(port) => (Phase::AwaitingCacheUrl { port }, Action::ReadCacheUrl),
            None => (
                Phase::Failed { error: StartupError::BindFailed },
                Action::Fail { error: StartupError::BindFailed },
            ),
        },
        (Phase::AwaitingCacheUrl { port }, Event::CacheUrl(r)) => match r {
            Some(url) => (
                Phase::CreatingCachePool { port, cache_url: url },
                Action::CreateCachePool { url },
            ),
            None => spec_abort(AbortCause::MissingCacheUrl),
        },
        (Phase::CreatingCachePool { port, cache_url }, Event::CachePoolDone(ok)) => if !ok {
            spec_abort(AbortCause::CachePoolFailed)
        } else if !settings.valid() {
            spec_abort(AbortCause::SecretTooShort)
        } else {
            (
                Phase::CreatingSessionStore { port },
                Action::CreateSessionStore { url: cache_url },
            )
        },
        (Phase::CreatingSessionStore { port }, Event::SessionStoreDone(ok)) => if ok {
            (Phase::Serving { port }, Action::Serve { port })
        } else {
            spec_abort(AbortCause::SessionStoreFailed)
        },
        (Phase::Serving { port }, Event::ServeDone(ok)) => if ok {
            (Phase::Running { port }, Action::Finish { port })
        } else {
            (
                Phase::Failed { error: StartupError::ServeFailed },
                Action::Fail { error: StartupError::ServeFailed },
            )
        },
        (q, _) => (q, Action::Idle),
    }
}

/// The startup sequencer: configuration plus the phase reached so far.
pub struct Sequencer {
    pub settings: Settings,
    pub phase: Phase,
}

impl Sequencer {
    /// Begins a startup. `supplied_pool` says a database pool was handed in
    /// (test mode): then no environment read, no new connection and no
    /// migrations happen, and the caller owes a pool whose schema is
    /// already current.
    pub fn new(settings: Settings, supplied_pool: bool) -> (r: (Sequencer, Action))
        ensures
            r.0.settings == settings,
            r.0.phase == spec_start(settings, supplied_pool).0,
            r.1 == spec_start(settings, supplied_pool).1,
    {
        if supplied_pool {
            let host = settings.application.host.clone();
            let port = settings.application.port;
            (
                Sequencer { settings, phase: Phase::Binding },
                Action::Bind { host, port },
            )
        } else {
            (Sequencer { settings, phase: Phase::AwaitingDbUrl }, Action::ReadDbUrl)
        }
    }

    /// Feeds the outcome of the last step in and moves one step: the new
    /// phase and the returned action are exactly what [`spec_step`] says.
    pub fn step(&mut self, event: Event) -> (a: Action)
        ensures
            final(self).settings == old(self).settings,
            final(self).phase == spec_step(old(self).settings, old(self).phase, event).0,
            a == spec_step(old(self).settings, old(self).phase, event).1,
    {
        let decision: Option<(Phase, Action)> = match (&self.phase, event) {
            (Phase::AwaitingDbUrl, Event::DbUrl(r)) => match r {
                Some(url) => Some((
                    Phase::Connecting,
                    Action::ConnectDb { url, max_connections: DB_MAX_CONNECTIONS },
                )),
                None => Some(abort_decision(AbortCause::MissingDbUrl)),
            },
            (Phase::Connecting, Event::ConnectDone(ok)) => if ok {
                Some((Phase::Migrating, Action::RunMigrations))
            } else {
                Some(abort_decision(AbortCause::DbConnectFailed))
            },
            (Phase::Migrating, Event::MigrateDone(ok)) => if ok {
                let host = self.settings.application.host.clone();
                let port = self.settings.application.port;
                Some((Phase::Binding, Action::Bind { host, port }))
            } else {
                Some(abort_decision(AbortCause::MigrationFailed))
            },
            (Phase::Binding, Event::BindDone(r)) => match r {
                Some(port) => Some((Phase::AwaitingCacheUrl { port }, Action::ReadCacheUrl)),
                None => Some((
                    Phase::Failed { error: StartupError::BindFailed },
                    Action::Fail { error: StartupError::BindFailed },
                )),
            },
            (Phase::AwaitingCacheUrl { port }, Event::CacheUrl(r)) => match r {
                Some(url) => Some((
                    Phase::CreatingCachePool { port: *port, cache_url: url.clone() },
                    Action::CreateCachePool { url },
                )),
                None => Some(abort_decision(AbortCause::MissingCacheUrl)),
            },
            (Phase::CreatingCachePool { port, cache_url }, Event::CachePoolDone(ok)) => if !ok {
                Some(abort_decision(AbortCause::CachePoolFailed))
            } else if !self.settings.validate() {
                Some(abort_decision(AbortCause::SecretTooShort))
            } else {
                Some((
                    Phase::CreatingSessionStore { port: *port },
                    Action::CreateSessionStore { url: cache_url.clone() },
                ))
            },
            (Phase::CreatingSessionStore { port }, Event::SessionStoreDone(ok)) => if ok {
                Some((Phase::Serving { port: *port }, Action::Serve { port: *port }))
            } else {
                Some(abort_decision(AbortCause::SessionStoreFailed))
            },
            (Phase::Serving { port }, Event::ServeDone(ok)) => if ok {
                Some((Phase::Running { port: *port }, Action::Finish { port: *port }))
            } else {
                Some((
                    Phase::Failed { error: StartupError::ServeFailed },
                    Action::Fail { error: StartupError::ServeFailed },
                ))
            },
            (_, _) => None,
        };
        match decision {
            Some((next, a)) => {
                self.phase = next;
                a
            },
            None => Action::Idle,
        }
    }
}

/// A fatal decision, executable form of [`spec_abort`].
fn abort_decision(cause: AbortCause) -> (r: (Phase, Action))
    ensures
        r == spec_abort(cause),
{
    (Phase::Aborted { cause }, Action::Abort { cause })
}

} // verus!
