//! Laws of the startup sequencer, stated over [`spec_start`] and
//! [`spec_step`] and proved once for every configuration and every run.

use vstd::prelude::*;

use crate::sequencer::AbortCause;
use crate::sequencer::Action;
use crate::sequencer::Event;
use crate::sequencer::Phase;
use crate::sequencer::StartupError;
use crate::sequencer::spec_start;
use crate::sequencer::spec_step;
use crate::settings::Settings;

verus! {

/// Whether an action touches the database connection: reading the database
/// URL or opening a new pool.
pub open spec fn connects_db(a: Action) -> bool {
    a is ReadDbUrl || a is ConnectDb
}

/// Whether any step of the run over `events` from phase `p` emits an action
/// that touches the database connection.
pub open spec fn ever_connects(settings: Settings, p: Phase, events: Seq<Event>) -> bool
    decreases events.len(),
{
    if events.len() == 0 {
        false
    } else {
        let (q, a) = spec_step(settings, p, events[0]);
        connects_db(a) || ever_connects(settings, q, events.drop_first())
    }
}

/// The phase a run over `events` ends in.
pub open spec fn spec_run(settings: Settings, p: Phase, events: Seq<Event>) -> Phase
    decreases events.len(),
{
    if events.len() == 0 {
        p
    } else {
        spec_run(settings, spec_step(settings, p, events[0]).0, events.drop_first())
    }
}

/// Whether a phase is terminal: startup has succeeded, aborted, or failed.
pub open spec fn terminal(p: Phase) -> bool {
    p is Running || p is Aborted || p is Failed
}

/// Law: when every step succeeds, startup ends running and the handle
/// reports exactly the port the bind step returned — for a requested port
/// of 0 that is the OS-assigned ephemeral port, whatever the configuration
/// asked for.
pub proof fn lemma_successful_startup(
    settings: Settings,
    db_url: String,
    cache_url: String,
    bound_port: u16,
)
    requires
        settings.valid(),
    ensures
        ({
            let (p0, a0) = spec_start(settings, false);
            let (p1, a1) = spec_step(settings, p0, Event::DbUrl(Some(db_url)));
            let (p2, a2) = spec_step(settings, p1, Event::ConnectDone(true));
            let (p3, a3) = spec_step(settings, p2, Event::MigrateDone(true));
            let (p4, a4) = spec_step(settings, p3, Event::BindDone(Some(bound_port)));
            let (p5, a5) = spec_step(settings, p4, Event::CacheUrl(Some(cache_url)));
            let (p6, a6) = spec_step(settings, p5, Event::CachePoolDone(true));
            let (p7, a7) = spec_step(settings, p6, Event::SessionStoreDone(true));
            let (p8, a8) = spec_step(settings, p7, Event::ServeDone(true));
            &&& p8 == (Phase::Running { port: bound_port })
            &&& a8 == (Action::Finish { port: bound_port })
        }),
{
}

/// Law: with a supplied database pool (test mode), no step of any run ever
/// reads the database URL or opens a new database connection — neither the
/// first action nor any later one.
pub proof fn lemma_supplied_pool_never_connects(settings: Settings, events: Seq<Event>)
    ensures
        !connects_db(spec_start(settings, true).1),
        !ever_connects(settings, spec_start(settings, true).0, events),
{
    lemma_no_connect_outside_db_phases(settings, spec_start(settings, true).0, events);
}

/// From any phase past the database steps, no run ever connects: the
/// database-touching actions are only emitted while awaiting the database
/// URL, and no transition leads back there.
proof fn lemma_no_connect_outside_db_phases(settings: Settings, p: Phase, events: Seq<Event>)
    requires
        p !is AwaitingDbUrl,
    ensures
        !ever_connects(settings, p, events),
    decreases events.len(),
{
    if events.len() > 0 {
        let (q, a) = spec_step(settings, p, events[0]);
        assert(!connects_db(a));
        assert(q !is AwaitingDbUrl);
        lemma_no_connect_outside_db_phases(settings, q, events.drop_first());
    }
}

/// Law: a missing database URL is fatal. The sequencer tells the process to
/// terminate with a diagnostic instead of failing recoverably, whatever the
/// configuration.
pub proof fn lemma_missing_db_url_aborts(settings: Settings)
    ensures
        spec_step(settings, Phase::AwaitingDbUrl, Event::DbUrl(None)).0 == (Phase::Aborted {
            cause: AbortCause::MissingDbUrl,
        }),
        spec_step(settings, Phase::AwaitingDbUrl, Event::DbUrl(None)).1 == (Action::Abort {
            cause: AbortCause::MissingDbUrl,
        }),
{
}

/// Law: a failed socket bind is not fatal: it is returned to the caller as
/// a startup error, so a harness can react to it.
pub proof fn lemma_bind_failure_propagates(settings: Settings)
    ensures
        spec_step(settings, Phase::Binding, Event::BindDone(None)).0 == (Phase::Failed {
            error: StartupError::BindFailed,
        }),
        spec_step(settings, Phase::Binding, Event::BindDone(None)).1 == (Action::Fail {
            error: StartupError::BindFailed,
        }),
{
}

/// Law: a terminal phase is stable: no later event moves the sequencer or
/// causes any further work.
pub proof fn lemma_terminal_stable(settings: Settings, p: Phase, e: Event)
    requires
        terminal(p),
    ensures
        spec_step(settings, p, e).0 == p,
        spec_step(settings, p, e).1 == Action::Idle,
{
}

/// Law: a terminal phase absorbs whole runs: however many events still
/// arrive, the sequencer does not move again.
pub proof fn lemma_terminal_absorbs_runs(settings: Settings, p: Phase, events: Seq<Event>)
    requires
        terminal(p),
    ensures
        spec_run(settings, p, events) == p,
    decreases events.len(),
{
    if events.len() > 0 {
        lemma_terminal_stable(settings, p, events[0]);
        lemma_terminal_absorbs_runs(settings, p, events.drop_first());
    }
}

/// Law: whenever the sequencer orders the session store to be created, the
/// configuration is valid, so deriving the cookie-signing key succeeds.
pub proof fn lemma_store_action_owns_key(settings: Settings, p: Phase, e: Event)
    ensures
        spec_step(settings, p, e).1 is CreateSessionStore ==> settings.valid(),
{
}

} // verus!
