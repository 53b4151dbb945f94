//! The bootstrap sequence: attach a fixed list of capability plugins in a
//! fixed order, run a one-time setup hook, register the invocable-function
//! table, and hand control to the runtime's blocking event loop.
//!
//! The functions here take every outside observation — did the logging
//! plugin attach, does the "main" window exist, did the event loop start —
//! as a plain input, so their decisions are verified for every outcome the
//! environment can report.

use vstd::prelude::*;

verus! {

/// A capability plugin attached to the runtime during startup.
#[derive(Clone, Copy, Debug, PartialEq, Eq, Structural)]
pub enum Plugin {
    Notification,
    Shell,
    Http,
    Store,
    Log,
}

/// Severity threshold for the debug-only logging plugin.
#[derive(Clone, Copy, Debug, PartialEq, Eq, Structural)]
pub enum LogLevel {
    Off,
    Error,
    Warn,
    Info,
    Debug,
    Trace,
}

/// Build-time configuration, resolved once at startup.
#[derive(Clone, Copy, Debug, PartialEq, Eq, Structural)]
pub struct BuildConfig {
    /// the binary was compiled in a debug configuration
    pub debug: bool,
    /// the binary was compiled for a mobile target
    pub mobile: bool,
}

/// What the environment reports while startup runs.
#[derive(Clone, Copy, Debug, PartialEq, Eq, Structural)]
pub struct StartupEvents {
    /// the logging plugin attached successfully (consulted in debug builds only)
    pub log_attach_ok: bool,
    /// a window labeled "main" exists (consulted on mobile builds only)
    pub main_window_exists: bool,
    /// the fullscreen request succeeded (its outcome is ignored either way)
    pub fullscreen_ok: bool,
    /// the runtime's event loop started
    pub run_start_ok: bool,
}

/// Why startup aborted.
#[derive(Clone, Copy, Debug, PartialEq, Eq, Structural)]
pub enum StartupError {
    /// the debug-only logging plugin failed to attach during setup
    LogPluginAttach,
    /// the runtime's event loop failed to start
    RunLoop,
}

/// What the setup hook did.
#[derive(Clone, Copy, Debug, PartialEq, Eq, Structural)]
pub struct SetupReport {
    /// how many fullscreen requests were made on the "main" window
    pub fullscreen_requests: u64,
}

/// The linear bootstrap lifecycle: `Configuring` (plugin attachment), then
/// `Initializing` (the setup hook), then `Running` (the event loop), with
/// `Aborted` reachable from the first two on failure. No transition is
/// retried.
#[derive(Clone, Copy, Debug, PartialEq, Eq, Structural)]
pub enum Phase {
    Configuring,
    Initializing,
    Running,
    Aborted,
}

/// The fixed, ordered plugin attachment plan for a build: notification,
/// shell, http, store, and — in debug builds only — log, last.
pub open spec fn plugin_order(debug: bool) -> Seq<Plugin> {
    if debug {
        seq![Plugin::Notification, Plugin::Shell, Plugin::Http, Plugin::Store, Plugin::Log]
    } else {
        seq![Plugin::Notification, Plugin::Shell, Plugin::Http, Plugin::Store]
    }
}

/// Setup succeeds unless the debug-only logging plugin failed to attach.
pub open spec fn setup_succeeds(cfg: BuildConfig, ev: StartupEvents) -> bool {
    !cfg.debug || ev.log_attach_ok
}

/// How often fullscreen is requested on the "main" window: exactly once,
/// on a mobile build whose setup reaches the window step and whose "main"
/// window exists; never otherwise.
pub open spec fn fullscreen_request_count(cfg: BuildConfig, ev: StartupEvents) -> nat {
    if setup_succeeds(cfg, ev) && cfg.mobile && ev.main_window_exists {
        1
    } else {
        0
    }
}

/// Why startup aborted, if it did: a failed setup, or a failed event-loop
/// start. Nothing else can abort it.
pub open spec fn startup_error(cfg: BuildConfig, ev: StartupEvents) -> Option<StartupError> {
    if !setup_succeeds(cfg, ev) {
        Some(StartupError::LogPluginAttach)
    } else if !ev.run_start_ok {
        Some(StartupError::RunLoop)
    } else {
        None
    }
}

/// The phase startup ends in: `Running` when setup succeeded and the event
/// loop started, `Aborted` otherwise.
pub open spec fn end_phase(cfg: BuildConfig, ev: StartupEvents) -> Phase {
    if setup_succeeds(cfg, ev) && ev.run_start_ok {
        Phase::Running
    } else {
        Phase::Aborted
    }
}

/// The phases one startup traverses, in order: configuring (plugin
/// attachment), then initializing (the setup hook), then either running or
/// aborted.
pub open spec fn phase_trace(cfg: BuildConfig, ev: StartupEvents) -> Seq<Phase> {
    seq![Phase::Configuring, Phase::Initializing, end_phase(cfg, ev)]
}

/// The ordered list of plugins to attach for this build. Reordering this
/// list is a behavior change and must not happen silently.
pub fn plugin_plan(debug: bool) -> (r: Vec<Plugin>)
    ensures
        r@ == plugin_order(debug),
{
    let mut plugins: Vec<Plugin> = Vec::new();
    plugins.push(Plugin::Notification);
    plugins.push(Plugin::Shell);
    plugins.push(Plugin::Http);
    plugins.push(Plugin::Store);
    if debug {
        plugins.push(Plugin::Log);
    }
    proof {
        assert(plugins@ =~= plugin_order(debug));
    }
    plugins
}

/// The severity threshold the debug-only logging plugin is configured with.
pub fn log_plugin_level() -> (r: LogLevel)
    ensures
        r == LogLevel::Info,
{
    LogLevel::Info
}

/// The setup hook's decisions: abort when the debug-only logging plugin
/// failed to attach; otherwise, on a mobile build, request fullscreen on
/// the "main" window exactly once if that window exists. A missing window
/// and a failed fullscreen request are both tolerated silently.
pub fn setup(cfg: BuildConfig, ev: StartupEvents) -> (r: Result<SetupReport, StartupError>)
    ensures
        r is Ok <==> setup_succeeds(cfg, ev),
        r is Err ==> r->Err_0 == StartupError::LogPluginAttach,
        r is Ok ==> r->Ok_0.fullscreen_requests == fullscreen_request_count(cfg, ev),
{
    if cfg.debug && !ev.log_attach_ok {
        return Err(StartupError::LogPluginAttach);
    }
    let mut requests: u64 = 0;
    if cfg.mobile && ev.main_window_exists {
        requests = 1;
    }
    Ok(SetupReport { fullscreen_requests: requests })
}

/// An invocable function exposed to the front end across the runtime's
/// bridge.
#[derive(Clone, Copy, Debug, PartialEq, Eq, Structural)]
pub enum Command {
    IsOnline,
    GetAppVersion,
}

/// The complete invocable-function table, in registration order.
pub open spec fn command_order() -> Seq<Command> {
    seq![Command::IsOnline, Command::GetAppVersion]
}

/// The invocable-function table to register, exactly once: `is_online` and
/// `get_app_version`, and nothing else.
pub fn command_table() -> (r: Vec<Command>)
    ensures
        r@ == command_order(),
{
    let mut table: Vec<Command> = Vec::new();
    table.push(Command::IsOnline);
    table.push(Command::GetAppVersion);
    proof {
        assert(table@ =~= command_order());
    }
    table
}

/// Everything one startup decides, in the order it decides it.
#[derive(Debug)]
pub struct BootstrapOutcome {
    /// the plugins attached, in attachment order
    pub plugins: Vec<Plugin>,
    /// what the setup hook returned
    pub setup: Result<SetupReport, StartupError>,
    /// whether the invocable-function table was registered
    pub commands_registered: bool,
    /// why startup aborted, if it did
    pub error: Option<StartupError>,
    /// the phase startup ends in
    pub phase: Phase,
}

/// One whole startup, as a function of the build configuration and of the
/// events the environment reports: attach the plugins in their fixed order,
/// run the setup hook, register the invocable-function table, then enter
/// the event loop. A failure at any step aborts startup without reaching
/// the later steps.
pub fn bootstrap(cfg: BuildConfig, ev: StartupEvents) -> (r: BootstrapOutcome)
    ensures
        r.plugins@ == plugin_order(cfg.debug),
        r.setup is Ok <==> setup_succeeds(cfg, ev),
        r.setup is Err ==> r.setup->Err_0 == StartupError::LogPluginAttach,
        r.setup is Ok ==> r.setup->Ok_0.fullscreen_requests == fullscreen_request_count(cfg, ev),
        r.commands_registered <==> setup_succeeds(cfg, ev),
        r.error == startup_error(cfg, ev),
        r.phase == end_phase(cfg, ev),
        r.phase == phase_trace(cfg, ev).last(),
{
    let plugins = plugin_plan(cfg.debug);
    let setup_result = setup(cfg, ev);
    if setup_result.is_err() {
        return BootstrapOutcome {
            plugins,
            setup: setup_result,
            commands_registered: false,
            error: Some(StartupError::LogPluginAttach),
            phase: Phase::Aborted,
        };
    }
    if !ev.run_start_ok {
        return BootstrapOutcome {
            plugins,
            setup: setup_result,
            commands_registered: true,
            error: Some(StartupError::RunLoop),
            phase: Phase::Aborted,
        };
    }
    BootstrapOutcome {
        plugins,
        setup: setup_result,
        commands_registered: true,
        error: None,
        phase: Phase::Running,
    }
}

/// Plugin attachment order is fixed: notification, then shell, then http,
/// then store, then — in debug builds only — log.
pub proof fn lemma_plugin_order(debug: bool)
    ensures
        debug ==> plugin_order(debug).len() == 5,
        !debug ==> plugin_order(debug).len() == 4,
        plugin_order(debug)[0] == Plugin::Notification,
        plugin_order(debug)[1] == Plugin::Shell,
        plugin_order(debug)[2] == Plugin::Http,
        plugin_order(debug)[3] == Plugin::Store,
        debug ==> plugin_order(debug)[4] == Plugin::Log,
{
}

/// A release build attaches no logging plugin: `Log` never appears in the
/// release plan.
pub proof fn lemma_release_excludes_log()
    ensures
        !plugin_order(false).contains(Plugin::Log),
{
    assert forall|i: int| 0 <= i < plugin_order(false).len() implies plugin_order(
        false,
    )[i] != Plugin::Log by {
        assert(plugin_order(false).len() == 4);
    }
}

/// In a debug build whose logging plugin fails to attach, startup aborts:
/// setup fails, so the invocable-function table is never registered and the
/// event loop is never entered.
pub proof fn lemma_debug_log_failure_aborts(cfg: BuildConfig, ev: StartupEvents)
    requires
        cfg.debug,
        !ev.log_attach_ok,
    ensures
        !setup_succeeds(cfg, ev),
        startup_error(cfg, ev) == Some(StartupError::LogPluginAttach),
        end_phase(cfg, ev) == Phase::Aborted,
        fullscreen_request_count(cfg, ev) == 0,
{
}

/// On a mobile build whose setup reaches the window step, fullscreen is
/// requested exactly once when the "main" window exists, and not at all —
/// with setup still succeeding — when it does not.
pub proof fn lemma_mobile_fullscreen(cfg: BuildConfig, ev: StartupEvents)
    requires
        cfg.mobile,
        setup_succeeds(cfg, ev),
    ensures
        ev.main_window_exists ==> fullscreen_request_count(cfg, ev) == 1,
        !ev.main_window_exists ==> fullscreen_request_count(cfg, ev) == 0,
{
}

/// On a non-mobile build no fullscreen request is ever made, whatever the
/// rest of the configuration and environment report.
pub proof fn lemma_desktop_no_fullscreen(cfg: BuildConfig, ev: StartupEvents)
    requires
        !cfg.mobile,
    ensures
        fullscreen_request_count(cfg, ev) == 0,
{
}

/// The lifecycle is linear and never retried: every startup passes through
/// configuring and then initializing exactly once, and ends in running or
/// aborted — running exactly when setup succeeded and the event loop
/// started.
pub proof fn lemma_lifecycle_linear(cfg: BuildConfig, ev: StartupEvents)
    ensures
        phase_trace(cfg, ev).len() == 3,
        phase_trace(cfg, ev)[0] == Phase::Configuring,
        phase_trace(cfg, ev)[1] == Phase::Initializing,
        phase_trace(cfg, ev)[2] == end_phase(cfg, ev),
        end_phase(cfg, ev) == Phase::Running <==> setup_succeeds(cfg, ev) && ev.run_start_ok,
        end_phase(cfg, ev) == Phase::Running || end_phase(cfg, ev) == Phase::Aborted,
{
}

/// The window lookup and the fullscreen request never decide startup: two
/// runs that differ only in those observations succeed or abort alike, for
/// the same reason.
pub proof fn lemma_window_outcome_ignored(cfg: BuildConfig, a: StartupEvents, b: StartupEvents)
    requires
        a.log_attach_ok == b.log_attach_ok,
        a.run_start_ok == b.run_start_ok,
    ensures
        setup_succeeds(cfg, a) == setup_succeeds(cfg, b),
        startup_error(cfg, a) == startup_error(cfg, b),
        end_phase(cfg, a) == end_phase(cfg, b),
{
}

} // verus!
