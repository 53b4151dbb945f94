use app_bootstrap::startup::{
    bootstrap, command_table, log_plugin_level, plugin_plan, setup, BuildConfig, Command, LogLevel,
    Phase, Plugin, SetupReport, StartupError, StartupEvents,
};

fn events(log_attach_ok: bool, main_window_exists: bool, run_start_ok: bool) -> StartupEvents {
    StartupEvents { log_attach_ok, main_window_exists, fullscreen_ok: true, run_start_ok }
}

#[test]
fn debug_plan_order() {
    assert_eq!(
        plugin_plan(true),
        vec![Plugin::Notification, Plugin::Shell, Plugin::Http, Plugin::Store, Plugin::Log]
    );
}

#[test]
fn release_plan_order_has_no_log() {
    let plan = plugin_plan(false);
    assert_eq!(
        plan,
        vec![Plugin::Notification, Plugin::Shell, Plugin::Http, Plugin::Store]
    );
    assert!(!plan.contains(&Plugin::Log));
}

#[test]
fn log_plugin_is_configured_at_info() {
    assert_eq!(log_plugin_level(), LogLevel::Info);
}

#[test]
fn command_table_is_exactly_the_two_commands() {
    assert_eq!(command_table(), vec![Command::IsOnline, Command::GetAppVersion]);
}

#[test]
fn debug_log_attach_failure_fails_setup() {
    let cfg = BuildConfig { debug: true, mobile: false };
    let r = setup(cfg, events(false, false, true));
    assert_eq!(r, Err(StartupError::LogPluginAttach));
}

#[test]
fn debug_log_attach_failure_aborts_startup() {
    let cfg = BuildConfig { debug: true, mobile: true };
    let out = bootstrap(cfg, events(false, true, true));
    assert_eq!(out.setup, Err(StartupError::LogPluginAttach));
    assert!(!out.commands_registered);
    assert_eq!(out.error, Some(StartupError::LogPluginAttach));
    assert_eq!(out.phase, Phase::Aborted);
    // The plugin plan itself is unchanged: the failure comes from the last,
    // debug-only entry.
    assert_eq!(
        out.plugins,
        vec![Plugin::Notification, Plugin::Shell, Plugin::Http, Plugin::Store, Plugin::Log]
    );
}

#[test]
fn release_build_ignores_log_attach_outcome() {
    let cfg = BuildConfig { debug: false, mobile: false };
    let out = bootstrap(cfg, events(false, false, true));
    assert_eq!(out.setup, Ok(SetupReport { fullscreen_requests: 0 }));
    assert!(out.commands_registered);
    assert_eq!(out.phase, Phase::Running);
}

#[test]
fn mobile_with_main_window_requests_fullscreen_once() {
    let cfg = BuildConfig { debug: false, mobile: true };
    let r = setup(cfg, events(true, true, true));
    assert_eq!(r, Ok(SetupReport { fullscreen_requests: 1 }));
}

#[test]
fn mobile_without_main_window_proceeds_without_error() {
    let cfg = BuildConfig { debug: false, mobile: true };
    let r = setup(cfg, events(true, false, true));
    assert_eq!(r, Ok(SetupReport { fullscreen_requests: 0 }));
}

#[test]
fn failed_fullscreen_request_is_ignored() {
    let cfg = BuildConfig { debug: true, mobile: true };
    let ev = StartupEvents {
        log_attach_ok: true,
        main_window_exists: true,
        fullscreen_ok: false,
        run_start_ok: true,
    };
    let out = bootstrap(cfg, ev);
    assert_eq!(out.setup, Ok(SetupReport { fullscreen_requests: 1 }));
    assert!(out.commands_registered);
    assert_eq!(out.error, None);
    assert_eq!(out.phase, Phase::Running);
}

#[test]
fn desktop_never_requests_fullscreen() {
    let cfg = BuildConfig { debug: true, mobile: false };
    let r = setup(cfg, events(true, true, true));
    assert_eq!(r, Ok(SetupReport { fullscreen_requests: 0 }));
}

#[test]
fn run_loop_start_failure_aborts() {
    let cfg = BuildConfig { debug: false, mobile: false };
    let out = bootstrap(cfg, events(true, false, false));
    assert_eq!(out.setup, Ok(SetupReport { fullscreen_requests: 0 }));
    assert!(out.commands_registered);
    assert_eq!(out.error, Some(StartupError::RunLoop));
    assert_eq!(out.phase, Phase::Aborted);
}

#[test]
fn successful_mobile_debug_startup() {
    let cfg = BuildConfig { debug: true, mobile: true };
    let out = bootstrap(cfg, events(true, true, true));
    assert_eq!(
        out.plugins,
        vec![Plugin::Notification, Plugin::Shell, Plugin::Http, Plugin::Store, Plugin::Log]
    );
    assert_eq!(out.setup, Ok(SetupReport { fullscreen_requests: 1 }));
    assert!(out.commands_registered);
    assert_eq!(out.error, None);
    assert_eq!(out.phase, Phase::Running);
}
