use flutter_shell::application::{
    ConfigureOutcome, SctkApplicationState, SctkFlutterWindow, WindowCall, WindowRequest,
};
use flutter_shell::display::{
    FlutterEngineDisplay, FlutterEngineDisplaysUpdateType, Mode, OutputInfo, SctkOutput,
};
use flutter_shell::startup::{
    DecorationMode, ImplicitWindowStartupSynchronizer, PendingConfigure, WindowConfigure,
};

fn configure_of(width: u32, height: u32) -> WindowConfigure {
    WindowConfigure {
        new_size: (Some(width), Some(height)),
        suggested_bounds: None,
        decoration_mode: DecorationMode::Server,
        state: 0,
        capabilities: 0,
    }
}

fn one_output() -> Vec<SctkOutput> {
    let mode = Mode { dimensions: (1920, 1080), refresh_rate: 60_000, current: true, preferred: true };
    vec![SctkOutput::new(42, Some(OutputInfo { id: 42, scale_factor: 2, modes: vec![mode] }))]
}

#[test]
fn configure_before_start_is_flushed_once_when_the_engine_starts() {
    let window = SctkFlutterWindow { xdg_toplevel_id: 5, wl_surface_id: 3 };
    let mut state = SctkApplicationState::new(window);
    assert!(!state.is_engine_running());
    assert_eq!(state.configure(5, configure_of(500, 400), 7), ConfigureOutcome::Buffered);
    assert_eq!(
        state.pending_configure(),
        Some(PendingConfigure { configure: configure_of(500, 400), serial: 7 })
    );
    assert_eq!(state.notify_display_update(&one_output()), None);

    let actions = state.maybe_send_startup_pending_configure(&one_output());
    assert!(state.is_engine_running());
    assert_eq!(
        actions.configure,
        Some(WindowRequest {
            window: 5,
            call: WindowCall::Configure { configure: configure_of(500, 400), serial: 7 },
        })
    );
    assert_eq!(actions.display_update.update_type, FlutterEngineDisplaysUpdateType::Startup);
    assert_eq!(
        actions.display_update.displays,
        vec![FlutterEngineDisplay {
            display_id: 42,
            frame_interval_nanos: Some(16_666_666),
            scale_factor: 2,
        }]
    );
    assert_eq!(state.pending_configure(), None);

    let again = state.maybe_send_startup_pending_configure(&one_output());
    assert_eq!(again.configure, None);
    assert!(state.is_engine_running());
}

#[test]
fn only_the_latest_configure_before_start_is_kept() {
    let window = SctkFlutterWindow { xdg_toplevel_id: 5, wl_surface_id: 3 };
    let mut state = SctkApplicationState::new(window);
    assert_eq!(state.configure(5, configure_of(500, 400), 7), ConfigureOutcome::Buffered);
    assert_eq!(state.configure(5, configure_of(640, 480), 8), ConfigureOutcome::Buffered);
    assert_eq!(state.configure(5, configure_of(800, 600), 9), ConfigureOutcome::Buffered);
    let actions = state.maybe_send_startup_pending_configure(&Vec::new());
    assert_eq!(
        actions.configure,
        Some(WindowRequest {
            window: 5,
            call: WindowCall::Configure { configure: configure_of(800, 600), serial: 9 },
        })
    );
    assert!(actions.display_update.displays.is_empty());
}

#[test]
fn configure_after_start_is_forwarded_at_once() {
    let window = SctkFlutterWindow { xdg_toplevel_id: 5, wl_surface_id: 3 };
    let mut state = SctkApplicationState::new(window);
    let actions = state.maybe_send_startup_pending_configure(&Vec::new());
    assert_eq!(actions.configure, None);
    assert_eq!(
        state.configure(5, configure_of(500, 400), 7),
        ConfigureOutcome::Forward(WindowRequest {
            window: 5,
            call: WindowCall::Configure { configure: configure_of(500, 400), serial: 7 },
        })
    );
    assert_eq!(state.pending_configure(), None);
    assert_eq!(
        state.configure(5, configure_of(640, 480), 8),
        ConfigureOutcome::Forward(WindowRequest {
            window: 5,
            call: WindowCall::Configure { configure: configure_of(640, 480), serial: 8 },
        })
    );
}

#[test]
fn configure_for_an_unknown_window_is_dropped() {
    let window = SctkFlutterWindow { xdg_toplevel_id: 5, wl_surface_id: 3 };
    let mut state = SctkApplicationState::new(window);
    assert_eq!(state.configure(6, configure_of(500, 400), 7), ConfigureOutcome::UnknownWindow);
    assert_eq!(state.pending_configure(), None);
    state.maybe_send_startup_pending_configure(&Vec::new());
    assert_eq!(state.configure(3, configure_of(500, 400), 7), ConfigureOutcome::UnknownWindow);
}

#[test]
fn synchronizer_holds_back_until_the_engine_runs() {
    let mut synchronizer = ImplicitWindowStartupSynchronizer::new();
    assert!(!synchronizer.is_engine_running());
    assert_eq!(synchronizer.pending_configure(), None);
    assert_eq!(synchronizer.configure(configure_of(1, 2), 1), None);
    assert_eq!(synchronizer.configure(configure_of(3, 4), 2), None);
    assert_eq!(
        synchronizer.engine_started(),
        Some(PendingConfigure { configure: configure_of(3, 4), serial: 2 })
    );
    assert!(synchronizer.is_engine_running());
    assert_eq!(synchronizer.pending_configure(), None);
    assert_eq!(
        synchronizer.configure(configure_of(5, 6), 3),
        Some(PendingConfigure { configure: configure_of(5, 6), serial: 3 })
    );
    assert_eq!(synchronizer.engine_started(), None);
    assert!(synchronizer.is_engine_running());
}

#[test]
fn set_pending_configure_replaces_what_was_held_back() {
    let mut synchronizer = ImplicitWindowStartupSynchronizer::new();
    synchronizer.set_pending_configure(configure_of(1, 2), 1);
    synchronizer.set_pending_configure(configure_of(3, 4), 2);
    assert_eq!(
        synchronizer.pending_configure(),
        Some(PendingConfigure { configure: configure_of(3, 4), serial: 2 })
    );
}

#[test]
fn engine_start_without_configure_flushes_nothing() {
    let mut synchronizer = ImplicitWindowStartupSynchronizer::new();
    assert_eq!(synchronizer.engine_started(), None);
    assert!(synchronizer.is_engine_running());
}
