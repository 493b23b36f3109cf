use flutter_shell::application::{
    Capability, SctkApplicationState, SctkFlutterWindow, VsyncRequest, WindowCall, WindowRequest,
};
use flutter_shell::cursor::{SctkMouseCursorHandler, ThemedPointer};
use flutter_shell::display::{Mode, OutputInfo, SctkOutput};

fn state() -> SctkApplicationState {
    SctkApplicationState::new(SctkFlutterWindow { xdg_toplevel_id: 5, wl_surface_id: 3 })
}

#[test]
fn new_state_has_the_implicit_window_and_nothing_else() {
    let state = state();
    let window = SctkFlutterWindow { xdg_toplevel_id: 5, wl_surface_id: 3 };
    assert_eq!(state.get_implicit_window(), Some(window));
    assert_eq!(state.find_window_by_surface_id(3), Some(window));
    assert_eq!(state.find_window_by_surface_id(5), None);
    assert_eq!(state.find_window_by_toplevel_id(5), Some(window));
    assert_eq!(state.find_window_by_toplevel_id(3), None);
    assert!(!state.is_engine_running());
    assert!(!state.stop_requested());
    assert_eq!(state.pointer_of_seat(1), None);
}

#[test]
fn request_close_asks_the_loop_to_stop() {
    let mut state = state();
    state.request_close();
    assert!(state.stop_requested());
    assert_eq!(state.find_window_by_surface_id(3).map(|window| window.xdg_toplevel_id), Some(5));
}

#[test]
fn surface_events_reach_the_window_of_the_surface() {
    let state = state();
    assert_eq!(
        state.scale_factor_changed(3, 2),
        Some(WindowRequest {
            window: 5,
            call: WindowCall::ScaleFactorChanged { new_scale_factor: 2 },
        })
    );
    assert_eq!(state.scale_factor_changed(4, 2), None);
    let changed = Some(WindowRequest { window: 5, call: WindowCall::SurfaceOutputsChanged });
    assert_eq!(state.surface_enter(3), changed);
    assert_eq!(state.surface_leave(3), changed);
    assert_eq!(state.surface_enter(9), None);
    assert_eq!(state.surface_leave(9), None);
}

#[test]
fn pointer_events_on_unknown_surfaces_are_passed_over() {
    let state = state();
    let requests = state.pointer_frame(&vec![3, 8, 3, 5, 3]);
    assert_eq!(
        requests,
        vec![
            WindowRequest { window: 5, call: WindowCall::PointerEvent { index: 0 } },
            WindowRequest { window: 5, call: WindowCall::PointerEvent { index: 2 } },
            WindowRequest { window: 5, call: WindowCall::PointerEvent { index: 4 } },
        ]
    );
    assert!(state.pointer_frame(&Vec::new()).is_empty());
    assert!(state.pointer_frame(&vec![1, 2]).is_empty());
}

#[test]
fn only_the_pointer_capability_asks_for_a_themed_pointer() {
    let state = state();
    assert!(state.new_capability(Capability::Pointer));
    assert!(!state.new_capability(Capability::Keyboard));
    assert!(!state.new_capability(Capability::Touch));
}

#[test]
fn created_pointer_belongs_to_its_seat_until_the_capability_goes() {
    let mut state = state();
    let mut handler = SctkMouseCursorHandler::new();
    let pointer = ThemedPointer { pointer_id: 30, seat_id: Some(20) };
    state.themed_pointer_created(&mut handler, 20, Some(pointer));
    assert_eq!(state.pointer_of_seat(20), Some(30));
    assert_eq!(handler.themed_pointer(), Some(pointer));

    state.remove_capability(&mut handler, 20, Capability::Keyboard);
    assert_eq!(state.pointer_of_seat(20), Some(30));
    assert_eq!(handler.themed_pointer(), Some(pointer));

    state.remove_capability(&mut handler, 21, Capability::Pointer);
    assert_eq!(state.pointer_of_seat(20), Some(30));
    assert_eq!(handler.themed_pointer(), Some(pointer));

    state.remove_capability(&mut handler, 20, Capability::Pointer);
    assert_eq!(state.pointer_of_seat(20), None);
    assert_eq!(handler.themed_pointer(), None);
}

#[test]
fn failed_pointer_creation_clears_the_seat_and_the_handler() {
    let mut state = state();
    let mut handler = SctkMouseCursorHandler::new();
    state.themed_pointer_created(
        &mut handler,
        20,
        Some(ThemedPointer { pointer_id: 30, seat_id: Some(20) }),
    );
    state.themed_pointer_created(&mut handler, 20, None);
    assert_eq!(state.pointer_of_seat(20), None);
    assert_eq!(handler.themed_pointer(), None);
}

#[test]
fn second_pointer_of_a_seat_replaces_the_first() {
    let mut state = state();
    let mut handler = SctkMouseCursorHandler::new();
    state.themed_pointer_created(
        &mut handler,
        20,
        Some(ThemedPointer { pointer_id: 30, seat_id: Some(20) }),
    );
    state.themed_pointer_created(
        &mut handler,
        20,
        Some(ThemedPointer { pointer_id: 31, seat_id: Some(20) }),
    );
    assert_eq!(state.pointer_of_seat(20), Some(31));
    assert_eq!(handler.themed_pointer().map(|pointer| pointer.pointer_id), Some(31));
}

#[test]
fn frame_callback_paces_with_the_fastest_output_or_sixty_hertz() {
    let state = state();
    let fast = Mode { dimensions: (1, 1), refresh_rate: 120_000, current: true, preferred: false };
    let slow = Mode { dimensions: (1, 1), refresh_rate: 50_000, current: true, preferred: false };
    let outputs = vec![
        Some(OutputInfo { id: 1, scale_factor: 1, modes: vec![slow] }),
        Some(OutputInfo { id: 2, scale_factor: 1, modes: vec![fast] }),
    ];
    assert_eq!(
        state.frame(77, Some(&outputs)),
        VsyncRequest { baton: 77, frame_interval_nanos: 8_333_333 }
    );
    assert_eq!(state.frame(78, None), VsyncRequest { baton: 78, frame_interval_nanos: 16_666_666 });
    assert_eq!(
        state.frame(-1, Some(&Vec::new())),
        VsyncRequest { baton: -1, frame_interval_nanos: 16_666_666 }
    );
}

#[test]
fn display_changes_are_passed_over_until_the_engine_runs() {
    let mut state = state();
    let outputs = vec![SctkOutput::new(1, None)];
    assert_eq!(state.notify_display_update(&outputs), None);
    state.maybe_send_startup_pending_configure(&outputs);
    let update = state.notify_display_update(&outputs).unwrap();
    assert_eq!(update.displays.len(), 1);
    assert_eq!(update.displays[0].display_id, 1);
}
