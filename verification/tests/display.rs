use flutter_shell::display::{
    display_update, frame_interval_in_nanos, frame_interval_or_default,
    get_surface_frame_interval_in_nanos, get_surface_refresh_rate_in_mhz, FlutterEngineDisplay,
    FlutterEngineDisplaysUpdateType, Mode, OutputInfo, SctkOutput, FRAME_INTERVAL_60_HZ_IN_NANOS,
};

fn mode(refresh_rate: i32, current: bool) -> Mode {
    Mode { dimensions: (1920, 1080), refresh_rate, current, preferred: false }
}

fn output(id: u32, modes: Vec<Mode>) -> Option<OutputInfo> {
    Some(OutputInfo { id, scale_factor: 1, modes })
}

#[test]
fn current_refresh_rate_is_that_of_the_first_current_mode() {
    let info = OutputInfo {
        id: 1,
        scale_factor: 1,
        modes: vec![mode(144_000, false), mode(60_000, true), mode(75_000, true)],
    };
    assert_eq!(info.current_refresh_rate(), Some(60_000));
    let none = OutputInfo { id: 1, scale_factor: 1, modes: vec![mode(144_000, false)] };
    assert_eq!(none.current_refresh_rate(), None);
    let empty = OutputInfo { id: 1, scale_factor: 1, modes: vec![] };
    assert_eq!(empty.current_refresh_rate(), None);
}

#[test]
fn surface_refresh_rate_is_the_largest_among_its_outputs() {
    let outputs = vec![
        output(1, vec![mode(60_000, true)]),
        None,
        output(2, vec![mode(240_000, false), mode(144_000, true)]),
        output(3, vec![mode(75_000, true)]),
        output(4, vec![]),
    ];
    assert_eq!(get_surface_refresh_rate_in_mhz(&outputs), Some(144_000));
    assert_eq!(get_surface_frame_interval_in_nanos(Some(&outputs)), Some(6_944_444));
}

#[test]
fn surface_without_a_rate_has_no_refresh_rate() {
    assert_eq!(get_surface_refresh_rate_in_mhz(&Vec::new()), None);
    let outputs = vec![None, output(1, vec![mode(60_000, false)])];
    assert_eq!(get_surface_refresh_rate_in_mhz(&outputs), None);
    assert_eq!(get_surface_frame_interval_in_nanos(Some(&outputs)), None);
    assert_eq!(get_surface_frame_interval_in_nanos(None), None);
}

#[test]
fn negative_rates_lose_against_any_other() {
    let outputs = vec![output(1, vec![mode(-5, true)]), output(2, vec![mode(0, true)])];
    assert_eq!(get_surface_refresh_rate_in_mhz(&outputs), Some(0));
    assert_eq!(get_surface_frame_interval_in_nanos(Some(&outputs)), None);
    let only_negative = vec![output(1, vec![mode(-5, true)])];
    assert_eq!(get_surface_refresh_rate_in_mhz(&only_negative), Some(-5));
    assert_eq!(get_surface_frame_interval_in_nanos(Some(&only_negative)), Some(0));
}

#[test]
fn frame_interval_divides_a_second_by_the_rate() {
    assert_eq!(frame_interval_in_nanos(60_000), Some(16_666_666));
    assert_eq!(frame_interval_in_nanos(59_940), Some(16_683_350));
    assert_eq!(frame_interval_in_nanos(144_000), Some(6_944_444));
    assert_eq!(frame_interval_in_nanos(1), Some(1_000_000_000_000));
    assert_eq!(frame_interval_in_nanos(i32::MAX), Some(465));
    assert_eq!(frame_interval_in_nanos(0), None);
    assert_eq!(frame_interval_in_nanos(-1), Some(0));
    assert_eq!(frame_interval_in_nanos(i32::MIN), Some(0));
}

#[test]
fn missing_interval_falls_back_to_sixty_frames_a_second() {
    assert_eq!(FRAME_INTERVAL_60_HZ_IN_NANOS, 16_666_666);
    assert_eq!(frame_interval_or_default(None), 16_666_666);
    assert_eq!(frame_interval_or_default(Some(8_333_333)), 8_333_333);
    assert_eq!(frame_interval_or_default(Some(0)), 0);
}

#[test]
fn display_update_lists_the_outputs_in_order() {
    let outputs = vec![
        SctkOutput::new(7, output(7, vec![mode(60_000, true)])),
        SctkOutput::new(9, None),
        SctkOutput::new(
            8,
            Some(OutputInfo { id: 8, scale_factor: 3, modes: vec![mode(0, true)] }),
        ),
    ];
    let update = display_update(&outputs);
    assert_eq!(update.update_type, FlutterEngineDisplaysUpdateType::Startup);
    assert_eq!(
        update.displays,
        vec![
            FlutterEngineDisplay {
                display_id: 7,
                frame_interval_nanos: Some(16_666_666),
                scale_factor: 1,
            },
            FlutterEngineDisplay { display_id: 9, frame_interval_nanos: None, scale_factor: 1 },
            FlutterEngineDisplay { display_id: 8, frame_interval_nanos: None, scale_factor: 3 },
        ]
    );
    assert_eq!(outputs[0].display(), update.displays[0]);
    assert!(display_update(&Vec::new()).displays.is_empty());
}
