use trackball_vial::auto_mouse::{
    handle_user_keycode, joystick_deltas, Action, AutoMouseProcessor, Axis, AxisValue,
    ControllerEvent, InputEvent, KeyCode, MouseMotion, ProcessResult, AUTO_LAYER_NONE, HID_ARROW_DOWN, HID_ARROW_LEFT,
    HID_ARROW_RIGHT, HID_ARROW_UP, LAYER_SCROLL, LAYER_SNIPER,
};
use trackball_vial::vial_settings::{
    mode, set_mode, set_setting, SettingsStore, QSID_AUTO_LAYER, QSID_AUTO_LAYER_SCROLL,
    QSID_AUTO_LAYER_TEXT, QSID_BALL_AXIS, QSID_BALL_DPI, QSID_INVERT_SCROLL, QSID_INVERT_TEXT,
    QSID_STICKY_MODE,
};

fn xy(dx: i16, dy: i16) -> Vec<AxisValue> {
    vec![AxisValue { axis: Axis::X, value: dx }, AxisValue { axis: Axis::Y, value: dy }]
}

fn mouse(buttons: u8, x: i8, y: i8) -> Action {
    Action::SendMouse(MouseMotion { buttons, x, y, wheel: 0, pan: 0 })
}

fn scroll(wheel: i8, pan: i8) -> Action {
    Action::SendMouse(MouseMotion { buttons: 0, x: 0, y: 0, wheel, pan })
}

fn run(p: &mut AutoMouseProcessor, s: &SettingsStore, axes: &[AxisValue], now: u32) -> Vec<Action> {
    assert!(p.motion_fits(s, axes));
    p.process_motion(s, axes, now)
}

#[test]
fn new_state_has_no_auto_layer() {
    let p = AutoMouseProcessor::new();
    assert_eq!(p.active_auto_layer, AUTO_LAYER_NONE);
    assert_eq!(p.mouse_buttons, 0);
    assert_eq!(p.active_layer, 0);
    assert_eq!((p.scroll_accum_x, p.scroll_accum_y, p.normal_accum_x, p.normal_accum_y), (0, 0, 0, 0));
}

#[test]
fn joystick_deltas_take_the_last_reading_of_each_axis() {
    let axes = [
        AxisValue { axis: Axis::X, value: 5 },
        AxisValue { axis: Axis::Y, value: -3 },
        AxisValue { axis: Axis::Other, value: 99 },
        AxisValue { axis: Axis::X, value: 7 },
    ];
    assert_eq!(joystick_deltas(&axes), (7, -3));
    assert_eq!(joystick_deltas(&[]), (0, 0));
}

#[test]
fn mode_keys_are_momentary_unless_sticky() {
    let mut s = SettingsStore::new();
    handle_user_keycode(&mut s, 10, true);
    assert_eq!(mode(&s), 1);
    handle_user_keycode(&mut s, 10, false);
    assert_eq!(mode(&s), 0);
    handle_user_keycode(&mut s, 11, true);
    assert_eq!(mode(&s), 2);
    handle_user_keycode(&mut s, 12, true);
    assert_eq!(mode(&s), 3);
    // Keys outside User10..User12 do nothing.
    handle_user_keycode(&mut s, 13, true);
    assert_eq!(mode(&s), 3);
    handle_user_keycode(&mut s, 9, false);
    assert_eq!(mode(&s), 3);
    set_setting(&mut s, QSID_STICKY_MODE, &[1]);
    handle_user_keycode(&mut s, 12, false);
    assert_eq!(mode(&s), 3);
}

#[test]
fn normal_mode_activates_the_auto_layer_and_reports() {
    let s = SettingsStore::new();
    let mut p = AutoMouseProcessor::new();
    let acts = run(&mut p, &s, &xy(10, -5), 100);
    assert_eq!(acts, vec![Action::ActivateLayer(4), mouse(0, 10, -5)]);
    assert_eq!(p.active_auto_layer, 4);
    assert_eq!(p.last_motion_t, 100);
    assert_eq!(p.last_normal_report_ms, 100);
    assert_eq!((p.normal_accum_x, p.normal_accum_y), (0, 0));
}

#[test]
fn normal_mode_throttles_reports() {
    let s = SettingsStore::new();
    let mut p = AutoMouseProcessor::new();
    run(&mut p, &s, &xy(1, 1), 100);
    // 5 ms later: accumulated, not sent; the layer is already on.
    assert_eq!(run(&mut p, &s, &xy(200, 2), 105), vec![]);
    assert_eq!((p.normal_accum_x, p.normal_accum_y), (200, 2));
    // 16 ms after the last report: sent, clamped to a byte.
    assert_eq!(run(&mut p, &s, &xy(3, -1), 116), vec![mouse(0, 127, 1)]);
    assert_eq!((p.normal_accum_x, p.normal_accum_y), (0, 0));
}

#[test]
fn normal_mode_sends_held_buttons() {
    let mut s = SettingsStore::new();
    let mut p = AutoMouseProcessor::new();
    p.on_controller_event(&mut s, ControllerEvent::Key { pressed: true, key: KeyCode::MouseBtn2 });
    assert_eq!(p.mouse_buttons, 2);
    let acts = run(&mut p, &s, &xy(-300, 4), 40);
    assert_eq!(acts, vec![Action::ActivateLayer(4), mouse(2, -128, 4)]);
}

#[test]
fn zero_motion_sends_nothing() {
    let s = SettingsStore::new();
    let mut p = AutoMouseProcessor::new();
    assert_eq!(run(&mut p, &s, &xy(0, 0), 100), vec![Action::ActivateLayer(4)]);
}

#[test]
fn scroll_layer_scrolls_and_keeps_the_remainder() {
    let s = SettingsStore::new();
    let mut p = AutoMouseProcessor::new();
    p.active_layer = LAYER_SCROLL;
    // Scroll divisor 5; wheel goes the other way than the ball unless inverted.
    assert_eq!(run(&mut p, &s, &xy(3, 12), 10), vec![scroll(-2, 0)]);
    assert_eq!((p.scroll_accum_x, p.scroll_accum_y), (3, 2));
    assert_eq!(run(&mut p, &s, &xy(3, 0), 20), vec![scroll(0, 1)]);
    assert_eq!((p.scroll_accum_x, p.scroll_accum_y), (1, 2));
    assert_eq!(run(&mut p, &s, &xy(1, 1), 30), vec![]);
    assert_eq!((p.scroll_accum_x, p.scroll_accum_y), (2, 3));
    // Negative motion truncates towards zero and keeps a negative remainder.
    assert_eq!(run(&mut p, &s, &xy(0, -11), 40), vec![scroll(1, 0)]);
    assert_eq!((p.scroll_accum_x, p.scroll_accum_y), (2, -3));
    // The auto layer is not used in scroll mode by default.
    assert_eq!(p.active_auto_layer, AUTO_LAYER_NONE);
}

#[test]
fn inverted_scroll_follows_the_ball() {
    let mut s = SettingsStore::new();
    set_setting(&mut s, QSID_INVERT_SCROLL, &[1]);
    let mut p = AutoMouseProcessor::new();
    p.active_layer = LAYER_SCROLL;
    assert_eq!(run(&mut p, &s, &xy(0, 12), 10), vec![scroll(2, 0)]);
}

#[test]
fn scroll_mode_switches_the_auto_layer_when_enabled() {
    let mut s = SettingsStore::new();
    set_setting(&mut s, QSID_AUTO_LAYER_SCROLL, &[1]);
    set_mode(&mut s, 2);
    let mut p = AutoMouseProcessor::new();
    assert_eq!(run(&mut p, &s, &xy(0, 5), 10), vec![Action::ActivateLayer(4), scroll(-1, 0)]);
    // A different auto layer replaces the old one.
    set_setting(&mut s, QSID_AUTO_LAYER, &[7]);
    assert_eq!(run(&mut p, &s, &xy(0, 0), 20), vec![Action::DeactivateLayer(4), Action::ActivateLayer(7)]);
    // Switching the auto layer off releases it.
    set_setting(&mut s, QSID_AUTO_LAYER_SCROLL, &[0]);
    assert_eq!(run(&mut p, &s, &xy(0, 0), 30), vec![Action::DeactivateLayer(7)]);
    assert_eq!(p.active_auto_layer, AUTO_LAYER_NONE);
}

#[test]
fn sniper_layer_divides_motion() {
    let mut s = SettingsStore::new();
    let mut p = AutoMouseProcessor::new();
    p.active_layer = LAYER_SNIPER;
    p.on_controller_event(&mut s, ControllerEvent::Key { pressed: true, key: KeyCode::MouseBtn1 });
    // Sniper divisor 4.
    assert_eq!(run(&mut p, &s, &xy(10, -3), 10), vec![mouse(1, 2, 0)]);
    assert_eq!(run(&mut p, &s, &xy(3, -3), 20), vec![]);
    assert_eq!(run(&mut p, &s, &xy(-32768, 700), 30), vec![mouse(1, -128, 127)]);
    // Nothing accumulates in sniper mode.
    assert_eq!((p.normal_accum_x, p.normal_accum_y), (0, 0));
}

#[test]
fn text_mode_taps_arrows_along_the_dominant_axis() {
    let mut s = SettingsStore::new();
    set_mode(&mut s, 3);
    let mut p = AutoMouseProcessor::new();
    // Text divisor 5: x has 2 steps, y none, so y's accumulator is dropped.
    assert_eq!(run(&mut p, &s, &xy(12, 3), 10), vec![Action::TapKey { keycode: HID_ARROW_RIGHT, times: 2 }]);
    assert_eq!((p.normal_accum_x, p.normal_accum_y), (2, 0));
    assert_eq!(run(&mut p, &s, &xy(-1, -16), 20), vec![Action::TapKey { keycode: HID_ARROW_UP, times: 3 }]);
    assert_eq!((p.normal_accum_x, p.normal_accum_y), (0, -1));
    // A tie keeps both axes.
    assert_eq!(
        run(&mut p, &s, &xy(-10, 11), 30),
        vec![
            Action::TapKey { keycode: HID_ARROW_LEFT, times: 2 },
            Action::TapKey { keycode: HID_ARROW_DOWN, times: 2 },
        ]
    );
    assert_eq!((p.normal_accum_x, p.normal_accum_y), (0, 0));
    // Below one step nothing is tapped and nothing is reset.
    assert_eq!(run(&mut p, &s, &xy(4, -4), 40), vec![]);
    assert_eq!((p.normal_accum_x, p.normal_accum_y), (4, -4));
}

#[test]
fn inverted_text_flips_the_vertical_arrows() {
    let mut s = SettingsStore::new();
    set_mode(&mut s, 3);
    set_setting(&mut s, QSID_INVERT_TEXT, &[1]);
    set_setting(&mut s, QSID_AUTO_LAYER_TEXT, &[1]);
    let mut p = AutoMouseProcessor::new();
    assert_eq!(
        run(&mut p, &s, &xy(0, 10), 10),
        vec![Action::ActivateLayer(4), Action::TapKey { keycode: HID_ARROW_UP, times: 2 }]
    );
}

#[test]
fn motion_is_rotated_and_scaled_before_use() {
    let mut s = SettingsStore::new();
    set_setting(&mut s, QSID_BALL_AXIS, &[1]);
    set_setting(&mut s, QSID_BALL_DPI, &[9]);
    let mut p = AutoMouseProcessor::new();
    // Rotated (10, -5) -> (-5, -10), then scaled by 2000/1000.
    assert_eq!(run(&mut p, &s, &xy(10, -5), 100), vec![Action::ActivateLayer(4), mouse(0, -10, -20)]);
}

#[test]
fn idle_tick_releases_the_auto_layer() {
    let s = SettingsStore::new();
    let mut p = AutoMouseProcessor::new();
    run(&mut p, &s, &xy(1, 1), 1000);
    run(&mut p, &s, &xy(1, 1), 1001);
    assert_eq!((p.normal_accum_x, p.normal_accum_y), (1, 1));
    assert_eq!(p.on_timer_tick(1349), vec![]);
    assert_eq!(p.active_auto_layer, 4);
    assert_eq!(p.on_timer_tick(1351), vec![Action::DeactivateLayer(4)]);
    assert_eq!(p.active_auto_layer, AUTO_LAYER_NONE);
    assert_eq!((p.normal_accum_x, p.normal_accum_y), (0, 0));
    // Nothing more to release.
    assert_eq!(p.on_timer_tick(5000), vec![]);
}

#[test]
fn idle_time_wraps_around_the_clock() {
    let s = SettingsStore::new();
    let mut p = AutoMouseProcessor::new();
    run(&mut p, &s, &xy(1, 0), u32::MAX - 100);
    assert_eq!(p.on_timer_tick(100), vec![]);
    assert_eq!(p.on_timer_tick(300), vec![Action::DeactivateLayer(4)]);
}

#[test]
fn controller_events_track_layer_buttons_and_mode_keys() {
    let mut s = SettingsStore::new();
    let mut p = AutoMouseProcessor::new();
    p.on_controller_event(&mut s, ControllerEvent::Layer(5));
    assert_eq!(p.active_layer, 5);
    p.on_controller_event(&mut s, ControllerEvent::Key { pressed: true, key: KeyCode::MouseBtn1 });
    p.on_controller_event(&mut s, ControllerEvent::Key { pressed: true, key: KeyCode::MouseBtn5 });
    assert_eq!(p.mouse_buttons, 0b1_0001);
    p.on_controller_event(&mut s, ControllerEvent::Key { pressed: false, key: KeyCode::MouseBtn1 });
    assert_eq!(p.mouse_buttons, 0b1_0000);
    p.on_controller_event(&mut s, ControllerEvent::Key { pressed: true, key: KeyCode::User11 });
    assert_eq!(mode(&s), 2);
    p.on_controller_event(&mut s, ControllerEvent::Key { pressed: false, key: KeyCode::User11 });
    assert_eq!(mode(&s), 0);
    p.on_controller_event(&mut s, ControllerEvent::Key { pressed: true, key: KeyCode::Other });
    p.on_controller_event(&mut s, ControllerEvent::Other);
    assert_eq!(p.mouse_buttons, 0b1_0000);
    assert_eq!(p.active_layer, 5);
}

#[test]
fn motion_fits_rejects_overflowing_events() {
    let mut s = SettingsStore::new();
    let mut p = AutoMouseProcessor::new();
    assert!(p.motion_fits(&s, &xy(i16::MIN, i16::MIN)));
    set_setting(&mut s, QSID_BALL_AXIS, &[2]);
    assert!(!p.motion_fits(&s, &xy(i16::MIN, 0)));
    assert!(p.motion_fits(&s, &xy(i16::MAX, 0)));
    set_setting(&mut s, QSID_BALL_AXIS, &[0]);
    p.normal_accum_x = i32::MAX - 5;
    assert!(p.motion_fits(&s, &xy(5, 0)));
    assert!(!p.motion_fits(&s, &xy(6, 0)));
}

#[test]
fn button_state_follows_press_and_release() {
    let mut s = SettingsStore::new();
    let mut p = AutoMouseProcessor::new();
    let press = ControllerEvent::Key { pressed: true, key: KeyCode::MouseBtn3 };
    let release = ControllerEvent::Key { pressed: false, key: KeyCode::MouseBtn3 };
    p.on_controller_event(&mut s, press);
    assert_eq!(p.mouse_buttons, 0b100);
    // A second press (another key on the same button) keeps it held.
    p.on_controller_event(&mut s, press);
    assert_eq!(p.mouse_buttons, 0b100);
    p.on_controller_event(&mut s, release);
    assert_eq!(p.mouse_buttons, 0);
    // A release of a button that is not held leaves it released.
    p.on_controller_event(&mut s, release);
    assert_eq!(p.mouse_buttons, 0);
}

#[test]
fn process_passes_other_events_on() {
    let s = SettingsStore::new();
    let mut p = AutoMouseProcessor::new();
    let before = p;
    match p.process(&s, InputEvent::Other("key event"), 100) {
        ProcessResult::Continue(InputEvent::Other(e)) => assert_eq!(e, "key event"),
        _ => panic!("expected the event to be passed on"),
    }
    assert_eq!(p, before);
}

#[test]
fn process_consumes_joystick_events() {
    let s = SettingsStore::new();
    let mut p = AutoMouseProcessor::new();
    match p.process::<()>(&s, InputEvent::Joystick(xy(10, -5)), 100) {
        ProcessResult::Stop(acts) => assert_eq!(acts, vec![Action::ActivateLayer(4), mouse(0, 10, -5)]),
        _ => panic!("expected the joystick event to be consumed"),
    }
    assert_eq!(p.active_auto_layer, 4);
}

#[test]
fn scroll_layer_matches_scroll_mode() {
    let mut s_layer = SettingsStore::new();
    set_mode(&mut s_layer, 3);
    let mut s_mode = SettingsStore::new();
    set_mode(&mut s_mode, 2);
    let mut a = AutoMouseProcessor::new();
    a.active_layer = LAYER_SCROLL;
    let mut b = AutoMouseProcessor::new();
    for (dx, dy, t) in [(3, 12, 10), (-7, 4, 20), (0, -30, 30)] {
        assert_eq!(run(&mut a, &s_layer, &xy(dx, dy), t), run(&mut b, &s_mode, &xy(dx, dy), t));
    }
    b.active_layer = LAYER_SCROLL;
    assert_eq!(a, b);
}

#[test]
fn sniper_layer_matches_sniper_mode() {
    let s_layer = SettingsStore::new();
    let mut s_mode = SettingsStore::new();
    set_mode(&mut s_mode, 1);
    let mut a = AutoMouseProcessor::new();
    a.active_layer = LAYER_SNIPER;
    let mut b = AutoMouseProcessor::new();
    for (dx, dy, t) in [(10, -3, 10), (400, 9, 20)] {
        assert_eq!(run(&mut a, &s_layer, &xy(dx, dy), t), run(&mut b, &s_mode, &xy(dx, dy), t));
    }
    b.active_layer = LAYER_SNIPER;
    assert_eq!(a, b);
}

#[test]
fn releasing_twice_deactivates_once() {
    let s = SettingsStore::new();
    let mut p = AutoMouseProcessor::new();
    run(&mut p, &s, &xy(1, 1), 0);
    assert_eq!(p.on_timer_tick(400), vec![Action::DeactivateLayer(4)]);
    assert_eq!(p.on_timer_tick(800), vec![]);
    assert_eq!(p.active_auto_layer, AUTO_LAYER_NONE);
}
