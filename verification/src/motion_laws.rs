//! Laws on what each trackball mode reports, stated over the settings that the
//! mode is meant to read, and on the mode keys.
use vstd::prelude::*;
use crate::auto_mouse::{
    axis_delta, Axis, elapsed_ms, magnitude, scaled_motion, Action, AutoMouseProcessor, AxisValue, ControllerEvent,
    KeyCode, MouseMotion, HID_ARROW_DOWN, HID_ARROW_LEFT, HID_ARROW_RIGHT, HID_ARROW_UP,
    MODE_SCROLL, MODE_SNIPER, MODE_TEXT, NORMAL_REPORT_INTERVAL_MS,
};
use crate::auto_mouse_laws::lemma_tdiv_trem;
use crate::vial_settings::{at_least, flag_on, tdiv, VialSettingsData, FLAG_INVERT_SCROLL, FLAG_INVERT_TEXT, FLAG_STICKY_MODE};

verus! {

/// `v` is `a` saturated to the byte range: equal to `a` when it fits, 127 above,
/// -128 below.
pub open spec fn saturates_to(v: i8, a: int) -> bool {
    &&& (-128 <= a <= 127 ==> v as int == a)
    &&& (a > 127 ==> v == 127)
    &&& (a < -128 ==> v == -128)
}

/// Sniper mode divides the scaled motion by the sniper sensitivity (at least 1),
/// rounding towards zero, and reports it saturated to a byte with the held buttons;
/// nothing is sent while both quotients are zero.  Only the sniper sensitivity
/// matters: the text and scroll sensitivities play no part.
pub proof fn law_sniper_report(st: AutoMouseProcessor, s: VialSettingsData, axes: Seq<AxisValue>, now: u32)
    requires
        st.motion_mode(s) == MODE_SNIPER,
    ensures
        ({
            let d = scaled_motion(s, axes);
            let qx = tdiv(d.0, at_least(s.sniper_sens, 1) as int);
            let qy = tdiv(d.1, at_least(s.sniper_sens, 1) as int);
            let layered = st.after_motion_layer(s, MODE_SNIPER, now);
            let r = st.spec_process(s, axes, now);
            &&& r.0 == layered.0
            &&& (qx == 0 && qy == 0) ==> r.1 == layered.1
            &&& (qx != 0 || qy != 0) ==> {
                &&& r.1.len() == layered.1.len() + 1
                &&& r.1.subrange(0, layered.1.len() as int) == layered.1
                &&& r.1.last() matches Action::SendMouse(m) && {
                    &&& m.buttons == st.mouse_buttons
                    &&& saturates_to(m.x, qx)
                    &&& saturates_to(m.y, qy)
                    &&& m.wheel == 0 && m.pan == 0
                }
            }
        }),
{
    let d = scaled_motion(s, axes);
    let layered = st.after_motion_layer(s, MODE_SNIPER, now);
    let r = st.spec_process(s, axes, now);
    let extra = layered.0.sniper_step(s, d.0, d.1);
    assert(r.1 == layered.1 + extra);
    assert((layered.1 + extra).subrange(0, layered.1.len() as int) =~= layered.1);
}

/// Scroll mode adds the motion to the scroll accumulators and divides them by the
/// scroll sensitivity (at least 1), rounding towards zero.  The wheel turns
/// against the ball's vertical motion unless scrolling is inverted; the pan
/// follows the ball's horizontal motion whatever the inversion flag says.  A
/// report goes out when either byte is non-zero, keeping the remainders;
/// otherwise the accumulators just grow.
pub proof fn law_scroll_report(st: AutoMouseProcessor, s: VialSettingsData, dx: int, dy: int)
    requires
        st.scroll_fits(s, dx, dy),
    ensures
        ({
            let div = at_least(s.scroll_sens, 1) as int;
            let acc_x = st.scroll_accum_x + dx;
            let acc_y = st.scroll_accum_y + dy;
            let qx = tdiv(acc_x, div);
            let qy = tdiv(acc_y, div);
            let wheel = (if flag_on(s.flags, FLAG_INVERT_SCROLL) { qy } else { -qy }) as i8;
            let pan = qx as i8;
            let r = st.scroll_step(s, dx, dy);
            &&& (wheel != 0 || pan != 0) ==> {
                &&& r.1 == seq![Action::SendMouse(MouseMotion { buttons: 0, x: 0, y: 0, wheel, pan })]
                &&& acc_x == div * qx + r.0.scroll_accum_x
                &&& acc_y == div * qy + r.0.scroll_accum_y
            }
            &&& (wheel == 0 && pan == 0) ==> {
                &&& r.1.len() == 0
                &&& r.0.scroll_accum_x == acc_x && r.0.scroll_accum_y == acc_y
            }
            &&& r.0.normal_accum_x == st.normal_accum_x && r.0.normal_accum_y == st.normal_accum_y
            &&& r.0.mouse_buttons == st.mouse_buttons
        }),
{
    let div = at_least(s.scroll_sens, 1) as int;
    lemma_tdiv_trem(st.scroll_accum_x + dx, div);
    lemma_tdiv_trem(st.scroll_accum_y + dy, div);
}

/// Flipping the scroll inversion flag leaves the pan of a scroll report, and the
/// kept accumulators, as they were: inversion only concerns the wheel.
pub proof fn law_scroll_pan_ignores_inversion(st: AutoMouseProcessor, s: VialSettingsData, dx: int, dy: int)
    requires
        st.scroll_fits(s, dx, dy),
        tdiv(st.scroll_accum_x + dx, at_least(s.scroll_sens, 1) as int) as i8 != 0,
    ensures
        ({
            let flipped = VialSettingsData { flags: s.flags ^ FLAG_INVERT_SCROLL, ..s };
            let a = st.scroll_step(s, dx, dy);
            let b = st.scroll_step(flipped, dx, dy);
            &&& a.1.len() == 1 && b.1.len() == 1
            &&& a.1[0] matches Action::SendMouse(ma) && b.1[0] matches Action::SendMouse(mb) && ma.pan == mb.pan
                && ma.pan == tdiv(st.scroll_accum_x + dx, at_least(s.scroll_sens, 1) as int) as i8
            &&& a.0 == b.0
        }),
{
    let f = s.flags;
    assert(((f ^ 1u8) & 1u8 != 0) == !(f & 1u8 != 0)) by (bit_vector);
}

/// Text mode adds the motion to the normal accumulators and divides them by the
/// text sensitivity (at least 1), rounding towards zero.  When the horizontal
/// quotient is the larger, it taps right (or left) that many times, keeps the
/// horizontal remainder and drops the vertical accumulator.
pub proof fn law_text_horizontal(st: AutoMouseProcessor, s: VialSettingsData, dx: int, dy: int)
    requires
        ({
            let div = at_least(s.text_sens, 1) as int;
            magnitude(tdiv(st.normal_accum_x + dx, div)) > magnitude(tdiv(st.normal_accum_y + dy, div))
        }),
    ensures
        ({
            let div = at_least(s.text_sens, 1) as int;
            let acc_x = st.normal_accum_x + dx;
            let qx = tdiv(acc_x, div);
            let r = st.text_step(s, dx, dy);
            &&& r.1 == seq![Action::TapKey {
                keycode: if qx > 0 { HID_ARROW_RIGHT } else { HID_ARROW_LEFT },
                times: magnitude(qx) as u32,
            }]
            &&& acc_x == div * qx + r.0.normal_accum_x
            &&& magnitude(r.0.normal_accum_x as int) < div
            &&& r.0.normal_accum_y == 0
        }),
{
    let div = at_least(s.text_sens, 1) as int;
    lemma_tdiv_trem(st.normal_accum_x + dx, div);
    lemma_tdiv_trem(st.normal_accum_y + dy, div);
    let r = st.text_step(s, dx, dy);
    assert(r.1 =~= seq![Action::TapKey {
        keycode: if tdiv(st.normal_accum_x + dx, div) > 0 { HID_ARROW_RIGHT } else { HID_ARROW_LEFT },
        times: magnitude(tdiv(st.normal_accum_x + dx, div)) as u32,
    }]);
}

/// When the vertical text-mode quotient is the larger, it taps down (up when the
/// ball moves up) that many times, the other way round when text is inverted,
/// keeps the vertical remainder and drops the horizontal accumulator.
pub proof fn law_text_vertical(st: AutoMouseProcessor, s: VialSettingsData, dx: int, dy: int)
    requires
        ({
            let div = at_least(s.text_sens, 1) as int;
            magnitude(tdiv(st.normal_accum_y + dy, div)) > magnitude(tdiv(st.normal_accum_x + dx, div))
        }),
    ensures
        ({
            let div = at_least(s.text_sens, 1) as int;
            let acc_y = st.normal_accum_y + dy;
            let qy = tdiv(acc_y, div);
            let down = if flag_on(s.flags, FLAG_INVERT_TEXT) { qy < 0 } else { qy > 0 };
            let r = st.text_step(s, dx, dy);
            &&& r.1 == seq![Action::TapKey {
                keycode: if down { HID_ARROW_DOWN } else { HID_ARROW_UP },
                times: magnitude(qy) as u32,
            }]
            &&& acc_y == div * qy + r.0.normal_accum_y
            &&& magnitude(r.0.normal_accum_y as int) < div
            &&& r.0.normal_accum_x == 0
        }),
{
    let div = at_least(s.text_sens, 1) as int;
    lemma_tdiv_trem(st.normal_accum_x + dx, div);
    lemma_tdiv_trem(st.normal_accum_y + dy, div);
    let qy = tdiv(st.normal_accum_y + dy, div);
    let down = if flag_on(s.flags, FLAG_INVERT_TEXT) { qy < 0 } else { qy > 0 };
    let r = st.text_step(s, dx, dy);
    assert(r.1 =~= seq![Action::TapKey {
        keycode: if down { HID_ARROW_DOWN } else { HID_ARROW_UP },
        times: magnitude(qy) as u32,
    }]);
}

/// Below one text step on both axes nothing is tapped and the accumulators keep
/// the whole motion.
pub proof fn law_text_below_step(st: AutoMouseProcessor, s: VialSettingsData, dx: int, dy: int)
    requires
        st.text_fits(s, dx, dy),
        tdiv(st.normal_accum_x + dx, at_least(s.text_sens, 1) as int) == 0,
        tdiv(st.normal_accum_y + dy, at_least(s.text_sens, 1) as int) == 0,
    ensures
        st.text_step(s, dx, dy).1.len() == 0,
        st.text_step(s, dx, dy).0.normal_accum_x == st.normal_accum_x + dx,
        st.text_step(s, dx, dy).0.normal_accum_y == st.normal_accum_y + dy,
{
}

/// Normal mode reports the accumulated motion saturated to a byte, with the held
/// buttons, once the report interval has passed and there is motion; otherwise it
/// only accumulates.
pub proof fn law_normal_report(st: AutoMouseProcessor, dx: int, dy: int, now: u32)
    requires
        st.normal_fits(dx, dy),
    ensures
        ({
            let acc_x = st.normal_accum_x + dx;
            let acc_y = st.normal_accum_y + dy;
            let r = st.normal_step(dx, dy, now);
            &&& (elapsed_ms(now, st.last_normal_report_ms) >= NORMAL_REPORT_INTERVAL_MS && (acc_x != 0
                || acc_y != 0)) ==> {
                &&& r.1.len() == 1
                &&& r.1[0] matches Action::SendMouse(m) && {
                    &&& m.buttons == st.mouse_buttons
                    &&& saturates_to(m.x, acc_x)
                    &&& saturates_to(m.y, acc_y)
                    &&& m.wheel == 0 && m.pan == 0
                }
                &&& r.0.normal_accum_x == 0 && r.0.normal_accum_y == 0
            }
            &&& !(elapsed_ms(now, st.last_normal_report_ms) >= NORMAL_REPORT_INTERVAL_MS && (acc_x != 0
                || acc_y != 0)) ==> {
                &&& r.1.len() == 0
                &&& r.0.normal_accum_x == acc_x && r.0.normal_accum_y == acc_y
            }
        }),
{
}

/// Which step handles a joystick event: the scroll step in scroll mode, the sniper
/// step in sniper mode, the text step in text mode, the normal step otherwise,
/// each after the auto-layer update.
pub proof fn law_process_dispatch(st: AutoMouseProcessor, s: VialSettingsData, axes: Seq<AxisValue>, now: u32)
    ensures
        ({
            let mode = st.motion_mode(s);
            let layered = st.after_motion_layer(s, mode, now);
            let d = scaled_motion(s, axes);
            let r = st.spec_process(s, axes, now);
            &&& mode == 2 ==> r == (layered.0.scroll_step(s, d.0, d.1).0, layered.1 + layered.0.scroll_step(s, d.0, d.1).1)
            &&& mode == 1 ==> r == (layered.0, layered.1 + layered.0.sniper_step(s, d.0, d.1))
            &&& mode == 3 ==> r == (layered.0.text_step(s, d.0, d.1).0, layered.1 + layered.0.text_step(s, d.0, d.1).1)
            &&& mode != 1 && mode != 2 && mode != 3 ==> r == (layered.0.normal_step(d.0, d.1, now).0, layered.1 + layered.0.normal_step(d.0, d.1, now).1)
        }),
{
}

/// The mode keys: a press of User10 selects sniper mode (1), User11 scroll mode
/// (2) and User12 text mode (3); a release of any of them returns to normal mode
/// (0) unless modes are sticky, in which case the mode stays.  Nothing else in the
/// settings changes.
pub proof fn law_mode_keys(st: AutoMouseProcessor, s: VialSettingsData, pressed: bool)
    ensures
        st.after_controller_event(s, ControllerEvent::Key { pressed: true, key: KeyCode::User10 }).1
            == (VialSettingsData { mode: 1, ..s }),
        st.after_controller_event(s, ControllerEvent::Key { pressed: true, key: KeyCode::User11 }).1
            == (VialSettingsData { mode: 2, ..s }),
        st.after_controller_event(s, ControllerEvent::Key { pressed: true, key: KeyCode::User12 }).1
            == (VialSettingsData { mode: 3, ..s }),
        !flag_on(s.flags, FLAG_STICKY_MODE) ==> {
            &&& st.after_controller_event(s, ControllerEvent::Key { pressed: false, key: KeyCode::User10 }).1
                == (VialSettingsData { mode: 0, ..s })
            &&& st.after_controller_event(s, ControllerEvent::Key { pressed: false, key: KeyCode::User11 }).1
                == (VialSettingsData { mode: 0, ..s })
            &&& st.after_controller_event(s, ControllerEvent::Key { pressed: false, key: KeyCode::User12 }).1
                == (VialSettingsData { mode: 0, ..s })
        },
        flag_on(s.flags, FLAG_STICKY_MODE) ==> {
            &&& st.after_controller_event(s, ControllerEvent::Key { pressed: false, key: KeyCode::User10 }).1 == s
            &&& st.after_controller_event(s, ControllerEvent::Key { pressed: false, key: KeyCode::User11 }).1 == s
            &&& st.after_controller_event(s, ControllerEvent::Key { pressed: false, key: KeyCode::User12 }).1 == s
        },
        st.after_controller_event(s, ControllerEvent::Key { pressed, key: KeyCode::MouseBtn1 }).1 == s,
        st.after_controller_event(s, ControllerEvent::Key { pressed, key: KeyCode::Other }).1 == s,
{
}

/// The last reading of an axis in a joystick event wins: appending a reading of
/// an axis makes it that axis' delta and leaves the other axes' deltas alone; an
/// event without readings moves nothing.
pub proof fn law_last_reading_wins(axes: Seq<AxisValue>, reading: AxisValue, axis: Axis)
    ensures
        axis_delta(Seq::<AxisValue>::empty(), axis) == 0,
        reading.axis == axis ==> axis_delta(axes.push(reading), axis) == reading.value,
        reading.axis != axis ==> axis_delta(axes.push(reading), axis) == axis_delta(axes, axis),
{
    assert(axes.push(reading).drop_last() =~= axes);
}

} // verus!
