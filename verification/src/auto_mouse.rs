//! Auto-mouse layer and Scroll/Sniper/Text trackball modes.
//!
//! - The auto-mouse layer activates when the trackball moves and deactivates
//!   after the ball has been idle for a while.
//! - In the scroll layer (or scroll mode) the ball drives the scroll wheel.
//! - In the sniper layer (or sniper mode) the ball speed is divided down.
//! - In text mode the ball taps arrow keys.
//!
//! The decisions are made by [`AutoMouseProcessor`], a state machine: each
//! input (joystick motion, a timer tick, a controller event) yields the next
//! state and the list of [`Action`]s for the firmware to perform, in order.
use vstd::prelude::*;
use crate::vial_settings::{
    at_least, at_most, auto_layer, auto_layer_enabled_for_mode, axes_fit, axis_rotation,
    dpi_for_index, fits_i32, flag_on, invert_scroll, invert_text, rotated, scale_by_ball_dpi,
    scroll_sens, set_mode, sniper_sens, spec_auto_layer_enabled, sticky_mode, tdiv, text_sens,
    transform_axes, trem, current, SettingsStore, VialSettingsData, DPI_TABLE, FLAG_INVERT_SCROLL,
    FLAG_INVERT_TEXT, FLAG_STICKY_MODE,
};

verus! {

/// Layer that turns the trackball into a scroll wheel.
pub const LAYER_SCROLL: u8 = 5;
/// Layer that slows the trackball down.
pub const LAYER_SNIPER: u8 = 6;

pub const MODE_SNIPER: u8 = 1;
pub const MODE_SCROLL: u8 = 2;
pub const MODE_TEXT: u8 = 3;

pub const HID_ARROW_RIGHT: u8 = 0x4F;
pub const HID_ARROW_LEFT: u8 = 0x50;
pub const HID_ARROW_DOWN: u8 = 0x51;
pub const HID_ARROW_UP: u8 = 0x52;

/// Marks that no auto-mouse layer is active.
pub const AUTO_LAYER_NONE: u8 = 0xFF;
/// Idle time after which the auto-mouse layer is released.
pub const AUTO_LAYER_IDLE_MS: u32 = 350;
/// Normal-mode report interval: 16 ms, about 62 Hz, above the 7.5 ms BLE interval.
pub const NORMAL_REPORT_INTERVAL_MS: u32 = 16;

/// A mouse report to send.
#[derive(Clone, Copy, Debug, PartialEq, Eq, Structural)]
pub struct MouseMotion {
    pub buttons: u8,
    pub x: i8,
    pub y: i8,
    pub wheel: i8,
    pub pan: i8,
}

/// What the firmware has to do, in order, after a decision.
#[derive(Clone, Copy, Debug, PartialEq, Eq, Structural)]
pub enum Action {
    /// Activate a keymap layer.
    ActivateLayer(u8),
    /// Deactivate a keymap layer.
    DeactivateLayer(u8),
    /// Send a mouse report.
    SendMouse(MouseMotion),
    /// Tap (press, then release) a keyboard key `times` times.
    TapKey { keycode: u8, times: u32 },
}

/// A joystick axis of a motion event.
#[derive(Clone, Copy, Debug, PartialEq, Eq, Structural)]
pub enum Axis {
    X,
    Y,
    Other,
}

/// One axis reading of a joystick event.
#[derive(Clone, Copy, Debug, PartialEq, Eq, Structural)]
pub struct AxisValue {
    pub axis: Axis,
    pub value: i16,
}

/// An input event reaching the auto-mouse processor: joystick motion, or any
/// other event `E`, which the processor passes on.
pub enum InputEvent<E> {
    Joystick(Vec<AxisValue>),
    Other(E),
}

/// What the processor does with an input event: pass it on to the next
/// processor, or consume it, with the actions to perform.
pub enum ProcessResult<E> {
    Continue(InputEvent<E>),
    Stop(Vec<Action>),
}

/// The key codes the auto-mouse task reacts to.
#[derive(Clone, Copy, Debug, PartialEq, Eq, Structural)]
pub enum KeyCode {
    MouseBtn1,
    MouseBtn2,
    MouseBtn3,
    MouseBtn4,
    MouseBtn5,
    User10,
    User11,
    User12,
    Other,
}

/// A controller event, as far as the auto-mouse task reads it.
#[derive(Clone, Copy, Debug, PartialEq, Eq, Structural)]
pub enum ControllerEvent {
    /// The highest active layer changed.
    Layer(u8),
    /// A single key action was pressed or released.
    Key { pressed: bool, key: KeyCode },
    /// Anything else.
    Other,
}

/// The auto-mouse state shared by the input processor and the tick task.
#[derive(Clone, Copy, Debug, PartialEq, Eq, Structural)]
pub struct AutoMouseProcessor {
    /// Time of the last motion that used the auto layer, in ms.
    pub last_motion_t: u32,
    /// The highest active keymap layer.
    pub active_layer: u8,
    /// The auto-mouse layer currently activated, or `AUTO_LAYER_NONE`.
    pub active_auto_layer: u8,
    /// Held mouse buttons (bit 0 is button 1).
    pub mouse_buttons: u8,
    pub scroll_accum_x: i32,
    pub scroll_accum_y: i32,
    pub normal_accum_x: i32,
    pub normal_accum_y: i32,
    /// Time of the last normal-mode report, in ms.
    pub last_normal_report_ms: u32,
}

/// `v` clamped into `[lo, hi]`.
pub open spec fn clampi(v: int, lo: int, hi: int) -> int {
    if v < lo {
        lo
    } else if v > hi {
        hi
    } else {
        v
    }
}

/// Absolute value.
pub open spec fn magnitude(v: int) -> int {
    if v < 0 { -v } else { v }
}

/// Milliseconds from `since` to `now` on a wrapping 32-bit clock.
pub open spec fn elapsed_ms(now: u32, since: u32) -> int {
    if now >= since { now - since } else { now - since + 0x1_0000_0000 }
}

/// The trackball mode in effect: the scroll and sniper layers override the setting.
pub open spec fn effective_mode(active_layer: u8, setting_mode: u8) -> u8 {
    if active_layer == LAYER_SCROLL {
        MODE_SCROLL
    } else if active_layer == LAYER_SNIPER {
        MODE_SNIPER
    } else {
        setting_mode
    }
}

/// The value of the last reading of `axis` in `axes`, or 0 when there is none.
pub open spec fn axis_delta(axes: Seq<AxisValue>, axis: Axis) -> i16
    decreases axes.len(),
{
    if axes.len() == 0 {
        0
    } else if axes.last().axis == axis {
        axes.last().value
    } else {
        axis_delta(axes.drop_last(), axis)
    }
}

/// The motion of a joystick event after axis rotation and CPI scaling.
pub open spec fn scaled_motion(s: VialSettingsData, axes: Seq<AxisValue>) -> (int, int) {
    let r = rotated(axis_rotation(s), axis_delta(axes, Axis::X) as int, axis_delta(axes, Axis::Y) as int);
    (tdiv(r.0 * dpi_for_index(s.ball_dpi), 1000), tdiv(r.1 * dpi_for_index(s.ball_dpi), 1000))
}

/// The arrow taps for text-mode shifts: horizontal first, then vertical.
pub open spec fn arrow_taps(shift_x: int, shift_y: int) -> Seq<Action> {
    let horizontal = if shift_x > 0 {
        seq![Action::TapKey { keycode: HID_ARROW_RIGHT, times: shift_x as u32 }]
    } else if shift_x < 0 {
        seq![Action::TapKey { keycode: HID_ARROW_LEFT, times: (-shift_x) as u32 }]
    } else {
        Seq::<Action>::empty()
    };
    let vertical = if shift_y < 0 {
        seq![Action::TapKey { keycode: HID_ARROW_UP, times: (-shift_y) as u32 }]
    } else if shift_y > 0 {
        seq![Action::TapKey { keycode: HID_ARROW_DOWN, times: shift_y as u32 }]
    } else {
        Seq::<Action>::empty()
    };
    horizontal + vertical
}

/// The settings after a User10..User12 mode key event: a press selects sniper,
/// scroll or text mode; a release returns to normal mode unless modes are sticky.
pub open spec fn spec_handle_user_keycode(s: VialSettingsData, keycode_idx: u8, pressed: bool) -> VialSettingsData {
    if !pressed && 10 <= keycode_idx <= 12 && !flag_on(s.flags, FLAG_STICKY_MODE) {
        VialSettingsData { mode: 0, ..s }
    } else if !pressed {
        s
    } else if keycode_idx == 10 {
        VialSettingsData { mode: MODE_SNIPER, ..s }
    } else if keycode_idx == 11 {
        VialSettingsData { mode: MODE_SCROLL, ..s }
    } else if keycode_idx == 12 {
        VialSettingsData { mode: MODE_TEXT, ..s }
    } else {
        s
    }
}

/// The button bit of a mouse-button key.
pub open spec fn button_bit(key: KeyCode) -> Option<u8> {
    match key {
        KeyCode::MouseBtn1 => Some(1u8),
        KeyCode::MouseBtn2 => Some(2u8),
        KeyCode::MouseBtn3 => Some(4u8),
        KeyCode::MouseBtn4 => Some(8u8),
        KeyCode::MouseBtn5 => Some(16u8),
        _ => None,
    }
}

/// The User keycode number of a mode key.
pub open spec fn user_keycode_index(key: KeyCode) -> Option<u8> {
    match key {
        KeyCode::User10 => Some(10u8),
        KeyCode::User11 => Some(11u8),
        KeyCode::User12 => Some(12u8),
        _ => None,
    }
}

impl AutoMouseProcessor {
    /// No auto layer, released buttons, empty accumulators.
    pub open spec fn initial() -> Self {
        AutoMouseProcessor {
            last_motion_t: 0,
            active_layer: 0,
            active_auto_layer: AUTO_LAYER_NONE,
            mouse_buttons: 0,
            scroll_accum_x: 0,
            scroll_accum_y: 0,
            normal_accum_x: 0,
            normal_accum_y: 0,
            last_normal_report_ms: 0,
        }
    }

    /// Releasing the auto layer: deactivate it if one is active.
    pub open spec fn released(self) -> (Self, Seq<Action>) {
        (
            AutoMouseProcessor { active_auto_layer: AUTO_LAYER_NONE, ..self },
            if self.active_auto_layer != AUTO_LAYER_NONE {
                seq![Action::DeactivateLayer(self.active_auto_layer)]
            } else {
                Seq::<Action>::empty()
            },
        )
    }

    /// The auto layer after trackball motion in mode `mode` at time `now`: switched
    /// to the configured layer (and the motion time recorded) where the mode uses
    /// it, released otherwise.
    pub open spec fn after_motion_layer(self, s: VialSettingsData, mode: u8, now: u32) -> (Self, Seq<Action>) {
        if spec_auto_layer_enabled(s, mode) {
            let layer = at_most(s.auto_layer, 15);
            let previous = self.active_auto_layer;
            (
                AutoMouseProcessor { last_motion_t: now, active_auto_layer: layer, ..self },
                if previous != layer {
                    (if previous != AUTO_LAYER_NONE {
                        seq![Action::DeactivateLayer(previous)]
                    } else {
                        Seq::<Action>::empty()
                    }) + (if layer != 0 {
                        seq![Action::ActivateLayer(layer)]
                    } else {
                        Seq::<Action>::empty()
                    })
                } else {
                    Seq::<Action>::empty()
                },
            )
        } else {
            self.released()
        }
    }

    /// Scroll-mode arithmetic stays within `i32`.
    pub open spec fn scroll_fits(self, s: VialSettingsData, dx: int, dy: int) -> bool {
        let div = at_least(s.scroll_sens, 1) as int;
        let acc_y = self.scroll_accum_y + dy;
        let steps = tdiv(acc_y, div);
        let wheel_steps: int = if flag_on(s.flags, FLAG_INVERT_SCROLL) { steps } else { -steps };
        &&& fits_i32(self.scroll_accum_x + dx)
        &&& fits_i32(acc_y)
        &&& fits_i32(wheel_steps)
    }

    /// Scroll mode: accumulate the motion, and once a whole wheel or pan step
    /// (after truncation to a byte) is there, send it and keep the remainder.
    pub open spec fn scroll_step(self, s: VialSettingsData, dx: int, dy: int) -> (Self, Seq<Action>) {
        let div = at_least(s.scroll_sens, 1) as int;
        let acc_x = self.scroll_accum_x + dx;
        let acc_y = self.scroll_accum_y + dy;
        let steps = tdiv(acc_y, div);
        let wheel = (if flag_on(s.flags, FLAG_INVERT_SCROLL) { steps } else { -steps }) as i8;
        let pan = tdiv(acc_x, div) as i8;
        if wheel != 0 || pan != 0 {
            (
                AutoMouseProcessor {
                    scroll_accum_x: trem(acc_x, div) as i32,
                    scroll_accum_y: trem(acc_y, div) as i32,
                    ..self
                },
                seq![Action::SendMouse(MouseMotion { buttons: 0, x: 0, y: 0, wheel, pan })],
            )
        } else {
            (
                AutoMouseProcessor { scroll_accum_x: acc_x as i32, scroll_accum_y: acc_y as i32, ..self },
                Seq::<Action>::empty(),
            )
        }
    }

    /// Sniper mode: the motion divided by the sniper divisor, with the held buttons.
    pub open spec fn sniper_step(self, s: VialSettingsData, dx: int, dy: int) -> Seq<Action> {
        let div = at_least(s.sniper_sens, 1) as int;
        let slow_x = tdiv(dx, div);
        let slow_y = tdiv(dy, div);
        if slow_x != 0 || slow_y != 0 {
            seq![Action::SendMouse(MouseMotion {
                buttons: self.mouse_buttons,
                x: clampi(slow_x, -128, 127) as i8,
                y: clampi(slow_y, -128, 127) as i8,
                wheel: 0,
                pan: 0,
            })]
        } else {
            Seq::<Action>::empty()
        }
    }

    /// Text-mode arithmetic stays within `i32`.
    pub open spec fn text_fits(self, s: VialSettingsData, dx: int, dy: int) -> bool {
        let div = at_least(s.text_sens, 1) as int;
        let acc_x = self.normal_accum_x + dx;
        let acc_y = self.normal_accum_y + dy;
        &&& fits_i32(acc_x)
        &&& fits_i32(acc_y)
        &&& fits_i32(-tdiv(acc_x, div))
        &&& fits_i32(-tdiv(acc_y, div))
    }

    /// Text mode: accumulate, turn whole divisor steps into arrow taps along the
    /// dominant axis (both on a tie), and drop the other axis' accumulator.
    pub open spec fn text_step(self, s: VialSettingsData, dx: int, dy: int) -> (Self, Seq<Action>) {
        let div = at_least(s.text_sens, 1) as int;
        let acc_x = self.normal_accum_x + dx;
        let acc_y = self.normal_accum_y + dy;
        let sx = tdiv(acc_x, div);
        let sy = tdiv(acc_y, div);
        let ax: int = if sx != 0 || sy != 0 { trem(acc_x, div) } else { acc_x };
        let ay: int = if sx != 0 || sy != 0 { trem(acc_y, div) } else { acc_y };
        let x_wins = magnitude(sx) > magnitude(sy);
        let y_wins = magnitude(sy) > magnitude(sx);
        let shift_x: int = if y_wins { 0 } else { sx };
        let shift_y: int = if x_wins { 0 } else { sy };
        let new_x: int = if y_wins { 0 } else { ax };
        let new_y: int = if x_wins { 0 } else { ay };
        let shift_y: int = if flag_on(s.flags, FLAG_INVERT_TEXT) { -shift_y } else { shift_y };
        (
            AutoMouseProcessor { normal_accum_x: new_x as i32, normal_accum_y: new_y as i32, ..self },
            arrow_taps(shift_x, shift_y),
        )
    }

    /// Normal-mode arithmetic stays within `i32`.
    pub open spec fn normal_fits(self, dx: int, dy: int) -> bool {
        fits_i32(self.normal_accum_x + dx) && fits_i32(self.normal_accum_y + dy)
    }

    /// Normal mode: accumulate, and at most every report interval send the
    /// accumulated motion (clamped to a byte) with the held buttons.
    pub open spec fn normal_step(self, dx: int, dy: int, now: u32) -> (Self, Seq<Action>) {
        let acc_x = self.normal_accum_x + dx;
        let acc_y = self.normal_accum_y + dy;
        if elapsed_ms(now, self.last_normal_report_ms) >= NORMAL_REPORT_INTERVAL_MS && (acc_x != 0
            || acc_y != 0) {
            (
                AutoMouseProcessor {
                    normal_accum_x: 0,
                    normal_accum_y: 0,
                    last_normal_report_ms: now,
                    ..self
                },
                seq![Action::SendMouse(MouseMotion {
                    buttons: self.mouse_buttons,
                    x: clampi(acc_x, -128, 127) as i8,
                    y: clampi(acc_y, -128, 127) as i8,
                    wheel: 0,
                    pan: 0,
                })],
            )
        } else {
            (
                AutoMouseProcessor { normal_accum_x: acc_x as i32, normal_accum_y: acc_y as i32, ..self },
                Seq::<Action>::empty(),
            )
        }
    }

    /// The trackball mode that a joystick event is handled in.
    pub open spec fn motion_mode(self, s: VialSettingsData) -> u8 {
        effective_mode(self.active_layer, at_most(s.mode, 3))
    }

    /// Handling a joystick event does not overflow: the rotated deltas fit in
    /// `i16`, and the mode's accumulators and quotients fit in `i32`.
    pub open spec fn motion_defined(self, s: VialSettingsData, axes: Seq<AxisValue>) -> bool {
        let mode = self.motion_mode(s);
        let d = scaled_motion(s, axes);
        &&& axes_fit(s, axis_delta(axes, Axis::X), axis_delta(axes, Axis::Y))
        &&& if mode == MODE_SCROLL {
            self.scroll_fits(s, d.0, d.1)
        } else if mode == MODE_SNIPER {
            true
        } else if mode == MODE_TEXT {
            self.text_fits(s, d.0, d.1)
        } else {
            self.normal_fits(d.0, d.1)
        }
    }

    /// The state and actions after a joystick event at time `now`.
    pub open spec fn spec_process(self, s: VialSettingsData, axes: Seq<AxisValue>, now: u32) -> (Self, Seq<Action>) {
        let mode = self.motion_mode(s);
        let layered = self.after_motion_layer(s, mode, now);
        let st = layered.0;
        let d = scaled_motion(s, axes);
        let moved = if mode == MODE_SCROLL {
            st.scroll_step(s, d.0, d.1)
        } else if mode == MODE_SNIPER {
            (st, st.sniper_step(s, d.0, d.1))
        } else if mode == MODE_TEXT {
            st.text_step(s, d.0, d.1)
        } else {
            st.normal_step(d.0, d.1, now)
        };
        (moved.0, layered.1 + moved.1)
    }

    /// The state and actions after a timer tick at time `now`: once the auto layer
    /// has been idle for `AUTO_LAYER_IDLE_MS`, it is released and the motion
    /// accumulators are cleared.
    pub open spec fn after_tick(self, now: u32) -> (Self, Seq<Action>) {
        if self.active_auto_layer != AUTO_LAYER_NONE && elapsed_ms(now, self.last_motion_t)
            >= AUTO_LAYER_IDLE_MS {
            let r = self.released();
            (
                AutoMouseProcessor {
                    scroll_accum_x: 0,
                    scroll_accum_y: 0,
                    normal_accum_x: 0,
                    normal_accum_y: 0,
                    ..r.0
                },
                r.1,
            )
        } else {
            (self, Seq::<Action>::empty())
        }
    }

    /// The state and settings after a controller event: a layer change is recorded,
    /// a mouse-button key sets its button bit on press and clears it on release, and
    /// a mode key switches the trackball mode.
    pub open spec fn after_controller_event(self, s: VialSettingsData, event: ControllerEvent) -> (Self, VialSettingsData) {
        match event {
            ControllerEvent::Layer(layer) => (AutoMouseProcessor { active_layer: layer, ..self }, s),
            ControllerEvent::Key { pressed, key } => (
                match button_bit(key) {
                    Some(bit) => AutoMouseProcessor {
                        mouse_buttons: if pressed {
                            self.mouse_buttons | bit
                        } else {
                            self.mouse_buttons & !bit
                        },
                        ..self
                    },
                    None => self,
                },
                match user_keycode_index(key) {
                    Some(idx) => spec_handle_user_keycode(s, idx, pressed),
                    None => s,
                },
            ),
            ControllerEvent::Other => (self, s),
        }
    }
}


/// Handles the User keycodes for runtime trackball mode switching.
/// User0-User9 are reserved for BLE profile switching (handled natively by RMK);
/// User10-User12 select sniper, scroll and text mode.
pub fn handle_user_keycode(settings: &mut SettingsStore, keycode_idx: u8, pressed: bool)
    ensures
        final(settings)@ == spec_handle_user_keycode(old(settings)@, keycode_idx, pressed),
        old(settings)@.is_sanitized() ==> final(settings)@.is_sanitized(),
{
    if !pressed && 10 <= keycode_idx && keycode_idx <= 12 && !sticky_mode(settings) {
        set_mode(settings, 0);
        return;
    }
    if !pressed {
        return;
    }
    match keycode_idx {
        10 => set_mode(settings, MODE_SNIPER),
        11 => set_mode(settings, MODE_SCROLL),
        12 => set_mode(settings, MODE_TEXT),
        _ => {},
    }
}

/// The readings of the X and Y axes in a joystick event; the last reading of
/// an axis wins, and a missing axis reads 0.
pub fn joystick_deltas(axes: &[AxisValue]) -> (r: (i16, i16))
    ensures
        r == (axis_delta(axes@, Axis::X), axis_delta(axes@, Axis::Y)),
{
    let mut dx: i16 = 0;
    let mut dy: i16 = 0;
    let mut i: usize = 0;
    while i < axes.len()
        invariant
            i <= axes@.len(),
            dx == axis_delta(axes@.take(i as int), Axis::X),
            dy == axis_delta(axes@.take(i as int), Axis::Y),
        decreases axes@.len() - i,
    {
        let reading = axes[i];
        match reading.axis {
            Axis::X => dx = reading.value,
            Axis::Y => dy = reading.value,
            _ => {},
        }
        assert(axes@.take(i + 1).drop_last() == axes@.take(i as int));
        i += 1;
    }
    assert(axes@.take(axes@.len() as int) == axes@);
    (dx, dy)
}

fn flag_value_on(flags: u8, bit: u8) -> (r: bool)
    ensures
        r == flag_on(flags, bit),
{
    flags & bit != 0
}

/// `v` clamped to the `i8` range.
fn clamp_to_i8(v: i32) -> (r: i8)
    ensures
        r == clampi(v as int, -128, 127),
{
    if v < -128 {
        -128
    } else if v > 127 {
        127
    } else {
        v as i8
    }
}

impl AutoMouseProcessor {
    /// The starting state.
    pub fn new() -> (r: Self)
        ensures
            r == Self::initial(),
    {
        AutoMouseProcessor {
            last_motion_t: 0,
            active_layer: 0,
            active_auto_layer: AUTO_LAYER_NONE,
            mouse_buttons: 0,
            scroll_accum_x: 0,
            scroll_accum_y: 0,
            normal_accum_x: 0,
            normal_accum_y: 0,
            last_normal_report_ms: 0,
        }
    }

    fn deactivate_auto_layer(&mut self, actions: &mut Vec<Action>)
        ensures
            *final(self) == old(self).released().0,
            final(actions)@ == old(actions)@ + old(self).released().1,
    {
        let previous: u8 = self.active_auto_layer;
        self.active_auto_layer = AUTO_LAYER_NONE;
        if previous != AUTO_LAYER_NONE {
            actions.push(Action::DeactivateLayer(previous));
        }
    }

    fn sync_auto_layer_for_motion(
        &mut self,
        settings: &SettingsStore,
        mode: u8,
        now_ms: u32,
        actions: &mut Vec<Action>,
    )
        ensures
            *final(self) == old(self).after_motion_layer(settings@, mode, now_ms).0,
            final(actions)@ == old(actions)@ + old(self).after_motion_layer(settings@, mode, now_ms).1,
    {
        if auto_layer_enabled_for_mode(settings, mode) {
            let layer: u8 = auto_layer(settings);
            self.last_motion_t = now_ms;
            let previous: u8 = self.active_auto_layer;
            self.active_auto_layer = layer;
            if previous != layer {
                if previous != AUTO_LAYER_NONE {
                    actions.push(Action::DeactivateLayer(previous));
                }
                if layer != 0 {
                    actions.push(Action::ActivateLayer(layer));
                }
            }
        } else {
            self.deactivate_auto_layer(actions);
        }
    }

    /// Timer tick of the background task, at time `now_ms`.
    pub fn on_timer_tick(&mut self, now_ms: u32) -> (actions: Vec<Action>)
        ensures
            (*final(self), actions@) == old(self).after_tick(now_ms),
    {
        let mut actions: Vec<Action> = Vec::new();
        let active: u8 = self.active_auto_layer;
        if active != AUTO_LAYER_NONE {
            let elapsed: u32 = now_ms.wrapping_sub(self.last_motion_t);
            if elapsed >= AUTO_LAYER_IDLE_MS {
                self.deactivate_auto_layer(&mut actions);
                self.scroll_accum_x = 0;
                self.scroll_accum_y = 0;
                self.normal_accum_x = 0;
                self.normal_accum_y = 0;
            }
        }
        actions
    }

    /// Controller event of the background task: layer tracking, mouse-button
    /// state for drag support, and the mode keys.
    pub fn on_controller_event(&mut self, settings: &mut SettingsStore, event: ControllerEvent)
        ensures
            (*final(self), final(settings)@) == old(self).after_controller_event(old(settings)@, event),
            old(settings)@.is_sanitized() ==> final(settings)@.is_sanitized(),
    {
        match event {
            ControllerEvent::Layer(layer) => {
                self.active_layer = layer;
            },
            ControllerEvent::Key { pressed, key } => {
                let btn_bit: Option<u8> = match key {
                    KeyCode::MouseBtn1 => Some(1u8),
                    KeyCode::MouseBtn2 => Some(2u8),
                    KeyCode::MouseBtn3 => Some(4u8),
                    KeyCode::MouseBtn4 => Some(8u8),
                    KeyCode::MouseBtn5 => Some(16u8),
                    _ => None,
                };
                if let Some(bit) = btn_bit {
                    // Held-button state: a press sets the bit, a release clears it.
                    if pressed {
                        self.mouse_buttons = self.mouse_buttons | bit;
                    } else {
                        self.mouse_buttons = self.mouse_buttons & !bit;
                    }
                }
                let id: Option<u8> = match key {
                    KeyCode::User10 => Some(10u8),
                    KeyCode::User11 => Some(11u8),
                    KeyCode::User12 => Some(12u8),
                    _ => None,
                };
                if let Some(id) = id {
                    handle_user_keycode(settings, id, pressed);
                }
            },
            ControllerEvent::Other => {},
        }
    }

    fn scroll_motion(&mut self, settings: &SettingsStore, dx: i32, dy: i32, actions: &mut Vec<Action>)
        requires
            old(self).scroll_fits(settings@, dx as int, dy as int),
        ensures
            *final(self) == old(self).scroll_step(settings@, dx as int, dy as int).0,
            final(actions)@ == old(actions)@ + old(self).scroll_step(settings@, dx as int, dy as int).1,
    {
        let divisor: i32 = scroll_sens(settings);
        let acc_x: i32 = self.scroll_accum_x + dx;
        let acc_y: i32 = self.scroll_accum_y + dy;
        self.scroll_accum_x = acc_x;
        self.scroll_accum_y = acc_y;

        let wheel_direction: i32 = if invert_scroll(settings) { 1 } else { -1 };
        let wheel: i8 = (wheel_direction * (acc_y / divisor)) as i8;
        let pan: i8 = (acc_x / divisor) as i8;

        if wheel != 0 || pan != 0 {
            self.scroll_accum_x = acc_x % divisor;
            self.scroll_accum_y = acc_y % divisor;
            actions.push(Action::SendMouse(MouseMotion { buttons: 0, x: 0, y: 0, wheel, pan }));
        }
    }

    fn sniper_motion(&self, settings: &SettingsStore, dx: i32, dy: i32, actions: &mut Vec<Action>)
        ensures
            final(actions)@ == old(actions)@ + self.sniper_step(settings@, dx as int, dy as int),
    {
        let divisor: i32 = sniper_sens(settings) as i32;
        let slow_dx: i32 = dx / divisor;
        let slow_dy: i32 = dy / divisor;

        if slow_dx != 0 || slow_dy != 0 {
            actions.push(
                Action::SendMouse(
                    MouseMotion {
                        buttons: self.mouse_buttons,
                        x: clamp_to_i8(slow_dx),
                        y: clamp_to_i8(slow_dy),
                        wheel: 0,
                        pan: 0,
                    },
                ),
            );
        }
    }

    fn text_motion(&mut self, settings: &SettingsStore, dx: i32, dy: i32, actions: &mut Vec<Action>)
        requires
            old(self).text_fits(settings@, dx as int, dy as int),
        ensures
            *final(self) == old(self).text_step(settings@, dx as int, dy as int).0,
            final(actions)@ == old(actions)@ + old(self).text_step(settings@, dx as int, dy as int).1,
    {
        let divisor: i32 = text_sens(settings);
        let acc_x: i32 = self.normal_accum_x + dx;
        let acc_y: i32 = self.normal_accum_y + dy;
        self.normal_accum_x = acc_x;
        self.normal_accum_y = acc_y;
        let mut shift_x: i32 = acc_x / divisor;
        let mut shift_y: i32 = acc_y / divisor;

        if shift_x != 0 || shift_y != 0 {
            self.normal_accum_x = acc_x % divisor;
            self.normal_accum_y = acc_y % divisor;
        }

        let abs_x: i32 = if shift_x < 0 { -shift_x } else { shift_x };
        let abs_y: i32 = if shift_y < 0 { -shift_y } else { shift_y };
        if abs_x > abs_y {
            shift_y = 0;
            self.normal_accum_y = 0;
        } else if abs_y > abs_x {
            shift_x = 0;
            self.normal_accum_x = 0;
        }

        if invert_text(settings) {
            shift_y = -shift_y;
        }

        if shift_x > 0 {
            actions.push(Action::TapKey { keycode: HID_ARROW_RIGHT, times: shift_x as u32 });
        } else if shift_x < 0 {
            actions.push(Action::TapKey { keycode: HID_ARROW_LEFT, times: (-shift_x) as u32 });
        }
        if shift_y < 0 {
            actions.push(Action::TapKey { keycode: HID_ARROW_UP, times: (-shift_y) as u32 });
        } else if shift_y > 0 {
            actions.push(Action::TapKey { keycode: HID_ARROW_DOWN, times: shift_y as u32 });
        }
    }

    fn normal_motion(&mut self, dx: i32, dy: i32, now_ms: u32, actions: &mut Vec<Action>)
        requires
            old(self).normal_fits(dx as int, dy as int),
        ensures
            *final(self) == old(self).normal_step(dx as int, dy as int, now_ms).0,
            final(actions)@ == old(actions)@ + old(self).normal_step(dx as int, dy as int, now_ms).1,
    {
        let acc_x: i32 = self.normal_accum_x + dx;
        let acc_y: i32 = self.normal_accum_y + dy;
        self.normal_accum_x = acc_x;
        self.normal_accum_y = acc_y;

        let last: u32 = self.last_normal_report_ms;
        if now_ms.wrapping_sub(last) >= NORMAL_REPORT_INTERVAL_MS {
            if acc_x != 0 || acc_y != 0 {
                self.normal_accum_x = 0;
                self.normal_accum_y = 0;
                self.last_normal_report_ms = now_ms;
                actions.push(
                    Action::SendMouse(
                        MouseMotion {
                            buttons: self.mouse_buttons,
                            x: clamp_to_i8(acc_x),
                            y: clamp_to_i8(acc_y),
                            wheel: 0,
                            pan: 0,
                        },
                    ),
                );
            }
        }
    }

    /// Whether `process` may be called with this event: `true` exactly when the
    /// event's arithmetic stays in range (where it does not, the motion would overflow).
    pub fn motion_fits(&self, settings: &SettingsStore, axes: &[AxisValue]) -> (ok: bool)
        ensures
            ok == self.motion_defined(settings@, axes@),
    {
        let s: VialSettingsData = current(settings);
        let raw: (i16, i16) = joystick_deltas(axes);
        let x: i32 = raw.0 as i32;
        let y: i32 = raw.1 as i32;
        let turned: (i32, i32) = match s.ball_axis {
            1 => (y, -x),
            2 => (-x, -y),
            3 => (-y, x),
            _ => (x, y),
        };
        if turned.0 < -32768 || turned.0 > 32767 || turned.1 < -32768 || turned.1 > 32767 {
            return false;
        }
        let dpi: i64 = DPI_TABLE[s.ball_dpi as usize] as i64;
        proof {
            lemma_dpi_range(s.ball_dpi);
        }
        assert(-32768 * 3200 <= turned.0 * dpi <= 32767 * 3200) by (nonlinear_arith)
            requires
                -32768 <= turned.0 <= 32767,
                200 <= dpi <= 3200,
        ;
        assert(-32768 * 3200 <= turned.1 * dpi <= 32767 * 3200) by (nonlinear_arith)
            requires
                -32768 <= turned.1 <= 32767,
                200 <= dpi <= 3200,
        ;
        let dx: i64 = (turned.0 as i64) * dpi / 1000;
        let dy: i64 = (turned.1 as i64) * dpi / 1000;
        assert((dx as int, dy as int) == scaled_motion(settings@, axes@));

        let mode: u8 = if self.active_layer == LAYER_SCROLL {
            MODE_SCROLL
        } else if self.active_layer == LAYER_SNIPER {
            MODE_SNIPER
        } else {
            s.mode
        };
        let min: i64 = -0x8000_0000;
        let max: i64 = 0x7fff_ffff;
        if mode == MODE_SCROLL {
            let divisor: i64 = s.scroll_sens as i64;
            let acc_x: i64 = self.scroll_accum_x as i64 + dx;
            let acc_y: i64 = self.scroll_accum_y as i64 + dy;
            if acc_x < min || acc_x > max || acc_y < min || acc_y > max {
                return false;
            }
            let quotient: i64 = acc_y / divisor;
            let wheel: i64 = if flag_value_on(s.flags, FLAG_INVERT_SCROLL) { quotient } else { -quotient };
            min <= wheel && wheel <= max
        } else if mode == MODE_SNIPER {
            true
        } else if mode == MODE_TEXT {
            let divisor: i64 = s.text_sens as i64;
            let acc_x: i64 = self.normal_accum_x as i64 + dx;
            let acc_y: i64 = self.normal_accum_y as i64 + dy;
            if acc_x < min || acc_x > max || acc_y < min || acc_y > max {
                return false;
            }
            let shift_x: i64 = acc_x / divisor;
            let shift_y: i64 = acc_y / divisor;
            -shift_x <= max && -shift_y <= max
        } else {
            let acc_x: i64 = self.normal_accum_x as i64 + dx;
            let acc_y: i64 = self.normal_accum_y as i64 + dy;
            min <= acc_x && acc_x <= max && min <= acc_y && acc_y <= max
        }
    }

    /// Handles an input event at time `now_ms`: joystick motion is consumed (the
    /// result is `Stop` with the actions to perform); any other event is passed on
    /// as it came, with the state untouched.
    pub fn process<E>(&mut self, settings: &SettingsStore, event: InputEvent<E>, now_ms: u32) -> (r: ProcessResult<E>)
        requires
            event matches InputEvent::Joystick(axes) ==> old(self).motion_defined(settings@, axes@),
        ensures
            match event {
                InputEvent::Joystick(axes) => r matches ProcessResult::Stop(actions) && (*final(self), actions@)
                    == old(self).spec_process(settings@, axes@, now_ms),
                InputEvent::Other(e) => r == ProcessResult::<E>::Continue(InputEvent::Other(e)) && *final(self)
                    == *old(self),
            },
    {
        match event {
            InputEvent::Joystick(axes) => ProcessResult::Stop(self.process_motion(settings, axes.as_slice(), now_ms)),
            InputEvent::Other(e) => ProcessResult::Continue(InputEvent::Other(e)),
        }
    }

    /// Handles a joystick event at time `now_ms`: syncs the auto-mouse layer,
    /// then moves the pointer, scrolls or taps arrow keys as the mode says.
    pub fn process_motion(&mut self, settings: &SettingsStore, axes: &[AxisValue], now_ms: u32) -> (actions: Vec<Action>)
        requires
            old(self).motion_defined(settings@, axes@),
        ensures
            (*final(self), actions@) == old(self).spec_process(settings@, axes@, now_ms),
    {
        let mut actions: Vec<Action> = Vec::new();
        let active_layer: u8 = self.active_layer;
        let mut mode: u8 = crate::vial_settings::mode(settings);
        if active_layer == LAYER_SCROLL {
            mode = MODE_SCROLL;
        } else if active_layer == LAYER_SNIPER {
            mode = MODE_SNIPER;
        }
        self.sync_auto_layer_for_motion(settings, mode, now_ms, &mut actions);

        let raw: (i16, i16) = joystick_deltas(axes);
        let turned: (i16, i16) = transform_axes(settings, raw.0, raw.1);
        proof {
            lemma_scaling_fits(turned.0 as int, settings@.ball_dpi);
            lemma_scaling_fits(turned.1 as int, settings@.ball_dpi);
        }
        let dx: i32 = scale_by_ball_dpi(settings, turned.0 as i32);
        let dy: i32 = scale_by_ball_dpi(settings, turned.1 as i32);
        assert((dx as int, dy as int) == scaled_motion(settings@, axes@));

        match mode {
            MODE_SCROLL => self.scroll_motion(settings, dx, dy, &mut actions),
            MODE_SNIPER => self.sniper_motion(settings, dx, dy, &mut actions),
            MODE_TEXT => self.text_motion(settings, dx, dy, &mut actions),
            _ => self.normal_motion(dx, dy, now_ms, &mut actions),
        }
        actions
    }
}

/// Every CPI in the table lies between 200 and 3200.
pub proof fn lemma_dpi_range(index: u8)
    ensures
        200 <= dpi_for_index(index) <= 3200,
{
    let i = at_most(index, 15) as int;
    assert(DPI_TABLE@[i] == 200 * (i + 1));
}

/// Scaling an `i16` delta by any table CPI stays within `i32`.
pub proof fn lemma_scaling_fits(v: int, index: u8)
    requires
        i16::MIN <= v <= i16::MAX,
    ensures
        fits_i32(v * dpi_for_index(index)),
{
    lemma_dpi_range(index);
    let d = dpi_for_index(index);
    assert(-32768 * 3200 <= v * d <= 32767 * 3200) by (nonlinear_arith)
        requires
            -32768 <= v <= 32767,
            200 <= d <= 3200,
    ;
}

} // verus!
