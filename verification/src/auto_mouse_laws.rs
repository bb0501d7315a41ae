//! Laws of the auto-mouse state machine.
use vstd::prelude::*;
use crate::auto_mouse::{
    elapsed_ms, AUTO_LAYER_IDLE_MS, NORMAL_REPORT_INTERVAL_MS, button_bit, magnitude, spec_handle_user_keycode, Action, AutoMouseProcessor, AxisValue,
    ControllerEvent, KeyCode, AUTO_LAYER_NONE, LAYER_SCROLL, LAYER_SNIPER, MODE_SCROLL, MODE_SNIPER, MODE_TEXT,
};
use crate::vial_settings::{
    spec_auto_layer_enabled, at_least, at_most, flag_on, tdiv, trem, VialSettingsData, FLAG_STICKY_MODE,
};

verus! {

/// The keymap layers switched on by the auto-mouse feature when `active` is the
/// recorded auto layer (layer 0 is never switched on).
pub open spec fn auto_layers_on(active: u8) -> Set<u8> {
    if active == AUTO_LAYER_NONE || active == 0 {
        Set::empty()
    } else {
        set![active]
    }
}

/// The active layers after performing `actions` in order, starting from `layers`;
/// actions other than layer switches leave them alone.
pub open spec fn apply_layer_actions(layers: Set<u8>, actions: Seq<Action>) -> Set<u8>
    decreases actions.len(),
{
    if actions.len() == 0 {
        layers
    } else {
        let next = match actions[0] {
            Action::ActivateLayer(l) => layers.insert(l),
            Action::DeactivateLayer(l) => layers.remove(l),
            _ => layers,
        };
        apply_layer_actions(next, actions.drop_first())
    }
}

/// No action in `actions` switches a layer.
pub open spec fn no_layer_actions(actions: Seq<Action>) -> bool {
    forall|i: int| 0 <= i < actions.len() ==> !(actions[i] is ActivateLayer || actions[i] is DeactivateLayer)
}

proof fn lemma_apply_single(layers: Set<u8>, a: Action)
    ensures
        apply_layer_actions(layers, seq![a]) == match a {
            Action::ActivateLayer(l) => layers.insert(l),
            Action::DeactivateLayer(l) => layers.remove(l),
            _ => layers,
        },
{
    reveal_with_fuel(apply_layer_actions, 2);
    assert(seq![a].drop_first() =~= Seq::<Action>::empty());
}

proof fn lemma_apply_concat(layers: Set<u8>, a: Seq<Action>, b: Seq<Action>)
    ensures
        apply_layer_actions(layers, a + b) == apply_layer_actions(apply_layer_actions(layers, a), b),
    decreases a.len(),
{
    if a.len() == 0 {
        assert(a + b == b);
    } else {
        let next = match a[0] {
            Action::ActivateLayer(l) => layers.insert(l),
            Action::DeactivateLayer(l) => layers.remove(l),
            _ => layers,
        };
        assert((a + b)[0] == a[0]);
        assert((a + b).drop_first() == a.drop_first() + b);
        lemma_apply_concat(next, a.drop_first(), b);
    }
}

proof fn lemma_apply_layer_free(layers: Set<u8>, a: Seq<Action>)
    requires
        no_layer_actions(a),
    ensures
        apply_layer_actions(layers, a) == layers,
    decreases a.len(),
{
    if a.len() > 0 {
        assert(!(a[0] is ActivateLayer || a[0] is DeactivateLayer));
        assert(no_layer_actions(a.drop_first())) by {
            assert forall|i: int| 0 <= i < a.drop_first().len() implies !(a.drop_first()[i] is ActivateLayer
                || a.drop_first()[i] is DeactivateLayer) by {
                assert(a.drop_first()[i] == a[i + 1]);
            }
        }
        lemma_apply_layer_free(layers, a.drop_first());
    }
}

proof fn lemma_released_bookkeeping(st: AutoMouseProcessor)
    ensures
        apply_layer_actions(auto_layers_on(st.active_auto_layer), st.released().1)
            == auto_layers_on(st.released().0.active_auto_layer),
{
    if st.active_auto_layer != AUTO_LAYER_NONE {
        lemma_apply_single(auto_layers_on(st.active_auto_layer), Action::DeactivateLayer(st.active_auto_layer));
        assert(auto_layers_on(st.active_auto_layer).remove(st.active_auto_layer) =~= Set::<u8>::empty());
    }
}

proof fn lemma_motion_layer_bookkeeping(st: AutoMouseProcessor, s: VialSettingsData, mode: u8, now: u32)
    ensures
        apply_layer_actions(auto_layers_on(st.active_auto_layer), st.after_motion_layer(s, mode, now).1)
            == auto_layers_on(st.after_motion_layer(s, mode, now).0.active_auto_layer),
{
    let layer = at_most(s.auto_layer, 15);
    let previous = st.active_auto_layer;
    if crate::vial_settings::spec_auto_layer_enabled(s, mode) {
        if previous != layer {
            let first = if previous != AUTO_LAYER_NONE {
                seq![Action::DeactivateLayer(previous)]
            } else {
                Seq::<Action>::empty()
            };
            let second = if layer != 0 {
                seq![Action::ActivateLayer(layer)]
            } else {
                Seq::<Action>::empty()
            };
            lemma_apply_concat(auto_layers_on(previous), first, second);
            let mid = apply_layer_actions(auto_layers_on(previous), first);
            if previous != AUTO_LAYER_NONE {
                lemma_apply_single(auto_layers_on(previous), Action::DeactivateLayer(previous));
            }
            assert(mid =~= Set::<u8>::empty());
            if layer != 0 {
                lemma_apply_single(mid, Action::ActivateLayer(layer));
                assert(mid.insert(layer) =~= auto_layers_on(layer));
            }
        }
    } else {
        lemma_released_bookkeeping(st);
    }
}

proof fn lemma_mode_actions_layer_free(st: AutoMouseProcessor, s: VialSettingsData, axes: Seq<AxisValue>, now: u32)
    ensures
        ({
            let mode = st.motion_mode(s);
            let st1 = st.after_motion_layer(s, mode, now).0;
            let d = crate::auto_mouse::scaled_motion(s, axes);
            let acts = if mode == MODE_SCROLL {
                st1.scroll_step(s, d.0, d.1).1
            } else if mode == MODE_SNIPER {
                st1.sniper_step(s, d.0, d.1)
            } else if mode == MODE_TEXT {
                st1.text_step(s, d.0, d.1).1
            } else {
                st1.normal_step(d.0, d.1, now).1
            };
            no_layer_actions(acts)
        }),
{
}

/// The layer switches that a joystick event asks for keep the keymap in step with
/// the recorded auto layer: performed on the layers that the old auto layer had
/// switched on, they leave exactly the layers of the new auto layer on.
pub proof fn law_process_layer_bookkeeping(st: AutoMouseProcessor, s: VialSettingsData, axes: Seq<AxisValue>, now: u32)
    ensures
        apply_layer_actions(auto_layers_on(st.active_auto_layer), st.spec_process(s, axes, now).1)
            == auto_layers_on(st.spec_process(s, axes, now).0.active_auto_layer),
{
    let mode = st.motion_mode(s);
    let layered = st.after_motion_layer(s, mode, now);
    let st1 = layered.0;
    let d = crate::auto_mouse::scaled_motion(s, axes);
    let moved = if mode == MODE_SCROLL {
        st1.scroll_step(s, d.0, d.1)
    } else if mode == MODE_SNIPER {
        (st1, st1.sniper_step(s, d.0, d.1))
    } else if mode == MODE_TEXT {
        st1.text_step(s, d.0, d.1)
    } else {
        st1.normal_step(d.0, d.1, now)
    };
    lemma_motion_layer_bookkeeping(st, s, mode, now);
    lemma_mode_actions_layer_free(st, s, axes, now);
    lemma_apply_concat(auto_layers_on(st.active_auto_layer), layered.1, moved.1);
    lemma_apply_layer_free(auto_layers_on(st1.active_auto_layer), moved.1);
}

/// Likewise for a timer tick: the switches it asks for leave exactly the layers
/// of the new auto layer on.
pub proof fn law_tick_layer_bookkeeping(st: AutoMouseProcessor, now: u32)
    ensures
        apply_layer_actions(auto_layers_on(st.active_auto_layer), st.after_tick(now).1)
            == auto_layers_on(st.after_tick(now).0.active_auto_layer),
{
    lemma_released_bookkeeping(st);
}

/// Controller events never touch the auto layer.
pub proof fn law_controller_event_keeps_auto_layer(st: AutoMouseProcessor, s: VialSettingsData, event: ControllerEvent)
    ensures
        st.after_controller_event(s, event).0.active_auto_layer == st.active_auto_layer,
{
}

/// Mouse-button state follows the held buttons: a press of a button sets its bit,
/// a release clears it, whatever the bit was before, and the other buttons' bits
/// stay as they were.
pub proof fn law_button_held_state(st: AutoMouseProcessor, s: VialSettingsData, key: KeyCode, pressed: bool)
    requires
        button_bit(key) is Some,
    ensures
        ({
            let bit = button_bit(key)->0;
            let next = st.after_controller_event(s, ControllerEvent::Key { pressed, key }).0;
            &&& pressed ==> next.mouse_buttons & bit == bit
            &&& !pressed ==> next.mouse_buttons & bit == 0
            &&& next.mouse_buttons & !bit == st.mouse_buttons & !bit
        }),
{
    let bit = button_bit(key)->0;
    let m = st.mouse_buttons;
    assert((m | bit) & bit == bit) by (bit_vector);
    assert((m & !bit) & bit == 0) by (bit_vector);
    assert((m | bit) & !bit == m & !bit) by (bit_vector);
    assert((m & !bit) & !bit == m & !bit) by (bit_vector);
}

/// A press then a release of a button leaves it released, and leaves the other
/// buttons as they were.
pub proof fn law_button_press_release(st: AutoMouseProcessor, s: VialSettingsData, key: KeyCode)
    requires
        button_bit(key) is Some,
    ensures
        ({
            let bit = button_bit(key)->0;
            let pressed = st.after_controller_event(s, ControllerEvent::Key { pressed: true, key });
            let released = pressed.0.after_controller_event(pressed.1, ControllerEvent::Key { pressed: false, key });
            &&& pressed.0.mouse_buttons & bit == bit
            &&& released.0.mouse_buttons == st.mouse_buttons & !bit
        }),
{
    let bit = button_bit(key)->0;
    let m = st.mouse_buttons;
    assert((m | bit) & bit == bit) by (bit_vector);
    assert((m | bit) & !bit == m & !bit) by (bit_vector);
}

/// A mode key (User10, User11, User12) selects sniper, scroll or text mode while
/// held; on release the mode returns to normal, unless modes are sticky, in which
/// case it stays.
pub proof fn law_mode_key_hold(s: VialSettingsData, idx: u8)
    requires
        10 <= idx <= 12,
    ensures
        spec_handle_user_keycode(s, idx, true).mode == idx - 9,
        spec_handle_user_keycode(spec_handle_user_keycode(s, idx, true), idx, false).mode == if flag_on(s.flags, FLAG_STICKY_MODE) {
            idx - 9
        } else {
            0
        },
{
}

/// Rust's signed division and remainder by a positive divisor: quotient times
/// divisor plus remainder gives the dividend back, and the remainder is smaller
/// than the divisor in magnitude.
pub proof fn lemma_tdiv_trem(a: int, b: int)
    requires
        b > 0,
    ensures
        a == b * tdiv(a, b) + trem(a, b),
        magnitude(trem(a, b)) < b,
{
    if a >= 0 {
        assert(a == b * (a / b) + a % b) by (nonlinear_arith)
            requires
                b > 0,
        ;
        assert(0 <= a % b < b) by (nonlinear_arith)
            requires
                b > 0,
        ;
    } else {
        let n = -a;
        assert(n == b * (n / b) + n % b) by (nonlinear_arith)
            requires
                b > 0,
        ;
        assert(0 <= n % b < b) by (nonlinear_arith)
            requires
                b > 0,
        ;
        assert(b * (-(n / b)) == -(b * (n / b))) by (nonlinear_arith);
    }
}

/// Scroll mode loses no motion: when a report goes out, the motion accumulated so
/// far equals the whole divisor steps plus the remainder kept, which is smaller
/// than one step.
pub proof fn law_scroll_keeps_remainder(st: AutoMouseProcessor, s: VialSettingsData, dx: int, dy: int)
    requires
        st.scroll_fits(s, dx, dy),
        st.scroll_step(s, dx, dy).1.len() > 0,
    ensures
        ({
            let div = at_least(s.scroll_sens, 1) as int;
            let next = st.scroll_step(s, dx, dy).0;
            &&& st.scroll_accum_x + dx == div * tdiv(st.scroll_accum_x + dx, div) + next.scroll_accum_x
            &&& st.scroll_accum_y + dy == div * tdiv(st.scroll_accum_y + dy, div) + next.scroll_accum_y
            &&& magnitude(next.scroll_accum_x as int) < div
            &&& magnitude(next.scroll_accum_y as int) < div
        }),
{
    let div = at_least(s.scroll_sens, 1) as int;
    lemma_tdiv_trem(st.scroll_accum_x + dx, div);
    lemma_tdiv_trem(st.scroll_accum_y + dy, div);
}

/// Trackball motion switches the auto-mouse layer on: after a joystick event in a
/// mode that uses the auto layer, the configured layer is the active auto layer
/// and the motion time is recorded; in any other mode no auto layer is active.
pub proof fn law_motion_switches_on_auto_layer(st: AutoMouseProcessor, s: VialSettingsData, axes: Seq<AxisValue>, now: u32)
    ensures
        ({
            let next = st.spec_process(s, axes, now).0;
            if spec_auto_layer_enabled(s, st.motion_mode(s)) {
                next.active_auto_layer == at_most(s.auto_layer, 15) && next.last_motion_t == now
            } else {
                next.active_auto_layer == AUTO_LAYER_NONE
            }
        }),
{
}

/// The auto-mouse layer is released once the ball has been idle for
/// `AUTO_LAYER_IDLE_MS`, and the motion accumulators are cleared with it; before
/// that a tick changes nothing.
pub proof fn law_idle_release(st: AutoMouseProcessor, now: u32)
    ensures
        st.active_auto_layer != AUTO_LAYER_NONE && elapsed_ms(now, st.last_motion_t) >= AUTO_LAYER_IDLE_MS ==> {
            let next = st.after_tick(now).0;
            &&& next.active_auto_layer == AUTO_LAYER_NONE
            &&& next.scroll_accum_x == 0 && next.scroll_accum_y == 0
            &&& next.normal_accum_x == 0 && next.normal_accum_y == 0
            &&& st.after_tick(now).1 == seq![Action::DeactivateLayer(st.active_auto_layer)]
        },
        elapsed_ms(now, st.last_motion_t) < AUTO_LAYER_IDLE_MS ==> st.after_tick(now) == (st, Seq::<Action>::empty()),
{
}

/// Normal-mode reports are throttled: one goes out only when at least
/// `NORMAL_REPORT_INTERVAL_MS` have passed since the last one, and it restarts
/// the interval and empties the accumulators.
pub proof fn law_normal_reports_throttled(st: AutoMouseProcessor, dx: int, dy: int, now: u32)
    ensures
        st.normal_step(dx, dy, now).1.len() > 0 ==> {
            let next = st.normal_step(dx, dy, now).0;
            &&& elapsed_ms(now, st.last_normal_report_ms) >= NORMAL_REPORT_INTERVAL_MS
            &&& next.last_normal_report_ms == now
            &&& next.normal_accum_x == 0 && next.normal_accum_y == 0
        },
        elapsed_ms(now, st.last_normal_report_ms) < NORMAL_REPORT_INTERVAL_MS ==> st.normal_step(dx, dy, now).1.len() == 0,
{
}

/// In the scroll layer (5) a joystick event is handled exactly as in scroll mode
/// outside it: the same actions, the same new state apart from the layer itself,
/// and the same overflow condition, whatever mode the setting selects.
pub proof fn law_scroll_layer_is_scroll_mode(st: AutoMouseProcessor, s: VialSettingsData, axes: Seq<AxisValue>, now: u32)
    requires
        st.active_layer == LAYER_SCROLL,
    ensures
        ({
            let plain = AutoMouseProcessor { active_layer: 0, ..st };
            let scroll_mode = VialSettingsData { mode: MODE_SCROLL, ..s };
            let layered = st.spec_process(s, axes, now);
            let moded = plain.spec_process(scroll_mode, axes, now);
            &&& layered.1 == moded.1
            &&& layered.0 == AutoMouseProcessor { active_layer: LAYER_SCROLL, ..moded.0 }
            &&& st.motion_defined(s, axes) == plain.motion_defined(scroll_mode, axes)
        }),
{
}

/// In the sniper layer (6) a joystick event is handled exactly as in sniper mode
/// outside it: the same actions, the same new state apart from the layer itself,
/// and the same overflow condition, whatever mode the setting selects.
pub proof fn law_sniper_layer_is_sniper_mode(st: AutoMouseProcessor, s: VialSettingsData, axes: Seq<AxisValue>, now: u32)
    requires
        st.active_layer == LAYER_SNIPER,
    ensures
        ({
            let plain = AutoMouseProcessor { active_layer: 0, ..st };
            let sniper_mode = VialSettingsData { mode: MODE_SNIPER, ..s };
            let layered = st.spec_process(s, axes, now);
            let moded = plain.spec_process(sniper_mode, axes, now);
            &&& layered.1 == moded.1
            &&& layered.0 == AutoMouseProcessor { active_layer: LAYER_SNIPER, ..moded.0 }
            &&& st.motion_defined(s, axes) == plain.motion_defined(sniper_mode, axes)
        }),
{
}

/// Releasing the auto layer twice is the same as releasing it once: the second
/// release asks for no keymap change and leaves no auto layer active, so a layer
/// is never deactivated twice.
pub proof fn law_release_twice(st: AutoMouseProcessor)
    ensures
        st.released().0.released() == (st.released().0, Seq::<Action>::empty()),
        st.released().0.active_auto_layer == AUTO_LAYER_NONE,
{
}

} // verus!
