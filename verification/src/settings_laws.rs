//! Laws that relate the settings operations to one another.
use vstd::prelude::*;
use crate::vial_settings::{
    adjusted, dpi_for_index, flag_on, at_least, at_most, setting_value, with_setting, VialSettingsData, FLAG_ACCELERATION,
    FLAG_AUTO_LAYER_NORMAL, FLAG_AUTO_LAYER_SCROLL, FLAG_AUTO_LAYER_SNIPER, FLAG_AUTO_LAYER_TEXT,
    FLAG_INVERT_SCROLL, FLAG_INVERT_TEXT, FLAG_STICKY_MODE, QSID_ACCELERATION, QSID_AUTO_LAYER,
    QSID_AUTO_LAYER_NORMAL, QSID_AUTO_LAYER_SCROLL, QSID_AUTO_LAYER_SNIPER, QSID_AUTO_LAYER_TEXT,
    QSID_BALL_AXIS, QSID_BALL_DPI, QSID_INVERT_SCROLL, QSID_INVERT_TEXT, QSID_MODE,
    QSID_SCROLL_SENS, QSID_SNIPER_SENS, QSID_STICKY_MODE, QSID_TEXT_SENS, SETTING_KEYS,
};

verus! {

/// The byte that reading setting `qsid` gives back after it was written from `value`:
/// the value clamped into the setting's range, or `0`/`1` for a flag.
pub open spec fn read_back(qsid: u16, value: u8) -> u8 {
    if qsid == QSID_BALL_DPI || qsid == QSID_AUTO_LAYER {
        at_most(value, 15)
    } else if qsid == QSID_SNIPER_SENS || qsid == QSID_SCROLL_SENS || qsid == QSID_TEXT_SENS {
        at_least(value, 1)
    } else if qsid == QSID_BALL_AXIS || qsid == QSID_MODE {
        at_most(value, 3)
    } else if value != 0 {
        1
    } else {
        0
    }
}

/// The flag bit that setting `qsid` lives in, or 0 for a byte-valued setting.
pub open spec fn flag_of(qsid: u16) -> u8 {
    if qsid == QSID_INVERT_SCROLL {
        FLAG_INVERT_SCROLL
    } else if qsid == QSID_ACCELERATION {
        FLAG_ACCELERATION
    } else if qsid == QSID_STICKY_MODE {
        FLAG_STICKY_MODE
    } else if qsid == QSID_AUTO_LAYER_NORMAL {
        FLAG_AUTO_LAYER_NORMAL
    } else if qsid == QSID_AUTO_LAYER_SNIPER {
        FLAG_AUTO_LAYER_SNIPER
    } else if qsid == QSID_AUTO_LAYER_SCROLL {
        FLAG_AUTO_LAYER_SCROLL
    } else if qsid == QSID_AUTO_LAYER_TEXT {
        FLAG_AUTO_LAYER_TEXT
    } else if qsid == QSID_INVERT_TEXT {
        FLAG_INVERT_TEXT
    } else {
        0
    }
}

proof fn lemma_flag_set_reads(f: u8, b: u8)
    requires
        b != 0,
    ensures
        (f | b) & b != 0,
        (f & !b) & b == 0,
{
    assert((f | b) & b == b) by (bit_vector);
    assert((f & !b) & b == 0) by (bit_vector);
}

proof fn lemma_flag_other_bits(f: u8, b: u8, c: u8)
    requires
        b & c == 0,
    ensures
        (f | b) & c == f & c,
        (f & !b) & c == f & c,
{
    assert(b & c == 0 ==> (f | b) & c == f & c) by (bit_vector);
    assert(b & c == 0 ==> (f & !b) & c == f & c) by (bit_vector);
}

proof fn lemma_flags_distinct(q: u16, q2: u16)
    requires
        flag_of(q) != 0,
        flag_of(q2) != 0,
        q != q2,
    ensures
        flag_of(q) & flag_of(q2) == 0,
{
    let a = flag_of(q);
    let b = flag_of(q2);
    assert(a != b);
    assert((a == 1u8 || a == 2u8 || a == 4u8 || a == 8u8 || a == 16u8 || a == 32u8 || a == 64u8
        || a == 128u8) && (b == 1u8 || b == 2u8 || b == 4u8 || b == 8u8 || b == 16u8 || b == 32u8
        || b == 64u8 || b == 128u8) && a != b ==> a & b == 0) by (bit_vector);
}

/// Sanitizing is idempotent, and leaves exactly the in-range settings as they are:
/// reading the settings back after `apply` gives what `apply` returned.
pub proof fn law_sanitize_idempotent(s: VialSettingsData)
    ensures
        s.spec_sanitized().spec_sanitized() == s.spec_sanitized(),
        s.is_sanitized() <==> s.spec_sanitized() == s,
{
}

/// The factory settings are in range: after `reset`, `current` reads the defaults.
pub proof fn law_reset_reads_defaults()
    ensures
        VialSettingsData::spec_defaults().is_sanitized(),
        VialSettingsData::spec_defaults().spec_sanitized() == VialSettingsData::spec_defaults(),
{
}

/// An id is readable and writable exactly when it is one of `SETTING_KEYS`.
pub proof fn law_known_keys(s: VialSettingsData, qsid: u16, value: u8)
    ensures
        setting_value(s, qsid) is Some <==> SETTING_KEYS@.contains(qsid),
        with_setting(s, qsid, value) is Some <==> SETTING_KEYS@.contains(qsid),
{
    if setting_value(s, qsid) is Some {
        if qsid == QSID_BALL_DPI { assert(SETTING_KEYS@[0] == qsid); }
        else if qsid == QSID_SNIPER_SENS { assert(SETTING_KEYS@[1] == qsid); }
        else if qsid == QSID_SCROLL_SENS { assert(SETTING_KEYS@[2] == qsid); }
        else if qsid == QSID_TEXT_SENS { assert(SETTING_KEYS@[3] == qsid); }
        else if qsid == QSID_BALL_AXIS { assert(SETTING_KEYS@[4] == qsid); }
        else if qsid == QSID_MODE { assert(SETTING_KEYS@[5] == qsid); }
        else if qsid == QSID_INVERT_SCROLL { assert(SETTING_KEYS@[6] == qsid); }
        else if qsid == QSID_ACCELERATION { assert(SETTING_KEYS@[7] == qsid); }
        else if qsid == QSID_STICKY_MODE { assert(SETTING_KEYS@[8] == qsid); }
        else if qsid == QSID_AUTO_LAYER_NORMAL { assert(SETTING_KEYS@[9] == qsid); }
        else if qsid == QSID_AUTO_LAYER { assert(SETTING_KEYS@[10] == qsid); }
        else if qsid == QSID_AUTO_LAYER_SNIPER { assert(SETTING_KEYS@[11] == qsid); }
        else if qsid == QSID_AUTO_LAYER_SCROLL { assert(SETTING_KEYS@[12] == qsid); }
        else if qsid == QSID_AUTO_LAYER_TEXT { assert(SETTING_KEYS@[13] == qsid); }
        else { assert(SETTING_KEYS@[14] == qsid); }
    }
    if SETTING_KEYS@.contains(qsid) {
        let i = choose|i: int| 0 <= i < SETTING_KEYS@.len() && SETTING_KEYS@[i] == qsid;
        assert(0 <= i < 15);
    }
}

/// Reading a setting right after writing it (`set_setting` then `get_setting`)
/// gives back the written byte, clamped into the setting's range, or `0`/`1`
/// for a flag.
pub proof fn law_get_after_set(s: VialSettingsData, qsid: u16, value: u8)
    requires
        with_setting(s.spec_sanitized(), qsid, value) is Some,
    ensures
        setting_value(
            with_setting(s.spec_sanitized(), qsid, value)->0.spec_sanitized().spec_sanitized(),
            qsid,
        ) == Some(read_back(qsid, value)),
{
    let b = flag_of(qsid);
    let f = s.flags;
    if b != 0 {
        lemma_flag_set_reads(f, b);
    }
}

/// Writing one setting leaves what every other setting reads as it was.
pub proof fn law_set_keeps_other_settings(s: VialSettingsData, qsid: u16, other: u16, value: u8)
    requires
        with_setting(s.spec_sanitized(), qsid, value) is Some,
        other != qsid,
    ensures
        setting_value(
            with_setting(s.spec_sanitized(), qsid, value)->0.spec_sanitized().spec_sanitized(),
            other,
        ) == setting_value(s.spec_sanitized(), other),
{
    let b = flag_of(qsid);
    let c = flag_of(other);
    if b != 0 && c != 0 {
        lemma_flags_distinct(qsid, other);
        lemma_flag_other_bits(s.flags, b, c);
    }
}

/// The mode read after `set_mode(m)` is `m` capped at 3.
pub proof fn law_mode_after_set_mode(s: VialSettingsData, m: u8)
    ensures
        at_most((VialSettingsData { mode: at_most(m, 3), ..s }).mode, 3) == at_most(m, 3),
{
}

/// Each quantum-settings id reads and writes its own setting: the numeric ids the
/// byte of the same name, the flag ids the flag bit of the same name (on for any
/// non-zero byte), and writing touches nothing else.
pub proof fn law_ids_name_their_settings(s: VialSettingsData, v: u8)
    ensures
        setting_value(s, QSID_BALL_DPI) == Some(s.ball_dpi),
        setting_value(s, QSID_SNIPER_SENS) == Some(s.sniper_sens),
        setting_value(s, QSID_SCROLL_SENS) == Some(s.scroll_sens),
        setting_value(s, QSID_TEXT_SENS) == Some(s.text_sens),
        setting_value(s, QSID_BALL_AXIS) == Some(s.ball_axis),
        setting_value(s, QSID_MODE) == Some(s.mode),
        setting_value(s, QSID_AUTO_LAYER) == Some(s.auto_layer),
        setting_value(s, QSID_INVERT_SCROLL) == Some(if flag_on(s.flags, FLAG_INVERT_SCROLL) { 1u8 } else { 0u8 }),
        setting_value(s, QSID_INVERT_TEXT) == Some(if flag_on(s.flags, FLAG_INVERT_TEXT) { 1u8 } else { 0u8 }),
        setting_value(s, QSID_STICKY_MODE) == Some(if flag_on(s.flags, FLAG_STICKY_MODE) { 1u8 } else { 0u8 }),
        with_setting(s, QSID_BALL_DPI, v) == Some(VialSettingsData { ball_dpi: v, ..s }),
        with_setting(s, QSID_SNIPER_SENS, v) == Some(VialSettingsData { sniper_sens: v, ..s }),
        with_setting(s, QSID_SCROLL_SENS, v) == Some(VialSettingsData { scroll_sens: v, ..s }),
        with_setting(s, QSID_TEXT_SENS, v) == Some(VialSettingsData { text_sens: v, ..s }),
        with_setting(s, QSID_BALL_AXIS, v) == Some(VialSettingsData { ball_axis: v, ..s }),
        with_setting(s, QSID_MODE, v) == Some(VialSettingsData { mode: v, ..s }),
        with_setting(s, QSID_AUTO_LAYER, v) == Some(VialSettingsData { auto_layer: v, ..s }),
        flag_on(with_setting(s, QSID_INVERT_SCROLL, v)->0.flags, FLAG_INVERT_SCROLL) == (v != 0),
        flag_on(with_setting(s, QSID_ACCELERATION, v)->0.flags, FLAG_ACCELERATION) == (v != 0),
        flag_on(with_setting(s, QSID_STICKY_MODE, v)->0.flags, FLAG_STICKY_MODE) == (v != 0),
        flag_on(with_setting(s, QSID_AUTO_LAYER_NORMAL, v)->0.flags, FLAG_AUTO_LAYER_NORMAL) == (v != 0),
        flag_on(with_setting(s, QSID_AUTO_LAYER_SNIPER, v)->0.flags, FLAG_AUTO_LAYER_SNIPER) == (v != 0),
        flag_on(with_setting(s, QSID_AUTO_LAYER_SCROLL, v)->0.flags, FLAG_AUTO_LAYER_SCROLL) == (v != 0),
        flag_on(with_setting(s, QSID_AUTO_LAYER_TEXT, v)->0.flags, FLAG_AUTO_LAYER_TEXT) == (v != 0),
        flag_on(with_setting(s, QSID_INVERT_TEXT, v)->0.flags, FLAG_INVERT_TEXT) == (v != 0),
{
    let f = s.flags;
    assert((f | 1u8) & 1u8 != 0 && (f & !1u8) & 1u8 == 0) by (bit_vector);
    assert((f | 2u8) & 2u8 != 0 && (f & !2u8) & 2u8 == 0) by (bit_vector);
    assert((f | 4u8) & 4u8 != 0 && (f & !4u8) & 4u8 == 0) by (bit_vector);
    assert((f | 8u8) & 8u8 != 0 && (f & !8u8) & 8u8 == 0) by (bit_vector);
    assert((f | 16u8) & 16u8 != 0 && (f & !16u8) & 16u8 == 0) by (bit_vector);
    assert((f | 32u8) & 32u8 != 0 && (f & !32u8) & 32u8 == 0) by (bit_vector);
    assert((f | 64u8) & 64u8 != 0 && (f & !64u8) & 64u8 == 0) by (bit_vector);
    assert((f | 128u8) & 128u8 != 0 && (f & !128u8) & 128u8 == 0) by (bit_vector);
}

/// CPI index `i` (capped at 15) stands for `200 * (i + 1)` CPI.
pub proof fn law_dpi_table(index: u8)
    ensures
        dpi_for_index(index) == 200 * (at_most(index, 15) + 1),
{
    let i = at_most(index, 15) as int;
    assert(crate::vial_settings::DPI_TABLE@[i] == 200 * (i + 1));
}

/// Adjusting a sensitivity (which reads at least 1) moves it by `delta` when the
/// result stays within `[1, 255]`, and stops at the nearer bound otherwise.
pub proof fn law_adjust_saturates(value: u8, delta: i8)
    requires
        value >= 1,
    ensures
        1 <= value + delta <= 255 ==> adjusted(value, delta, 1, 255) == value + delta,
        value + delta < 1 ==> adjusted(value, delta, 1, 255) == 1,
        value + delta > 255 ==> adjusted(value, delta, 1, 255) == 255,
{
}

} // verus!
