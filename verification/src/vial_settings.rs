//! Runtime trackball settings exposed through Vial's keyboard-settings tab.
//!
//! The settings live in a [`SettingsStore`] that holds one raw byte per
//! setting.  Every write goes through sanitization, and every read clamps
//! again, so readers never see an out-of-range value.
use vstd::prelude::*;

verus! {

/// Vial quantum-settings id of the ball CPI index.
pub const QSID_BALL_DPI: u16 = 121;
/// Vial quantum-settings id of the sniper-mode divisor.
pub const QSID_SNIPER_SENS: u16 = 127;
/// Vial quantum-settings id of the scroll-mode divisor.
pub const QSID_SCROLL_SENS: u16 = 128;
/// Vial quantum-settings id of the text-mode divisor.
pub const QSID_TEXT_SENS: u16 = 129;
/// Vial quantum-settings id of the ball axis rotation.
pub const QSID_BALL_AXIS: u16 = 131;
/// Vial quantum-settings id of the trackball mode.
pub const QSID_MODE: u16 = 135;
/// Vial quantum-settings id of the scroll inversion flag.
pub const QSID_INVERT_SCROLL: u16 = 138;
/// Vial quantum-settings id of the acceleration flag.
pub const QSID_ACCELERATION: u16 = 139;
/// Vial quantum-settings id of the sticky-mode flag.
pub const QSID_STICKY_MODE: u16 = 141;
/// Vial quantum-settings id of the auto-layer-in-normal-mode flag.
pub const QSID_AUTO_LAYER_NORMAL: u16 = 142;
/// Vial quantum-settings id of the auto-mouse layer number.
pub const QSID_AUTO_LAYER: u16 = 143;
/// Vial quantum-settings id of the auto-layer-in-sniper-mode flag.
pub const QSID_AUTO_LAYER_SNIPER: u16 = 144;
/// Vial quantum-settings id of the auto-layer-in-scroll-mode flag.
pub const QSID_AUTO_LAYER_SCROLL: u16 = 145;
/// Vial quantum-settings id of the auto-layer-in-text-mode flag.
pub const QSID_AUTO_LAYER_TEXT: u16 = 146;
/// Vial quantum-settings id of the text-mode vertical inversion flag.
pub const QSID_INVERT_TEXT: u16 = 148;

/// Every quantum-settings id this module answers to.
pub const SETTING_KEYS: [u16; 15] = [
    QSID_BALL_DPI,
    QSID_SNIPER_SENS,
    QSID_SCROLL_SENS,
    QSID_TEXT_SENS,
    QSID_BALL_AXIS,
    QSID_MODE,
    QSID_INVERT_SCROLL,
    QSID_ACCELERATION,
    QSID_STICKY_MODE,
    QSID_AUTO_LAYER_NORMAL,
    QSID_AUTO_LAYER,
    QSID_AUTO_LAYER_SNIPER,
    QSID_AUTO_LAYER_SCROLL,
    QSID_AUTO_LAYER_TEXT,
    QSID_INVERT_TEXT,
];

/// Default CPI index: 1000 CPI in the Phenom table.
pub const DEFAULT_BALL_DPI: u8 = 4;
pub const DEFAULT_SNIPER_SENS: u8 = 4;
pub const DEFAULT_SCROLL_SENS: u8 = 5;
pub const DEFAULT_TEXT_SENS: u8 = 5;
pub const DEFAULT_BALL_AXIS: u8 = 0;
pub const DEFAULT_MODE: u8 = 0;
pub const DEFAULT_AUTO_LAYER: u8 = 4;
/// By default only the auto layer in normal mode is enabled.
pub const DEFAULT_FLAGS: u8 = FLAG_AUTO_LAYER_NORMAL;

/// Bit 0 of the flags byte.
pub const FLAG_INVERT_SCROLL: u8 = 0x01;
/// Bit 1 of the flags byte.
pub const FLAG_ACCELERATION: u8 = 0x02;
/// Bit 2 of the flags byte.
pub const FLAG_STICKY_MODE: u8 = 0x04;
/// Bit 3 of the flags byte.
pub const FLAG_AUTO_LAYER_NORMAL: u8 = 0x08;
/// Bit 4 of the flags byte.
pub const FLAG_AUTO_LAYER_SNIPER: u8 = 0x10;
/// Bit 5 of the flags byte.
pub const FLAG_AUTO_LAYER_SCROLL: u8 = 0x20;
/// Bit 6 of the flags byte.
pub const FLAG_AUTO_LAYER_TEXT: u8 = 0x40;
/// Bit 7 of the flags byte.
pub const FLAG_INVERT_TEXT: u8 = 0x80;

/// Sensor CPI for each ball CPI index.
pub const DPI_TABLE: [i32; 16] = [
    200, 400, 600, 800, 1000, 1200, 1400, 1600, 1800, 2000, 2200, 2400, 2600, 2800, 3000, 3200,
];

/// `v` capped from above at `hi`.
pub open spec fn at_most(v: u8, hi: u8) -> u8 {
    if v <= hi { v } else { hi }
}

/// `v` raised to at least `lo`.
pub open spec fn at_least(v: u8, lo: u8) -> u8 {
    if v >= lo { v } else { lo }
}

/// Rust's `/` on signed integers (rounds towards zero), for `b > 0`.
pub open spec fn tdiv(a: int, b: int) -> int {
    if a >= 0 { a / b } else { -((-a) / b) }
}

/// Rust's `%` on signed integers (takes the sign of `a`), for `b > 0`.
pub open spec fn trem(a: int, b: int) -> int {
    if a >= 0 { a % b } else { -((-a) % b) }
}

/// Whether the bit(s) of `bit` are set in `flags`.
pub open spec fn flag_on(flags: u8, bit: u8) -> bool {
    flags & bit != 0
}

/// `1` when the flag is on, `0` otherwise: the byte Vial sees for a flag.
pub open spec fn flag_byte(flags: u8, bit: u8) -> u8 {
    if flag_on(flags, bit) { 1 } else { 0 }
}

/// `flags` with `bit` set when `enabled`, cleared otherwise.
pub open spec fn with_flag(flags: u8, bit: u8, enabled: bool) -> u8 {
    if enabled { flags | bit } else { flags & !bit }
}

/// The CPI that the table gives for a (clamped) CPI index.
pub open spec fn dpi_for_index(index: u8) -> int {
    DPI_TABLE@[at_most(index, 15) as int] as int
}

/// `value` moved by `delta`, saturating at the byte range and kept within `[lo, hi]`.
pub open spec fn adjusted(value: u8, delta: i8, lo: u8, hi: u8) -> u8 {
    if delta < 0 {
        let v: int = if value + delta < 0 { 0 } else { value + delta };
        if v >= lo { v as u8 } else { lo }
    } else {
        let v: int = if value + delta > 255 { 255 } else { value + delta };
        if v <= hi { v as u8 } else { hi }
    }
}

/// The persisted trackball settings, one byte each.
#[derive(Clone, Copy, Debug, PartialEq, Eq, Structural)]
pub struct VialSettingsData {
    pub ball_dpi: u8,
    pub sniper_sens: u8,
    pub scroll_sens: u8,
    pub text_sens: u8,
    pub ball_axis: u8,
    pub mode: u8,
    pub flags: u8,
    pub auto_layer: u8,
}

impl VialSettingsData {
    /// The factory settings.
    pub open spec fn spec_defaults() -> Self {
        VialSettingsData {
            ball_dpi: DEFAULT_BALL_DPI,
            sniper_sens: DEFAULT_SNIPER_SENS,
            scroll_sens: DEFAULT_SCROLL_SENS,
            text_sens: DEFAULT_TEXT_SENS,
            ball_axis: DEFAULT_BALL_AXIS,
            mode: DEFAULT_MODE,
            flags: DEFAULT_FLAGS,
            auto_layer: DEFAULT_AUTO_LAYER,
        }
    }

    /// Every field within its range: CPI index and auto layer at most 15,
    /// axis rotation and mode at most 3, the three divisors at least 1.
    pub open spec fn is_sanitized(self) -> bool {
        &&& self.ball_dpi <= 15
        &&& self.sniper_sens >= 1
        &&& self.scroll_sens >= 1
        &&& self.text_sens >= 1
        &&& self.ball_axis <= 3
        &&& self.mode <= 3
        &&& self.auto_layer <= 15
    }

    /// Each field clamped into its range; the flags byte is kept as it is.
    pub open spec fn spec_sanitized(self) -> Self {
        VialSettingsData {
            ball_dpi: at_most(self.ball_dpi, 15),
            sniper_sens: at_least(self.sniper_sens, 1),
            scroll_sens: at_least(self.scroll_sens, 1),
            text_sens: at_least(self.text_sens, 1),
            ball_axis: at_most(self.ball_axis, 3),
            mode: at_most(self.mode, 3),
            flags: self.flags,
            auto_layer: at_most(self.auto_layer, 15),
        }
    }

    pub fn defaults() -> (r: Self)
        ensures
            r == Self::spec_defaults(),
            r.is_sanitized(),
    {
        VialSettingsData {
            ball_dpi: DEFAULT_BALL_DPI,
            sniper_sens: DEFAULT_SNIPER_SENS,
            scroll_sens: DEFAULT_SCROLL_SENS,
            text_sens: DEFAULT_TEXT_SENS,
            ball_axis: DEFAULT_BALL_AXIS,
            mode: DEFAULT_MODE,
            flags: DEFAULT_FLAGS,
            auto_layer: DEFAULT_AUTO_LAYER,
        }
    }

    /// Clamps every field into its range (`clamp(1, 255)` on a byte is `max(1)`).
    pub fn sanitized(self) -> (r: Self)
        ensures
            r == self.spec_sanitized(),
            r.is_sanitized(),
    {
        let mut s = self;
        s.ball_dpi = s.ball_dpi.min(15);
        s.sniper_sens = s.sniper_sens.max(1);
        s.scroll_sens = s.scroll_sens.max(1);
        s.text_sens = s.text_sens.max(1);
        s.ball_axis = s.ball_axis.min(3);
        s.mode = s.mode.min(3);
        s.auto_layer = s.auto_layer.min(15);
        s
    }
}

/// The live settings: one raw byte per setting, as last written.
pub struct SettingsStore {
    stored: VialSettingsData,
}

impl View for SettingsStore {
    type V = VialSettingsData;

    closed spec fn view(&self) -> VialSettingsData {
        self.stored
    }
}

impl SettingsStore {
    /// A store holding the factory settings.
    pub fn new() -> (r: Self)
        ensures
            r@ == VialSettingsData::spec_defaults(),
            r@.is_sanitized(),
    {
        SettingsStore { stored: VialSettingsData::defaults() }
    }
}

/// The settings as they are read back: the stored bytes, sanitized.
pub fn current(store: &SettingsStore) -> (r: VialSettingsData)
    ensures
        r == store@.spec_sanitized(),
        r.is_sanitized(),
{
    store.stored.sanitized()
}

/// Sanitizes `settings`, stores them, and returns what was stored.
pub fn apply(store: &mut SettingsStore, settings: VialSettingsData) -> (r: VialSettingsData)
    ensures
        r == settings.spec_sanitized(),
        final(store)@ == r,
        final(store)@.is_sanitized(),
{
    let settings = settings.sanitized();
    store.stored = settings;
    settings
}

/// Restores and returns the factory settings.
pub fn reset(store: &mut SettingsStore) -> (r: VialSettingsData)
    ensures
        r == VialSettingsData::spec_defaults(),
        final(store)@ == r,
        final(store)@.is_sanitized(),
{
    apply(store, VialSettingsData::defaults())
}


/// Axis deltas turned by `rotation` quarter turns (0 leaves them as they are).
pub open spec fn rotated(rotation: u8, dx: int, dy: int) -> (int, int) {
    if rotation == 1 {
        (dy, -dx)
    } else if rotation == 2 {
        (-dx, -dy)
    } else if rotation == 3 {
        (-dy, dx)
    } else {
        (dx, dy)
    }
}

pub open spec fn fits_i16(v: int) -> bool {
    i16::MIN <= v <= i16::MAX
}

pub open spec fn fits_i32(v: int) -> bool {
    i32::MIN <= v <= i32::MAX
}

/// The rotation that the stored axis setting selects.
pub open spec fn axis_rotation(s: VialSettingsData) -> u8 {
    at_most(s.ball_axis, 3)
}

/// Rotating the deltas does not overflow `i16` (it does when a negated delta is `i16::MIN`).
pub open spec fn axes_fit(s: VialSettingsData, dx: i16, dy: i16) -> bool {
    let r = rotated(axis_rotation(s), dx as int, dy as int);
    fits_i16(r.0) && fits_i16(r.1)
}

/// Whether the auto-mouse layer is used in trackball mode `mode`: never when the
/// auto layer is 0, always in normal mode, otherwise as the mode's flag says.
pub open spec fn spec_auto_layer_enabled(s: VialSettingsData, mode: u8) -> bool {
    let m = at_most(mode, 3);
    &&& at_most(s.auto_layer, 15) != 0
    &&& if m == 1 {
        flag_on(s.flags, FLAG_AUTO_LAYER_SNIPER)
    } else if m == 2 {
        flag_on(s.flags, FLAG_AUTO_LAYER_SCROLL)
    } else if m == 3 {
        flag_on(s.flags, FLAG_AUTO_LAYER_TEXT)
    } else {
        true
    }
}

/// The byte Vial reads for setting `qsid`, or `None` for an unknown id.
pub open spec fn setting_value(s: VialSettingsData, qsid: u16) -> Option<u8> {
    if qsid == QSID_BALL_DPI {
        Some(s.ball_dpi)
    } else if qsid == QSID_SNIPER_SENS {
        Some(s.sniper_sens)
    } else if qsid == QSID_SCROLL_SENS {
        Some(s.scroll_sens)
    } else if qsid == QSID_TEXT_SENS {
        Some(s.text_sens)
    } else if qsid == QSID_BALL_AXIS {
        Some(s.ball_axis)
    } else if qsid == QSID_MODE {
        Some(s.mode)
    } else if qsid == QSID_INVERT_SCROLL {
        Some(flag_byte(s.flags, FLAG_INVERT_SCROLL))
    } else if qsid == QSID_ACCELERATION {
        Some(flag_byte(s.flags, FLAG_ACCELERATION))
    } else if qsid == QSID_STICKY_MODE {
        Some(flag_byte(s.flags, FLAG_STICKY_MODE))
    } else if qsid == QSID_AUTO_LAYER_NORMAL {
        Some(flag_byte(s.flags, FLAG_AUTO_LAYER_NORMAL))
    } else if qsid == QSID_AUTO_LAYER {
        Some(s.auto_layer)
    } else if qsid == QSID_AUTO_LAYER_SNIPER {
        Some(flag_byte(s.flags, FLAG_AUTO_LAYER_SNIPER))
    } else if qsid == QSID_AUTO_LAYER_SCROLL {
        Some(flag_byte(s.flags, FLAG_AUTO_LAYER_SCROLL))
    } else if qsid == QSID_AUTO_LAYER_TEXT {
        Some(flag_byte(s.flags, FLAG_AUTO_LAYER_TEXT))
    } else if qsid == QSID_INVERT_TEXT {
        Some(flag_byte(s.flags, FLAG_INVERT_TEXT))
    } else {
        None
    }
}

/// `s` with setting `qsid` written from the byte `value` (a flag is on for any
/// non-zero byte), or `None` for an unknown id.  Not yet sanitized.
pub open spec fn with_setting(s: VialSettingsData, qsid: u16, value: u8) -> Option<VialSettingsData> {
    let on = value != 0;
    if qsid == QSID_BALL_DPI {
        Some(VialSettingsData { ball_dpi: value, ..s })
    } else if qsid == QSID_SNIPER_SENS {
        Some(VialSettingsData { sniper_sens: value, ..s })
    } else if qsid == QSID_SCROLL_SENS {
        Some(VialSettingsData { scroll_sens: value, ..s })
    } else if qsid == QSID_TEXT_SENS {
        Some(VialSettingsData { text_sens: value, ..s })
    } else if qsid == QSID_BALL_AXIS {
        Some(VialSettingsData { ball_axis: value, ..s })
    } else if qsid == QSID_MODE {
        Some(VialSettingsData { mode: value, ..s })
    } else if qsid == QSID_INVERT_SCROLL {
        Some(VialSettingsData { flags: with_flag(s.flags, FLAG_INVERT_SCROLL, on), ..s })
    } else if qsid == QSID_ACCELERATION {
        Some(VialSettingsData { flags: with_flag(s.flags, FLAG_ACCELERATION, on), ..s })
    } else if qsid == QSID_STICKY_MODE {
        Some(VialSettingsData { flags: with_flag(s.flags, FLAG_STICKY_MODE, on), ..s })
    } else if qsid == QSID_AUTO_LAYER_NORMAL {
        Some(VialSettingsData { flags: with_flag(s.flags, FLAG_AUTO_LAYER_NORMAL, on), ..s })
    } else if qsid == QSID_AUTO_LAYER {
        Some(VialSettingsData { auto_layer: value, ..s })
    } else if qsid == QSID_AUTO_LAYER_SNIPER {
        Some(VialSettingsData { flags: with_flag(s.flags, FLAG_AUTO_LAYER_SNIPER, on), ..s })
    } else if qsid == QSID_AUTO_LAYER_SCROLL {
        Some(VialSettingsData { flags: with_flag(s.flags, FLAG_AUTO_LAYER_SCROLL, on), ..s })
    } else if qsid == QSID_AUTO_LAYER_TEXT {
        Some(VialSettingsData { flags: with_flag(s.flags, FLAG_AUTO_LAYER_TEXT, on), ..s })
    } else if qsid == QSID_INVERT_TEXT {
        Some(VialSettingsData { flags: with_flag(s.flags, FLAG_INVERT_TEXT, on), ..s })
    } else {
        None
    }
}

/// Turns the trackball deltas by the configured axis rotation.
pub fn transform_axes(store: &SettingsStore, dx: i16, dy: i16) -> (r: (i16, i16))
    requires
        axes_fit(store@, dx, dy),
    ensures
        (r.0 as int, r.1 as int) == rotated(axis_rotation(store@), dx as int, dy as int),
{
    match store.stored.ball_axis.min(3) {
        1 => (dy, -dx),
        2 => (-dx, -dy),
        3 => (-dy, dx),
        _ => (dx, dy),
    }
}

/// Scales a motion value by the configured CPI relative to 1000 CPI.
pub fn scale_by_ball_dpi(store: &SettingsStore, value: i32) -> (r: i32)
    requires
        fits_i32(value * dpi_for_index(store@.ball_dpi)),
    ensures
        r == tdiv(value * dpi_for_index(store@.ball_dpi), 1000),
{
    let dpi: i32 = DPI_TABLE[store.stored.ball_dpi.min(15) as usize];
    value * dpi / 1000
}

/// The trackball mode (0 normal, 1 sniper, 2 scroll, 3 text).
pub fn mode(store: &SettingsStore) -> (r: u8)
    ensures
        r == at_most(store@.mode, 3),
{
    store.stored.mode.min(3)
}

/// Stores the trackball mode, capped at 3.
pub fn set_mode(store: &mut SettingsStore, mode: u8)
    ensures
        final(store)@ == (VialSettingsData { mode: at_most(mode, 3), ..old(store)@ }),
        old(store)@.is_sanitized() ==> final(store)@.is_sanitized(),
{
    store.stored.mode = mode.min(3);
}

/// Whether a mode key keeps its mode after release.
pub fn sticky_mode(store: &SettingsStore) -> (r: bool)
    ensures
        r == flag_on(store@.flags, FLAG_STICKY_MODE),
{
    store.stored.flags & FLAG_STICKY_MODE != 0
}

/// The sniper-mode divisor, at least 1.
pub fn sniper_sens(store: &SettingsStore) -> (r: i16)
    ensures
        r == at_least(store@.sniper_sens, 1),
{
    store.stored.sniper_sens.max(1) as i16
}

/// The scroll-mode divisor, at least 1.
pub fn scroll_sens(store: &SettingsStore) -> (r: i32)
    ensures
        r == at_least(store@.scroll_sens, 1),
{
    store.stored.scroll_sens.max(1) as i32
}

/// The text-mode divisor, at least 1.
pub fn text_sens(store: &SettingsStore) -> (r: i32)
    ensures
        r == at_least(store@.text_sens, 1),
{
    store.stored.text_sens.max(1) as i32
}

pub fn invert_scroll(store: &SettingsStore) -> (r: bool)
    ensures
        r == flag_on(store@.flags, FLAG_INVERT_SCROLL),
{
    store.stored.flags & FLAG_INVERT_SCROLL != 0
}

pub fn invert_text(store: &SettingsStore) -> (r: bool)
    ensures
        r == flag_on(store@.flags, FLAG_INVERT_TEXT),
{
    store.stored.flags & FLAG_INVERT_TEXT != 0
}

/// The auto-mouse layer number, at most 15 (0 disables the auto layer).
pub fn auto_layer(store: &SettingsStore) -> (r: u8)
    ensures
        r == at_most(store@.auto_layer, 15),
{
    store.stored.auto_layer.min(15)
}

/// Whether motion in trackball mode `mode` switches on the auto-mouse layer.
pub fn auto_layer_enabled_for_mode(store: &SettingsStore, mode: u8) -> (r: bool)
    ensures
        r == spec_auto_layer_enabled(store@, mode),
{
    if auto_layer(store) == 0 {
        return false;
    }
    let flags: u8 = store.stored.flags;
    match mode.min(3) {
        1 => flags & FLAG_AUTO_LAYER_SNIPER != 0,
        2 => flags & FLAG_AUTO_LAYER_SCROLL != 0,
        3 => flags & FLAG_AUTO_LAYER_TEXT != 0,
        _ => true,
    }
}

fn flag_value(flags: u8, bit: u8) -> (r: u8)
    ensures
        r == flag_byte(flags, bit),
{
    if flags & bit != 0 {
        1
    } else {
        0
    }
}

/// Writes the byte of setting `qsid` into `out[0]` and returns `Some(1)`, the
/// number of bytes written; `None`, with `out` untouched, when `out` is empty or
/// the id is unknown.
pub fn get_setting(store: &SettingsStore, qsid: u16, out: &mut [u8]) -> (r: Option<usize>)
    ensures
        old(out)@.len() == 0 ==> r is None && final(out)@ == old(out)@,
        old(out)@.len() > 0 ==> match setting_value(store@.spec_sanitized(), qsid) {
            Some(v) => r == Some(1usize) && final(out)@ == old(out)@.update(0, v),
            None => r is None && final(out)@ == old(out)@,
        },
{
    if out.len() == 0 {
        return None;
    }
    let settings = current(store);
    let value: u8 = match qsid {
        QSID_BALL_DPI => settings.ball_dpi,
        QSID_SNIPER_SENS => settings.sniper_sens,
        QSID_SCROLL_SENS => settings.scroll_sens,
        QSID_TEXT_SENS => settings.text_sens,
        QSID_BALL_AXIS => settings.ball_axis,
        QSID_MODE => settings.mode,
        QSID_INVERT_SCROLL => flag_value(settings.flags, FLAG_INVERT_SCROLL),
        QSID_ACCELERATION => flag_value(settings.flags, FLAG_ACCELERATION),
        QSID_STICKY_MODE => flag_value(settings.flags, FLAG_STICKY_MODE),
        QSID_AUTO_LAYER_NORMAL => flag_value(settings.flags, FLAG_AUTO_LAYER_NORMAL),
        QSID_AUTO_LAYER => settings.auto_layer,
        QSID_AUTO_LAYER_SNIPER => flag_value(settings.flags, FLAG_AUTO_LAYER_SNIPER),
        QSID_AUTO_LAYER_SCROLL => flag_value(settings.flags, FLAG_AUTO_LAYER_SCROLL),
        QSID_AUTO_LAYER_TEXT => flag_value(settings.flags, FLAG_AUTO_LAYER_TEXT),
        QSID_INVERT_TEXT => flag_value(settings.flags, FLAG_INVERT_TEXT),
        _ => return None,
    };
    out[0] = value;
    Some(1)
}


/// Writes setting `qsid` from `input[0]`, stores the sanitized settings and
/// returns them; `None`, with the store untouched, when `input` is empty or the
/// id is unknown.
pub fn set_setting(store: &mut SettingsStore, qsid: u16, input: &[u8]) -> (r: Option<VialSettingsData>)
    ensures
        input@.len() == 0 ==> r is None && final(store)@ == old(store)@,
        input@.len() > 0 ==> match with_setting(old(store)@.spec_sanitized(), qsid, input@[0]) {
            Some(n) => r == Some(n.spec_sanitized()) && final(store)@ == n.spec_sanitized(),
            None => r is None && final(store)@ == old(store)@,
        },
        r is Some ==> final(store)@.is_sanitized(),
{
    if input.len() == 0 {
        return None;
    }
    let value: u8 = input[0];
    let mut settings = current(store);

    match qsid {
        QSID_BALL_DPI => settings.ball_dpi = value,
        QSID_SNIPER_SENS => settings.sniper_sens = value,
        QSID_SCROLL_SENS => settings.scroll_sens = value,
        QSID_TEXT_SENS => settings.text_sens = value,
        QSID_BALL_AXIS => settings.ball_axis = value,
        QSID_MODE => settings.mode = value,
        QSID_INVERT_SCROLL => set_flag(&mut settings.flags, FLAG_INVERT_SCROLL, value != 0),
        QSID_ACCELERATION => set_flag(&mut settings.flags, FLAG_ACCELERATION, value != 0),
        QSID_STICKY_MODE => set_flag(&mut settings.flags, FLAG_STICKY_MODE, value != 0),
        QSID_AUTO_LAYER_NORMAL => set_flag(&mut settings.flags, FLAG_AUTO_LAYER_NORMAL, value != 0),
        QSID_AUTO_LAYER => settings.auto_layer = value,
        QSID_AUTO_LAYER_SNIPER => set_flag(&mut settings.flags, FLAG_AUTO_LAYER_SNIPER, value != 0),
        QSID_AUTO_LAYER_SCROLL => set_flag(&mut settings.flags, FLAG_AUTO_LAYER_SCROLL, value != 0),
        QSID_AUTO_LAYER_TEXT => set_flag(&mut settings.flags, FLAG_AUTO_LAYER_TEXT, value != 0),
        QSID_INVERT_TEXT => set_flag(&mut settings.flags, FLAG_INVERT_TEXT, value != 0),
        _ => return None,
    }

    Some(apply(store, settings))
}

/// Moves the scroll divisor by `delta`, within `[1, 255]`.
pub fn adjust_scroll_sens(store: &mut SettingsStore, delta: i8)
    ensures
        final(store)@ == (VialSettingsData {
            scroll_sens: adjusted(old(store)@.spec_sanitized().scroll_sens, delta, 1, 255),
            ..old(store)@.spec_sanitized()
        }),
        final(store)@.is_sanitized(),
{
    let mut settings = current(store);
    settings.scroll_sens = adjust(settings.scroll_sens, delta, 1, 255);
    apply(store, settings);
}

/// Moves the sniper divisor by `delta`, within `[1, 255]`.
pub fn adjust_sniper_sens(store: &mut SettingsStore, delta: i8)
    ensures
        final(store)@ == (VialSettingsData {
            sniper_sens: adjusted(old(store)@.spec_sanitized().sniper_sens, delta, 1, 255),
            ..old(store)@.spec_sanitized()
        }),
        final(store)@.is_sanitized(),
{
    let mut settings = current(store);
    settings.sniper_sens = adjust(settings.sniper_sens, delta, 1, 255);
    apply(store, settings);
}

fn set_flag(flags: &mut u8, bit: u8, enabled: bool)
    ensures
        *final(flags) == with_flag(*old(flags), bit, enabled),
{
    if enabled {
        *flags |= bit;
    } else {
        *flags &= !bit;
    }
}

fn adjust(value: u8, delta: i8, min: u8, max: u8) -> (r: u8)
    ensures
        r == adjusted(value, delta, min, max),
{
    if delta < 0 {
        let magnitude: u8 = (-(delta as i16)) as u8;
        value.saturating_sub(magnitude).max(min)
    } else {
        value.saturating_add(delta as u8).min(max)
    }
}

} // verus!
