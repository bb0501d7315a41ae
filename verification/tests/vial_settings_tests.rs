use trackball_vial::vial_settings::{
    adjust_scroll_sens, adjust_sniper_sens, apply, auto_layer, auto_layer_enabled_for_mode, current,
    get_setting, invert_scroll, invert_text, mode, reset, scale_by_ball_dpi, scroll_sens, set_mode,
    set_setting, sniper_sens, sticky_mode, text_sens, transform_axes, SettingsStore,
    VialSettingsData, QSID_ACCELERATION, QSID_AUTO_LAYER, QSID_AUTO_LAYER_NORMAL,
    QSID_AUTO_LAYER_SCROLL, QSID_AUTO_LAYER_SNIPER, QSID_AUTO_LAYER_TEXT, QSID_BALL_AXIS,
    QSID_BALL_DPI, QSID_INVERT_SCROLL, QSID_INVERT_TEXT, QSID_MODE, QSID_SCROLL_SENS,
    QSID_SNIPER_SENS, QSID_STICKY_MODE, QSID_TEXT_SENS, SETTING_KEYS,
};

fn data(
    ball_dpi: u8,
    sniper_sens: u8,
    scroll_sens: u8,
    text_sens: u8,
    ball_axis: u8,
    mode: u8,
    flags: u8,
    auto_layer: u8,
) -> VialSettingsData {
    VialSettingsData { ball_dpi, sniper_sens, scroll_sens, text_sens, ball_axis, mode, flags, auto_layer }
}

fn read(store: &SettingsStore, qsid: u16) -> Option<u8> {
    let mut out = [0xEEu8; 2];
    get_setting(store, qsid, &mut out).map(|n| {
        assert_eq!(n, 1);
        out[0]
    })
}

#[test]
fn defaults_are_the_factory_values() {
    let d = VialSettingsData::defaults();
    assert_eq!(d, data(4, 4, 5, 5, 0, 0, 0x08, 4));
    let store = SettingsStore::new();
    assert_eq!(current(&store), d);
}

#[test]
fn sanitized_clamps_every_field() {
    let raw = data(200, 0, 0, 0, 9, 7, 0xAA, 99);
    assert_eq!(raw.sanitized(), data(15, 1, 1, 1, 3, 3, 0xAA, 15));
    let ok = data(3, 9, 200, 255, 2, 1, 0x11, 6);
    assert_eq!(ok.sanitized(), ok);
}

#[test]
fn apply_stores_and_returns_sanitized_settings() {
    let mut store = SettingsStore::new();
    let stored = apply(&mut store, data(16, 0, 7, 8, 4, 5, 0x05, 200));
    assert_eq!(stored, data(15, 1, 7, 8, 3, 3, 0x05, 15));
    assert_eq!(current(&store), stored);
    assert_eq!(current(&store).sanitized(), stored);
}

#[test]
fn reset_restores_defaults() {
    let mut store = SettingsStore::new();
    apply(&mut store, data(1, 2, 3, 4, 1, 2, 0xFF, 9));
    let r = reset(&mut store);
    assert_eq!(r, VialSettingsData::defaults());
    assert_eq!(current(&store), VialSettingsData::defaults());
}

#[test]
fn transform_axes_rotates_by_quarter_turns() {
    let mut store = SettingsStore::new();
    assert_eq!(transform_axes(&store, 3, -2), (3, -2));
    set_setting(&mut store, QSID_BALL_AXIS, &[1]);
    assert_eq!(transform_axes(&store, 3, -2), (-2, -3));
    set_setting(&mut store, QSID_BALL_AXIS, &[2]);
    assert_eq!(transform_axes(&store, 3, -2), (-3, 2));
    set_setting(&mut store, QSID_BALL_AXIS, &[3]);
    assert_eq!(transform_axes(&store, 3, -2), (2, 3));
    // Out-of-range rotations are stored capped at 3.
    set_setting(&mut store, QSID_BALL_AXIS, &[200]);
    assert_eq!(transform_axes(&store, 3, -2), (2, 3));
}

#[test]
fn scale_by_ball_dpi_uses_the_cpi_table() {
    let mut store = SettingsStore::new();
    // Index 4 is 1000 CPI: no change.
    assert_eq!(scale_by_ball_dpi(&store, 123), 123);
    set_setting(&mut store, QSID_BALL_DPI, &[0]);
    // 123 * 200 / 1000 = 24.6, truncated towards zero.
    assert_eq!(scale_by_ball_dpi(&store, 123), 24);
    assert_eq!(scale_by_ball_dpi(&store, -123), -24);
    set_setting(&mut store, QSID_BALL_DPI, &[15]);
    assert_eq!(scale_by_ball_dpi(&store, 10), 32);
    assert_eq!(scale_by_ball_dpi(&store, -32768), -104857);
    set_setting(&mut store, QSID_BALL_DPI, &[99]);
    assert_eq!(scale_by_ball_dpi(&store, 10), 32);
}

#[test]
fn mode_is_capped_at_three() {
    let mut store = SettingsStore::new();
    assert_eq!(mode(&store), 0);
    set_mode(&mut store, 2);
    assert_eq!(mode(&store), 2);
    set_mode(&mut store, 7);
    assert_eq!(mode(&store), 3);
}

#[test]
fn getters_read_the_defaults() {
    let store = SettingsStore::new();
    assert!(!sticky_mode(&store));
    assert_eq!(sniper_sens(&store), 4);
    assert_eq!(scroll_sens(&store), 5);
    assert_eq!(text_sens(&store), 5);
    assert!(!invert_scroll(&store));
    assert!(!invert_text(&store));
    assert_eq!(auto_layer(&store), 4);
}

#[test]
fn getters_follow_writes() {
    let mut store = SettingsStore::new();
    set_setting(&mut store, QSID_STICKY_MODE, &[1]);
    set_setting(&mut store, QSID_INVERT_SCROLL, &[9]);
    set_setting(&mut store, QSID_INVERT_TEXT, &[1]);
    set_setting(&mut store, QSID_SNIPER_SENS, &[0]);
    set_setting(&mut store, QSID_SCROLL_SENS, &[200]);
    set_setting(&mut store, QSID_TEXT_SENS, &[7]);
    set_setting(&mut store, QSID_AUTO_LAYER, &[31]);
    assert!(sticky_mode(&store));
    assert!(invert_scroll(&store));
    assert!(invert_text(&store));
    assert_eq!(sniper_sens(&store), 1);
    assert_eq!(scroll_sens(&store), 200);
    assert_eq!(text_sens(&store), 7);
    assert_eq!(auto_layer(&store), 15);
}

#[test]
fn auto_layer_enabled_per_mode() {
    let mut store = SettingsStore::new();
    assert!(auto_layer_enabled_for_mode(&store, 0));
    assert!(!auto_layer_enabled_for_mode(&store, 1));
    assert!(!auto_layer_enabled_for_mode(&store, 2));
    assert!(!auto_layer_enabled_for_mode(&store, 3));
    set_setting(&mut store, QSID_AUTO_LAYER_SNIPER, &[1]);
    assert!(auto_layer_enabled_for_mode(&store, 1));
    set_setting(&mut store, QSID_AUTO_LAYER_SCROLL, &[1]);
    assert!(auto_layer_enabled_for_mode(&store, 2));
    set_setting(&mut store, QSID_AUTO_LAYER_TEXT, &[1]);
    assert!(auto_layer_enabled_for_mode(&store, 3));
    // Mode 9 counts as mode 3.
    assert!(auto_layer_enabled_for_mode(&store, 9));
    // Normal mode ignores its own flag.
    set_setting(&mut store, QSID_AUTO_LAYER_NORMAL, &[0]);
    assert!(auto_layer_enabled_for_mode(&store, 0));
    // Layer 0 disables the auto layer everywhere.
    set_setting(&mut store, QSID_AUTO_LAYER, &[0]);
    assert!(!auto_layer_enabled_for_mode(&store, 0));
    assert!(!auto_layer_enabled_for_mode(&store, 1));
}

#[test]
fn get_setting_rejects_empty_output_and_unknown_ids() {
    let store = SettingsStore::new();
    let mut empty: [u8; 0] = [];
    assert_eq!(get_setting(&store, QSID_BALL_DPI, &mut empty), None);
    let mut out = [0xEEu8; 3];
    assert_eq!(get_setting(&store, 122, &mut out), None);
    assert_eq!(out, [0xEE, 0xEE, 0xEE]);
}

#[test]
fn get_setting_writes_only_the_first_byte() {
    let store = SettingsStore::new();
    let mut out = [0xEEu8; 3];
    assert_eq!(get_setting(&store, QSID_BALL_DPI, &mut out), Some(1));
    assert_eq!(out, [4, 0xEE, 0xEE]);
}

#[test]
fn get_setting_reads_each_default() {
    let store = SettingsStore::new();
    assert_eq!(read(&store, QSID_BALL_DPI), Some(4));
    assert_eq!(read(&store, QSID_SNIPER_SENS), Some(4));
    assert_eq!(read(&store, QSID_SCROLL_SENS), Some(5));
    assert_eq!(read(&store, QSID_TEXT_SENS), Some(5));
    assert_eq!(read(&store, QSID_BALL_AXIS), Some(0));
    assert_eq!(read(&store, QSID_MODE), Some(0));
    assert_eq!(read(&store, QSID_INVERT_SCROLL), Some(0));
    assert_eq!(read(&store, QSID_ACCELERATION), Some(0));
    assert_eq!(read(&store, QSID_STICKY_MODE), Some(0));
    assert_eq!(read(&store, QSID_AUTO_LAYER_NORMAL), Some(1));
    assert_eq!(read(&store, QSID_AUTO_LAYER), Some(4));
    assert_eq!(read(&store, QSID_AUTO_LAYER_SNIPER), Some(0));
    assert_eq!(read(&store, QSID_AUTO_LAYER_SCROLL), Some(0));
    assert_eq!(read(&store, QSID_AUTO_LAYER_TEXT), Some(0));
    assert_eq!(read(&store, QSID_INVERT_TEXT), Some(0));
}

#[test]
fn set_setting_rejects_empty_input_and_unknown_ids() {
    let mut store = SettingsStore::new();
    assert_eq!(set_setting(&mut store, QSID_MODE, &[]), None);
    assert_eq!(set_setting(&mut store, 122, &[3]), None);
    assert_eq!(current(&store), VialSettingsData::defaults());
}

#[test]
fn set_setting_returns_the_stored_settings() {
    let mut store = SettingsStore::new();
    let r = set_setting(&mut store, QSID_SCROLL_SENS, &[0, 42]);
    assert_eq!(r, Some(data(4, 4, 1, 5, 0, 0, 0x08, 4)));
    let r = set_setting(&mut store, QSID_ACCELERATION, &[3]);
    assert_eq!(r, Some(data(4, 4, 1, 5, 0, 0, 0x0A, 4)));
    let r = set_setting(&mut store, QSID_AUTO_LAYER_NORMAL, &[0]);
    assert_eq!(r, Some(data(4, 4, 1, 5, 0, 0, 0x02, 4)));
    assert_eq!(current(&store), data(4, 4, 1, 5, 0, 0, 0x02, 4));
}

#[test]
fn every_key_reads_back_what_was_written() {
    for &(value, byte_expect) in &[(0u8, 0u8), (1, 1), (2, 2), (7, 7), (200, 200)] {
        for &qsid in SETTING_KEYS.iter() {
            let mut store = SettingsStore::new();
            let before: Vec<Option<u8>> = SETTING_KEYS.iter().map(|&q| read(&store, q)).collect();
            assert!(set_setting(&mut store, qsid, &[value]).is_some());
            let expected = match qsid {
                QSID_BALL_DPI | QSID_AUTO_LAYER => byte_expect.min(15),
                QSID_SNIPER_SENS | QSID_SCROLL_SENS | QSID_TEXT_SENS => byte_expect.max(1),
                QSID_BALL_AXIS | QSID_MODE => byte_expect.min(3),
                _ => u8::from(value != 0),
            };
            assert_eq!(read(&store, qsid), Some(expected));
            for (i, &other) in SETTING_KEYS.iter().enumerate() {
                if other != qsid {
                    assert_eq!(read(&store, other), before[i]);
                }
            }
        }
    }
}

#[test]
fn only_setting_keys_are_known() {
    let store = SettingsStore::new();
    for qsid in 0..=300u16 {
        assert_eq!(read(&store, qsid).is_some(), SETTING_KEYS.contains(&qsid));
    }
}

#[test]
fn adjust_scroll_sens_saturates_within_range() {
    let mut store = SettingsStore::new();
    adjust_scroll_sens(&mut store, 10);
    assert_eq!(scroll_sens(&store), 15);
    adjust_scroll_sens(&mut store, -100);
    assert_eq!(scroll_sens(&store), 1);
    adjust_scroll_sens(&mut store, -128);
    assert_eq!(scroll_sens(&store), 1);
    set_setting(&mut store, QSID_SCROLL_SENS, &[200]);
    adjust_scroll_sens(&mut store, 127);
    assert_eq!(scroll_sens(&store), 255);
    // The other settings stay.
    assert_eq!(current(&store), data(4, 4, 255, 5, 0, 0, 0x08, 4));
}

#[test]
fn adjust_sniper_sens_saturates_within_range() {
    let mut store = SettingsStore::new();
    adjust_sniper_sens(&mut store, -3);
    assert_eq!(sniper_sens(&store), 1);
    adjust_sniper_sens(&mut store, -1);
    assert_eq!(sniper_sens(&store), 1);
    adjust_sniper_sens(&mut store, 100);
    assert_eq!(sniper_sens(&store), 101);
    adjust_sniper_sens(&mut store, 127);
    adjust_sniper_sens(&mut store, 127);
    assert_eq!(sniper_sens(&store), 255);
}
