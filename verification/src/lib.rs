//! Trackball settings and auto-mouse logic for an RMK keyboard with Vial support.
pub mod vial_settings;
pub mod settings_laws;
pub mod auto_mouse;
pub mod auto_mouse_laws;
pub mod motion_laws;
