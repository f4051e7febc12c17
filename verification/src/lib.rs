//! Verified core of the compositor developer tools.

pub mod canvas;
pub mod config;
pub mod diag;
pub mod dnd;
pub mod experimental;
pub mod font;
pub mod harness;
pub mod layer_controller;
pub mod layer_layout;
pub mod layer_overlay;
pub mod layer_protocol;
pub mod layer_subject;
pub mod mode;
pub mod portal;
pub mod portal_checks;
pub mod portal_config;
pub mod preference;
pub mod router;
pub mod session;
pub mod stats;
pub mod text;
pub mod tools;
pub mod window_controller;
pub mod window_layout;
pub mod window_overlay;
pub mod window_protocol;
pub mod window_subject;
pub mod x11_icon;
pub mod x11_paint;
pub mod x11_protocol;
pub mod x11_scenario;
pub mod x11_subject;
