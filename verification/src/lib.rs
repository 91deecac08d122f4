//! Urahafu: the verified core of a screen- and keyboard-cleaning utility.
//!
//! Every timing decision takes an explicit [`time::Instant`]; apart from
//! [`clock::SystemClock`], nothing here reads a clock, a file or the screen. The application
//! (windows, the input tap, alerts) drives these state machines and renders what they describe.

pub mod canvas;
pub mod clock;
pub mod color;
pub mod combo;
pub mod controller;
pub mod countdown;
pub mod failsafe;
pub mod geometry;
pub mod hint;
pub mod hold_ring;
pub mod i18n;
pub mod input;
pub mod login_item;
pub mod pixel_test;
pub mod session;
pub mod settings;
pub mod startup;
pub mod text;
pub mod time;
pub mod window_command;
