//! A typing-practice arcade game's core, with verified contracts:
//! words drift toward the player from random spawn positions and must
//! be typed character by character before they arrive; a completed
//! word plays a color-fade death animation and briefly resets every
//! other word's progress.
//!
//! The host (windowing, input sampling, text measuring and drawing)
//! stays outside: each frame it hands the game a held-key snapshot
//! and a time delta, and reads back what to draw. Coordinates are
//! integers in thousandths of a pixel, animation time in thousandths
//! of a time unit, so the whole pipeline is exact integer arithmetic.

pub mod color_scheme;
pub mod game;
pub mod geom;
pub mod keys;
pub mod menu;
pub mod tween;
pub mod word;
