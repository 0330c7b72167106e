//! A 2D game-engine core with an immediate-mode GUI runtime.
//!
//! The crate is organised around three layers:
//!
//! - a software rasterizer ([`draw::StateData`]) that draws pixels, lines,
//!   circles, rectangles, triangles, sprites and bitmap text onto a
//!   [`sprite::Sprite`] pixel buffer;
//! - an immediate-mode GUI runtime ([`gui`]) that derives a stable
//!   element identifier for every widget invocation, keeps the
//!   hover/active/focus/edit/scroll interaction state between frames, and
//!   offers slider, drag, select-list and scrollbar widgets;
//! - a frame-step engine core ([`engine`]) that folds platform events into
//!   the per-frame input snapshot and decides when the main loop stops.
//!
//! Widgets have no persistent object identity: all cross-frame state lives
//! in the interaction store keyed by element identifier, re-derived each
//! frame from a declarative call sequence.

pub mod pixel;
pub mod sprite;
pub mod draw;
pub mod event;
pub mod input;
pub mod gui;
pub mod window;
pub mod state;
pub mod engine;
pub mod vector;
