//! The iced-free core of the Snora GUI framework: every decision the
//! engine makes about what to draw, in which order and on which side,
//! stated as contracts over a mathematical model and proved.
//!
//! Drawing itself (handing widgets to iced) happens outside this crate;
//! what reaches the renderer is decided here.

pub mod channel_register;
pub mod chrome;
pub mod decimal;
pub mod direction;
pub mod emitted;
pub mod geometry;
pub mod identifiers;
pub mod keyboard;
pub mod layout;
pub mod menu;
pub mod notice;
pub mod paint;
pub mod reference_page;
pub mod render;
pub mod report;
pub mod sheet;
pub mod styles;
pub mod toast;
pub mod widgets;

pub use direction::LayoutDirection;
