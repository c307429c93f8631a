//! A small retained-widget UI toolkit with an immediate-mode build API,
//! paired with a layered software compositor, and the state for a snake game
//! driven by it.
//!
//! The crate is organised in four layers, leaves first:
//! - [`math`]: positions, sizes, rectangles and anchored placement;
//! - [`render`]: alpha-composed bitmaps, a draw-command list and its
//!   interpreter over a stack of layer buffers;
//! - [`ui`]: the retained widget tree with stable-key reconciliation, the
//!   two-pass layout solver and the hover/press/click interaction pass;
//! - [`snake`]: the grid simulation that the host application renders with
//!   the widgets above.

pub mod math;
pub mod render;
pub mod snake;
pub mod spritesheet;
pub mod ui;
