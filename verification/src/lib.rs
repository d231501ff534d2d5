//! Rendering and navigation core of a minimal terminal text viewer:
//! tab-aware row rendering, cursor movement with document-aware clamping,
//! viewport scrolling, and frame composition for a terminal screen.

pub mod compositor;
pub mod cursor;
pub mod document;
pub mod row;
pub mod session;
pub mod term;
pub mod text;
pub mod viewport;

use vstd::prelude::*;

verus! {

/// Column interval to which a tab character advances the render column.
pub const TAB_STOP: usize = 8;

} // verus!
