//! The calls that change something on the compositor's side.
//!
//! Nothing here reaches the compositor. A handle says which call is to be
//! made, as a value of [`Call`], and whoever holds the native library makes
//! it. What crosses the boundary is plain: machine words, flag words, and
//! rectangles.

use crate::render::wlc_pixel_format;
use crate::types::{Geometry, Size, ViewState, ViewType};
use libc::uintptr_t;
use vstd::prelude::*;

verus! {

/// One call into the compositor, with the values that are handed to it.
#[derive(Debug, PartialEq, Eq)]
pub enum Call {
    /// Turn the compositor's focus to `output`; the word 0 takes it from all.
    OutputFocus { output: uintptr_t },
    /// Have `output` drawn anew with the next frame.
    OutputScheduleRender { output: uintptr_t },
    /// Put `output` to sleep, or wake it.
    OutputSetSleep { output: uintptr_t, sleep: bool },
    /// Give `output` another resolution.
    OutputSetResolution { output: uintptr_t, resolution: Size },
    /// Give `output` another visibility mask.
    OutputSetMask { output: uintptr_t, mask: u32 },
    /// Replace the stack of views on `output` by `views`, in that order.
    OutputSetViews { output: uintptr_t, views: Vec<uintptr_t> },
    /// Give `view` the focus; the root view takes it from all.
    ViewFocus { view: uintptr_t },
    /// Ask the surface behind `view` to close.
    ViewClose { view: uintptr_t },
    /// Move `view` to `output`.
    ViewSetOutput { view: uintptr_t, output: uintptr_t },
    /// Put `view` behind all others on its output.
    ViewSendToBack { view: uintptr_t },
    /// Put `view` right below `other`.
    ViewSendBelow { view: uintptr_t, other: uintptr_t },
    /// Put `view` right above `other`.
    ViewBringAbove { view: uintptr_t, other: uintptr_t },
    /// Put `view` in front of all others on its output.
    ViewBringToFront { view: uintptr_t },
    /// Give `view` another visibility mask.
    ViewSetMask { view: uintptr_t, mask: u32 },
    /// Give `view` another geometry; `edges` holds the flags of the edges
    /// that an interactive resize drags.
    ViewSetGeometry { view: uintptr_t, edges: u32, geometry: Geometry },
    /// Set the flags `view_type` in the type of `view`, or clear them.
    ViewSetType { view: uintptr_t, view_type: ViewType, toggle: bool },
    /// Set the flags `state` in the state of `view`, or clear them.
    ViewSetState { view: uintptr_t, state: ViewState, toggle: bool },
    /// Make `parent` the parent of `view`; the root view stands for none.
    ViewSetParent { view: uintptr_t, parent: uintptr_t },
    /// Write the pixels that the caller holds to the rectangle `geometry` of
    /// the frame buffer.
    PixelsWrite { format: wlc_pixel_format, geometry: Geometry },
}

} // verus!
