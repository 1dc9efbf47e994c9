//! Typed handles for the views and outputs of a wlc compositor.
//!
//! The compositor knows its views and outputs by machine words. This
//! library gives those words their types, says for every operation which
//! call is to be made with which plain values, and reads what the
//! compositor answers. It makes no call itself: it can be used, and tried
//! out, where no compositor runs.

pub mod call;
pub mod handle;
pub mod render;
pub mod text;
pub mod types;

pub use call::Call;
pub use handle::{WlcOutput, WlcOutputable, WlcView, WlcViewable};
pub use render::{read_pixels, wlc_pixel_format, wlc_renderer, wlc_surface_format, write_pixels};
pub use text::pointer_to_string;
pub use types::{Geometry, Point, ResizeEdge, Size, ViewState, ViewType};
