//! Where the server listens and which path serves the badge.
use vstd::prelude::*;

verus! {

/// The address the server binds to: every interface.
pub const BIND_ADDRESS: &'static str = "0.0.0.0";

/// The port the server listens on.
pub const PORT: u16 = 8011;

/// The route of the badge; `{webpage_id}` is the page's id, an `i32`.
pub const SVG_IMAGE_ROUTE: &'static str = "/webpage_hit_counter/get_svg_image/{webpage_id}.svg";

} // verus!
