//! The banner that a program shows when it starts.

use vstd::prelude::*;
use crate::boundary::{draw_standard_banner, standard_banner};

verus! {

/// Draws `s` as a banner in the standard FIGlet font. There is no banner
/// for the empty string, nor for a string none of whose characters the font
/// can draw.
pub fn render_header(s: &str) -> (banner: Option<String>)
    ensures
        banner.deep_view() == standard_banner(s@),
        s@.len() == 0 ==> banner is None,
{
    draw_standard_banner(s)
}

} // verus!
