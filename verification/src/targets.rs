//! Core's per-surface presentation tokens carry the touch-target floor and
//! corner radius; these turn them into GTK size requests and CSS.

use vstd::prelude::*;

use crate::text::{decimal, push_decimal};

verus! {

/// Spacing, corner radius and touch-target floor for one surface.
#[derive(Clone, Copy, Debug)]
pub struct PresentationTokens {
    pub spacing_small: u16,
    pub spacing_medium: u16,
    pub spacing_large: u16,
    pub corner_radius: u16,
    pub minimum_target_size: u16,
}

/// The shared class every sized widget opts into for the corner radius.
pub const TARGET_RADIUS_CLASS: &'static str = "vauchi-target-radius";

/// The touch-target floor as a GTK size-request value.
pub fn minimum_target_px(tokens: &PresentationTokens) -> (px: i32)
    ensures
        px == tokens.minimum_target_size,
{
    tokens.minimum_target_size as i32
}

/// The CSS rule rounding the touch targets of a surface.
pub open spec fn target_radius_rule(radius: u16) -> Seq<char> {
    "."@ + TARGET_RADIUS_CLASS@ + " { border-radius: "@ + decimal(radius as nat) + "px; }"@
}

/// CSS rounding the touch targets a surface asked for, under the shared
/// class name.
pub fn target_radius_css(tokens: &PresentationTokens) -> (css: String)
    ensures
        css@ == target_radius_rule(tokens.corner_radius),
{
    let mut css = String::from_str(".");
    css.append(TARGET_RADIUS_CLASS);
    css.append(" { border-radius: ");
    push_decimal(&mut css, tokens.corner_radius as u64);
    css.append("px; }");
    css
}

} // verus!
