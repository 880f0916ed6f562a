//! The slice of a terminal style that the shimmer reads and writes, and the
//! styled runs it produces.
//!
//! Of the host rendering library's style only three things ever matter to the
//! shimmer: the foreground color, and whether the bold and dim emphasis
//! modifiers are present. Everything else in the host style is constant
//! across the characters of one call, so it can never split or merge runs;
//! the caller carries it around this library unchanged.

use vstd::prelude::*;

use crate::color::TermColor;

verus! {

/// The shimmer-relevant slice of a terminal style: foreground color plus the
/// bold and dim emphasis modifiers. Two runs merge exactly when these agree.
#[derive(Clone, Copy, Debug, PartialEq, Eq, Structural)]
pub struct ShimmerStyle {
    /// Foreground color; none when the style leaves it unset.
    pub fg: Option<TermColor>,
    /// Whether the bold emphasis modifier is present.
    pub bold: bool,
    /// Whether the dim emphasis modifier is present.
    pub dim: bool,
}

/// A maximal contiguous text fragment sharing one exact style.
#[derive(Debug)]
pub struct StyledRun {
    /// The characters of the fragment, in text order.
    pub text: Vec<char>,
    /// The style shared by every character of the fragment.
    pub style: ShimmerStyle,
}

/// The mathematical model of a sequence of styled runs: each run as the pair
/// of its character sequence and its style.
pub open spec fn runs_model(runs: Seq<StyledRun>) -> Seq<(Seq<char>, ShimmerStyle)> {
    Seq::new(runs.len(), |i: int| (runs[i].text@, runs[i].style))
}

} // verus!
