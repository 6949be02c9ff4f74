//! Line-rendering options for the host drawing surface, and their names
//! in the form the surface accepts. The surface itself, with its
//! floating-point geometry, is host-side.

use vstd::prelude::*;
use vstd::string::StringExecFns;

verus! {

/// An enum representing a lineCap mode of the host drawing surface.
#[derive(Clone, Copy, Debug, PartialEq, Eq, Structural)]
pub enum LineCap {
    /// The line ends exactly at its end point.
    Butt,
    /// The line ends with a half disc around its end point.
    Round,
    /// The line ends with a half square around its end point.
    Square,
}

/// The name the host drawing surface accepts for a lineCap mode.
pub open spec fn line_cap_css(c: LineCap) -> Seq<char> {
    match c {
        LineCap::Butt => "butt"@,
        LineCap::Round => "round"@,
        LineCap::Square => "square"@,
    }
}

impl LineCap {
    /// The name the host drawing surface accepts for this mode.
    pub fn to_string(&self) -> (r: String)
        ensures
            r@ == line_cap_css(*self),
    {
        match self {
            LineCap::Butt => String::from_str("butt"),
            LineCap::Round => String::from_str("round"),
            LineCap::Square => String::from_str("square"),
        }
    }
}

/// An enum representing a lineJoin mode of the host drawing surface.
#[derive(Clone, Copy, Debug, PartialEq, Eq, Structural)]
pub enum LineJoin {
    /// Corners are rounded off.
    Round,
    /// Corners are cut off.
    Bevel,
    /// Corners are drawn to their point.
    Miter,
}

/// The name the host drawing surface accepts for a lineJoin mode.
pub open spec fn line_join_css(j: LineJoin) -> Seq<char> {
    match j {
        LineJoin::Round => "round"@,
        LineJoin::Bevel => "bevel"@,
        LineJoin::Miter => "miter"@,
    }
}

impl LineJoin {
    /// The name the host drawing surface accepts for this mode.
    pub fn to_string(&self) -> (r: String)
        ensures
            r@ == line_join_css(*self),
    {
        match self {
            LineJoin::Miter => String::from_str("miter"),
            LineJoin::Round => String::from_str("round"),
            LineJoin::Bevel => String::from_str("bevel"),
        }
    }
}

} // verus!
