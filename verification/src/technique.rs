//! The drawing technique selector: an integer setting picks one of three
//! shader entry points. Which shader runs is the rendering collaborator's
//! concern; this core only maps the setting to a tagged variant.

use vstd::prelude::*;

verus! {

/// The three shader entry points a host may select.
#[derive(Clone, Copy, Debug, PartialEq, Eq, Structural)]
pub enum DrawingTechnique {
    Undistort,
    AlphaDivide,
    Plain,
}

/// The variant an integer setting selects: 1 and 2 pick the alternative
/// techniques, everything else falls back to the default.
pub open spec fn technique_of_index(index: int) -> DrawingTechnique {
    if index == 1 {
        DrawingTechnique::AlphaDivide
    } else if index == 2 {
        DrawingTechnique::Plain
    } else {
        DrawingTechnique::Undistort
    }
}

impl DrawingTechnique {
    /// Maps the host's integer setting to a technique.
    pub fn from_index(index: i64) -> (t: DrawingTechnique)
        ensures
            t == technique_of_index(index as int),
    {
        if index == 1 {
            DrawingTechnique::AlphaDivide
        } else if index == 2 {
            DrawingTechnique::Plain
        } else {
            DrawingTechnique::Undistort
        }
    }
}

} // verus!
