//! What can go wrong when a palette is built or changed.

use vstd::prelude::*;
use vstd::string::StringExecFns;

verus! {

/// The errors of this crate.
#[derive(Clone, Copy, Debug, PartialEq, Eq, Structural)]
pub enum PolineErrors {
    /// A colour point was asked for with neither a position nor a colour.
    MissingArgument,
    /// No anchor of the palette equals the given point.
    PointNotFound,
}

impl PolineErrors {
    /// The text of an error.
    pub open spec fn text(self) -> Seq<char> {
        match self {
            PolineErrors::MissingArgument => "At least one is required"@,
            PolineErrors::PointNotFound => "Point not found"@,
        }
    }

    /// The text of this error.
    pub fn message(&self) -> (message: String)
        ensures
            message@ == self.text(),
    {
        match self {
            PolineErrors::MissingArgument => String::from_str("At least one is required"),
            PolineErrors::PointNotFound => String::from_str("Point not found"),
        }
    }
}

} // verus!
