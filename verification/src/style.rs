use crate::error::Error;
use vstd::prelude::*;

verus! {

/// Rendering configuration: which segments of a movie the formatter emits.
#[derive(Clone, Copy, PartialEq, Eq, Structural, Debug)]
pub struct Style {
    pub title: bool,
    pub year: bool,
    pub id: bool,
}

impl Style {
    /// A style is usable only when at least one segment is selected.
    pub open spec fn is_usable(self) -> bool {
        self.title || self.year || self.id
    }

    pub fn usable(&self) -> (r: bool)
        ensures
            r == self.is_usable(),
    {
        self.title || self.year || self.id
    }

    /// Reject a style that selects nothing, before it reaches the formatter.
    pub fn validate(&self) -> (r: Result<(), Error>)
        ensures
            r is Ok <==> self.is_usable(),
            !self.is_usable() ==> r->Err_0 is Misconfigured,
    {
        if self.usable() {
            Ok(())
        } else {
            Err(Error::Misconfigured)
        }
    }
}

} // verus!
