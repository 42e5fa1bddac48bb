use vstd::prelude::*;
use vstd::string::StringExecFns;

verus! {

/// The closed set of failures a query or a rendering request can report.
///
/// `Transport` covers connection-level failures, `Decode` a response body
/// that does not match the expected schema, `ProviderReported` an error the
/// provider embedded in an otherwise well-formed response, and
/// `Misconfigured` a style that selects no segments at all.
#[derive(Debug)]
pub enum Error {
    Transport(String),
    Decode(String),
    ProviderReported(String),
    Misconfigured,
}

impl Error {
    /// The human-readable message this error carries.
    pub open spec fn spec_message(self) -> Seq<char> {
        match self {
            Error::Transport(s) => s@,
            Error::Decode(s) => s@,
            Error::ProviderReported(s) => s@,
            Error::Misconfigured => "at least one style flag must be set"@,
        }
    }

    pub fn message(&self) -> (m: String)
        ensures
            m@ == self.spec_message(),
    {
        match self {
            Error::Transport(s) => s.clone(),
            Error::Decode(s) => s.clone(),
            Error::ProviderReported(s) => s.clone(),
            Error::Misconfigured => String::from_str("at least one style flag must be set"),
        }
    }
}

} // verus!
