//! The library's error type.

use vstd::prelude::*;

verus! {

/// Everything that can go wrong in the library, each with a human-readable detail.
#[derive(Debug)]
pub enum Error {
    /// A failure reported by the BLE transport.
    Ble(String),
    /// Bytes that do not decode to a valid value.
    Parse(String),
    /// A protocol-level failure.
    Protocol(String),
}

impl Error {
    /// The full message, the variant's prefix followed by its detail.
    pub open spec fn text(&self) -> Seq<char> {
        match self {
            Error::Ble(s) => "BLE error: "@ + s@,
            Error::Parse(s) => "Parse error: "@ + s@,
            Error::Protocol(s) => "Protocol error: "@ + s@,
        }
    }

    /// Holds when this is a parse error whose detail is `detail`.
    pub open spec fn is_parse_with(&self, detail: Seq<char>) -> bool {
        self matches Error::Parse(s) && s@ == detail
    }

    /// Renders the error as its full message.
    pub fn to_string(&self) -> (r: String)
        ensures
            r@ == self.text(),
    {
        match self {
            Error::Ble(s) => {
                let mut r = String::from_str("BLE error: ");
                r.append(s.as_str());
                r
            },
            Error::Parse(s) => {
                let mut r = String::from_str("Parse error: ");
                r.append(s.as_str());
                r
            },
            Error::Protocol(s) => {
                let mut r = String::from_str("Protocol error: ");
                r.append(s.as_str());
                r
            },
        }
    }
}

} // verus!
