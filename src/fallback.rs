//! Text for a value that may be missing.

use vstd::prelude::*;

verus! {

/// The text of an optional value, or a placeholder when it is missing.
pub trait None2NaNDef {
    /// The value's text, or `default` when it is missing.
    spec fn text_or(&self, default: Seq<char>) -> Seq<char>;

    /// The value's text, or `N/A`.
    fn or_nan_def(&self) -> (r: &str)
        ensures
            r@ == self.text_or("N/A"@);

    /// The value's text, or `Unknown`.
    fn or_unk_def(&self) -> (r: &str)
        ensures
            r@ == self.text_or("Unknown"@);
}

impl None2NaNDef for Option<String> {
    open spec fn text_or(&self, default: Seq<char>) -> Seq<char> {
        match self {
            Some(o) => o@,
            None => default,
        }
    }

    fn or_nan_def(&self) -> (r: &str) {
        match self {
            Some(o) => o.as_str(),
            None => "N/A",
        }
    }

    fn or_unk_def(&self) -> (r: &str) {
        match self {
            Some(o) => o.as_str(),
            None => "Unknown",
        }
    }
}

impl<'a> None2NaNDef for Option<&'a str> {
    open spec fn text_or(&self, default: Seq<char>) -> Seq<char> {
        match self {
            Some(o) => o@,
            None => default,
        }
    }

    fn or_nan_def(&self) -> (r: &str) {
        match self {
            Some(o) => *o,
            None => "N/A",
        }
    }

    fn or_unk_def(&self) -> (r: &str) {
        match self {
            Some(o) => *o,
            None => "Unknown",
        }
    }
}

} // verus!
