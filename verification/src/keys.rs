//! Keys of an object may be given as owned text or as a text slice.

use vstd::prelude::*;
use vstd::string::to_string_from_display_ensures_for_str;

verus! {

/// A key input that becomes owned text, with a copy only where the input does not own its text
/// already.
pub trait ToStringIfNecessary {
    /// The characters of the input.
    spec fn spec_string(self) -> Seq<char>;

    /// Hands the input back as owned text with the same characters.
    fn to_string_if_necessary(self) -> (text: String)
        ensures
            text@ == self.spec_string(),
    ;
}

impl ToStringIfNecessary for String {
    open spec fn spec_string(self) -> Seq<char> {
        self@
    }

    fn to_string_if_necessary(self) -> (text: String)
        ensures
            text == self,
    {
        self
    }
}

impl ToStringIfNecessary for &str {
    open spec fn spec_string(self) -> Seq<char> {
        self@
    }

    fn to_string_if_necessary(self) -> (text: String)
        ensures
            text@ == self@,
    {
        broadcast use to_string_from_display_ensures_for_str;

        self.to_string()
    }
}

} // verus!
