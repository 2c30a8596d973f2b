//! The payload of a fault, as the host runtime rendered it.

use vstd::prelude::*;

verus! {

/// What the host runtime reports of one unrecoverable fault: its message and,
/// where the host knows it, the place where the fault arose, in the host's own
/// textual form. The text is taken as the host gives it; nothing is parsed out
/// of it and nothing is added.
#[derive(Debug, PartialEq, Eq)]
pub struct FaultInfo {
    rendered: String,
}

impl View for FaultInfo {
    type V = Seq<char>;

    /// The rendered text, character by character.
    closed spec fn view(&self) -> Seq<char> {
        self.rendered@
    }
}

impl FaultInfo {
    /// Wraps the text that the host rendered for a fault.
    pub fn new(rendered: String) -> (info: Self)
        ensures
            info@ == rendered@,
    {
        FaultInfo { rendered }
    }

    /// The rendered text.
    pub fn rendered(&self) -> (text: &str)
        ensures
            text@ == self@,
    {
        self.rendered.as_str()
    }
}

} // verus!
