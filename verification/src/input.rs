//! The live control-parameter document, as the scheduler sees it.
//!
//! The control service returns an opaque structured document whose schema
//! is owned by each artwork. The scheduling core never looks inside it:
//! it only compares a freshly polled document with the last one seen, by
//! value, to decide whether the predictive preview must be regenerated.
//! The document is therefore carried as its canonical serialized text.

use vstd::prelude::*;

verus! {

/// An opaque input document, compared by value.
///
/// `raw` is the canonical text of the document: two polls carry equal
/// `raw` exactly when the control service returned the same document.
pub struct Input {
    pub raw: String,
}

impl View for Input {
    type V = Seq<char>;

    open spec fn view(&self) -> Seq<char> {
        self.raw@
    }
}

impl Input {
    /// Wraps the canonical text of a polled document.
    pub fn new(raw: String) -> (r: Input)
        ensures
            r@ == raw@,
    {
        Input { raw }
    }

    /// Value comparison of two documents.
    pub fn same_as(&self, other: &Input) -> (r: bool)
        ensures
            r == (self@ == other@),
    {
        self.raw == other.raw
    }
}

impl Clone for Input {
    fn clone(&self) -> (r: Self)
        ensures
            r@ == self@,
    {
        Input { raw: self.raw.clone() }
    }
}

} // verus!
