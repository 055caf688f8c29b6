//! The one output shape shared by every classified or resolved field.

use vstd::prelude::*;
use crate::number::Number;

verus! {

/// A field as the client sees it: the confidence that the field is of the
/// kind it is filed under, the confidence in the text that was read, and
/// the text.
#[derive(Clone, Debug, PartialEq, Eq)]
pub struct FieldResponse {
    pub confidence_key: Number,
    pub confidence_value: Number,
    pub value: String,
}

/// What a [`FieldResponse`] holds.
pub struct FieldResponseView {
    pub confidence_key: Number,
    pub confidence_value: Number,
    pub value: Seq<char>,
}

impl View for FieldResponse {
    type V = FieldResponseView;

    open spec fn view(&self) -> FieldResponseView {
        FieldResponseView {
            confidence_key: self.confidence_key,
            confidence_value: self.confidence_value,
            value: self.value@,
        }
    }
}

impl DeepView for FieldResponse {
    type V = FieldResponseView;

    open spec fn deep_view(&self) -> FieldResponseView {
        self@
    }
}

} // verus!
