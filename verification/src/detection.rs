//! The two building blocks of every extracted field: its type tag and the
//! text that was read for it.

use vstd::prelude::*;
use crate::geometry::{Geometry, GeometryView};
use crate::number::{or_zero, Number};
use crate::text::or_empty;

verus! {

/// A type tag: the name of a field's kind and the confidence in that
/// classification. Either may be missing from an analysis.
#[derive(Clone, Debug, PartialEq, Eq)]
pub struct TypeClass {
    pub confidence: Option<Number>,
    pub text: Option<String>,
}

/// What a [`TypeClass`] holds.
pub struct TypeClassView {
    pub confidence: Option<Number>,
    pub text: Option<Seq<char>>,
}

impl View for TypeClass {
    type V = TypeClassView;

    open spec fn view(&self) -> TypeClassView {
        TypeClassView { confidence: self.confidence, text: self.text.deep_view() }
    }
}

impl DeepView for TypeClass {
    type V = TypeClassView;

    open spec fn deep_view(&self) -> TypeClassView {
        self@
    }
}

/// A piece of recognised text with the confidence in the reading and the
/// place where it was found.
#[derive(Clone, Debug, PartialEq, Eq)]
pub struct Detection {
    pub confidence: Option<Number>,
    pub geometry: Geometry,
    pub text: Option<String>,
}

/// What a [`Detection`] holds.
pub struct DetectionView {
    pub confidence: Option<Number>,
    pub geometry: GeometryView,
    pub text: Option<Seq<char>>,
}

impl View for Detection {
    type V = DetectionView;

    open spec fn view(&self) -> DetectionView {
        DetectionView {
            confidence: self.confidence,
            geometry: self.geometry@,
            text: self.text.deep_view(),
        }
    }
}

impl DeepView for Detection {
    type V = DetectionView;

    open spec fn deep_view(&self) -> DetectionView {
        self@
    }
}

impl TypeClassView {
    /// The tag's name, empty where the analysis gave none.
    pub open spec fn name(self) -> Seq<char> {
        or_empty(self.text)
    }

    /// The confidence in the tag, zero where the analysis gave none.
    pub open spec fn score(self) -> Number {
        or_zero(self.confidence)
    }
}

impl DetectionView {
    /// The recognised text, empty where the analysis gave none.
    pub open spec fn content(self) -> Seq<char> {
        or_empty(self.text)
    }

    /// The confidence in the reading, zero where the analysis gave none.
    pub open spec fn score(self) -> Number {
        or_zero(self.confidence)
    }
}

} // verus!
