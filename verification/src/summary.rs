//! Document-level fields of a receipt and the keys they are filed under.
//!
//! Every summary field becomes one entry. Fields are never merged: two
//! fields that resolve to the same key give two entries, in the order in
//! which the analysis lists them.

use vstd::prelude::*;
use crate::detection::{Detection, DetectionView, TypeClass, TypeClassView};
use crate::field_response::{FieldResponse, FieldResponseView};
use crate::number::{number_or_zero, Number};
use crate::text::owned_or_empty;

verus! {

/// A property that ties a summary field to a group of fields, such as the
/// fields that describe the vendor.
#[derive(Clone, Debug, PartialEq, Eq)]
pub struct GroupProperty {
    pub id: String,
    pub types: Vec<String>,
}

/// What a [`GroupProperty`] holds.
pub struct GroupPropertyView {
    pub id: Seq<char>,
    pub types: Seq<Seq<char>>,
}

impl View for GroupProperty {
    type V = GroupPropertyView;

    open spec fn view(&self) -> GroupPropertyView {
        GroupPropertyView { id: self.id@, types: self.types.deep_view() }
    }
}

impl DeepView for GroupProperty {
    type V = GroupPropertyView;

    open spec fn deep_view(&self) -> GroupPropertyView {
        self@
    }
}

/// A fact about the receipt as a whole, such as its total or its vendor.
///
/// The value is always there. The type tag may be missing, and so may the
/// label that was printed next to the value.
#[derive(Clone, Debug, PartialEq, Eq)]
pub struct SummaryField {
    pub group_properties: Option<Vec<GroupProperty>>,
    pub page_number: i64,
    pub summary_field_type: Option<TypeClass>,
    pub value_detection: Detection,
    pub label_detection: Option<Detection>,
}

/// What a [`SummaryField`] holds.
pub struct SummaryFieldView {
    pub group_properties: Option<Seq<GroupPropertyView>>,
    pub page_number: i64,
    pub summary_field_type: Option<TypeClassView>,
    pub value_detection: DetectionView,
    pub label_detection: Option<DetectionView>,
}

impl View for SummaryField {
    type V = SummaryFieldView;

    open spec fn view(&self) -> SummaryFieldView {
        SummaryFieldView {
            group_properties: self.group_properties.deep_view(),
            page_number: self.page_number,
            summary_field_type: self.summary_field_type.deep_view(),
            value_detection: self.value_detection@,
            label_detection: self.label_detection.deep_view(),
        }
    }
}

impl DeepView for SummaryField {
    type V = SummaryFieldView;

    open spec fn deep_view(&self) -> SummaryFieldView {
        self@
    }
}

/// The summary fields of a document, as a document of their own.
#[derive(Clone, Debug, PartialEq, Eq)]
pub struct SummaryFieldsWrapper {
    pub summary_fields: Vec<SummaryField>,
}

/// What a [`SummaryFieldsWrapper`] holds.
pub struct SummaryFieldsWrapperView {
    pub summary_fields: Seq<SummaryFieldView>,
}

impl View for SummaryFieldsWrapper {
    type V = SummaryFieldsWrapperView;

    open spec fn view(&self) -> SummaryFieldsWrapperView {
        SummaryFieldsWrapperView { summary_fields: self.summary_fields.deep_view() }
    }
}

impl DeepView for SummaryFieldsWrapper {
    type V = SummaryFieldsWrapperView;

    open spec fn deep_view(&self) -> SummaryFieldsWrapperView {
        self@
    }
}

/// One resolved summary field: the key it is filed under and its value.
///
/// On the wire an entry is a map with this one key.
#[derive(Clone, Debug, PartialEq, Eq)]
pub struct SummaryEntry {
    pub key: String,
    pub value: FieldResponse,
}

/// What a [`SummaryEntry`] holds.
pub struct SummaryEntryView {
    pub key: Seq<char>,
    pub value: FieldResponseView,
}

impl View for SummaryEntry {
    type V = SummaryEntryView;

    open spec fn view(&self) -> SummaryEntryView {
        SummaryEntryView { key: self.key@, value: self.value@ }
    }
}

impl DeepView for SummaryEntry {
    type V = SummaryEntryView;

    open spec fn deep_view(&self) -> SummaryEntryView {
        self@
    }
}

/// The key of a field that has a label but no type tag.
pub open spec fn other() -> Seq<char> {
    "OTHER"@
}

impl SummaryFieldView {
    /// The key the field is filed under: the name of its type tag if it has
    /// a tag; else [`other`] if it has a label; else the empty key.
    pub open spec fn key(self) -> Seq<char> {
        match self.summary_field_type {
            Some(tag) => tag.name(),
            None => if self.label_detection is Some {
                other()
            } else {
                Seq::empty()
            },
        }
    }

    /// The confidence in the key: that of the type tag if the field has a
    /// tag; else that of the label if it has one; else zero.
    pub open spec fn key_confidence(self) -> Number {
        match self.summary_field_type {
            Some(tag) => tag.score(),
            None => match self.label_detection {
                Some(label) => label.score(),
                None => Number::zero(),
            },
        }
    }

    /// The entry the field resolves to. Value text and value confidence
    /// always come from the field's value.
    pub open spec fn resolved(self) -> SummaryEntryView {
        SummaryEntryView {
            key: self.key(),
            value: FieldResponseView {
                confidence_key: self.key_confidence(),
                confidence_value: self.value_detection.score(),
                value: self.value_detection.content(),
            },
        }
    }
}

/// The entry of each field, in the order of the fields.
pub open spec fn resolved(fields: Seq<SummaryFieldView>) -> Seq<SummaryEntryView> {
    Seq::new(fields.len(), |i: int| fields[i].resolved())
}

/// The three cases of key resolution, in order of priority.
pub proof fn lemma_key_resolution(field: SummaryFieldView)
    ensures
        field.summary_field_type matches Some(tag) ==> field.key() == tag.name(),
        field.summary_field_type is None && field.label_detection is Some ==> field.key()
            == other(),
        field.summary_field_type is None && field.label_detection is None ==> field.key()
            == Seq::<char>::empty(),
{
}

/// A key is empty only for a field that has neither type tag nor label, or
/// whose type tag has no name.
pub proof fn lemma_key_empty_iff(field: SummaryFieldView)
    ensures
        field.key().len() == 0 <==> {
            ||| field.summary_field_type is None && field.label_detection is None
            ||| field.summary_field_type matches Some(tag) && tag.name().len() == 0
        },
{
    reveal_strlit("OTHER");
}

/// Resolution keeps every field apart: there are as many entries as fields,
/// and the entry at each position is that of the field at that position,
/// whatever keys the other fields resolve to.
pub proof fn lemma_one_entry_per_field(fields: Seq<SummaryFieldView>)
    ensures
        resolved(fields).len() == fields.len(),
        forall|i: int| 0 <= i < fields.len() ==> #[trigger] resolved(fields)[i] == fields[i].resolved(),
{
}

/// The key a field is filed under.
pub fn resolve_key(field: &SummaryField) -> (key: String)
    ensures
        key@ == field@.key(),
{
    match &field.summary_field_type {
        Some(tag) => owned_or_empty(&tag.text),
        None => {
            if field.label_detection.is_some() {
                "OTHER".to_owned()
            } else {
                String::new()
            }
        },
    }
}

/// The confidence in the key a field is filed under.
pub fn resolve_confidence(field: &SummaryField) -> (confidence: Number)
    ensures
        confidence == field@.key_confidence(),
{
    match &field.summary_field_type {
        Some(tag) => number_or_zero(&tag.confidence),
        None => match &field.label_detection {
            Some(label) => number_or_zero(&label.confidence),
            None => Number::zero(),
        },
    }
}

/// Resolves one summary field to its entry.
pub fn resolve(field: &SummaryField) -> (entry: SummaryEntry)
    ensures
        entry@ == field@.resolved(),
{
    SummaryEntry {
        key: resolve_key(field),
        value: FieldResponse {
            confidence_key: resolve_confidence(field),
            confidence_value: number_or_zero(&field.value_detection.confidence),
            value: owned_or_empty(&field.value_detection.text),
        },
    }
}

/// Resolves every summary field to an entry of its own.
///
/// The result has one entry per field, in the same order. A field with
/// neither type tag nor label is kept, under the empty key.
pub fn process(summary_fields: &[SummaryField]) -> (out: Vec<SummaryEntry>)
    ensures
        out.deep_view() == resolved(summary_fields.deep_view()),
        out@.len() == summary_fields@.len(),
{
    let mut out: Vec<SummaryEntry> = Vec::new();
    let mut i: usize = 0;
    while i < summary_fields.len()
        invariant
            i <= summary_fields@.len(),
            out@.len() == i,
            forall|j: int| 0 <= j < i ==> #[trigger] out@[j]@ == summary_fields@[j]@.resolved(),
        decreases summary_fields@.len() - i,
    {
        out.push(resolve(&summary_fields[i]));
        i += 1;
    }
    proof {
        assert(out.deep_view() =~= resolved(summary_fields.deep_view()));
    }
    out
}

} // verus!
