//! An analysis as it arrives: metadata and the expense documents found on
//! the scanned pages.

use vstd::prelude::*;
use crate::block::{Block, BlockView};
use crate::line_item::{Group, GroupView};
use crate::summary::{SummaryField, SummaryFieldView};

verus! {

/// Facts about the scan as a whole.
#[derive(Clone, Copy, Debug, PartialEq, Eq, Structural)]
pub struct DocumentMetadata {
    pub pages: i64,
}

/// One receipt found in the scan: its text blocks, its line items in
/// groups, and its summary fields.
#[derive(Clone, Debug, PartialEq, Eq)]
pub struct ExpenseDocument {
    pub blocks: Vec<Block>,
    pub expense_index: i64,
    pub line_item_groups: Vec<Group>,
    pub summary_fields: Vec<SummaryField>,
}

/// What an [`ExpenseDocument`] holds.
pub struct ExpenseDocumentView {
    pub blocks: Seq<BlockView>,
    pub expense_index: i64,
    pub line_item_groups: Seq<GroupView>,
    pub summary_fields: Seq<SummaryFieldView>,
}

impl View for ExpenseDocument {
    type V = ExpenseDocumentView;

    open spec fn view(&self) -> ExpenseDocumentView {
        ExpenseDocumentView {
            blocks: self.blocks.deep_view(),
            expense_index: self.expense_index,
            line_item_groups: self.line_item_groups.deep_view(),
            summary_fields: self.summary_fields.deep_view(),
        }
    }
}

impl DeepView for ExpenseDocument {
    type V = ExpenseDocumentView;

    open spec fn deep_view(&self) -> ExpenseDocumentView {
        self@
    }
}

/// A whole analysis.
#[derive(Clone, Debug, PartialEq, Eq)]
pub struct InputData {
    pub document_metadata: DocumentMetadata,
    pub expense_documents: Vec<ExpenseDocument>,
}

/// What an [`InputData`] holds.
pub struct InputDataView {
    pub document_metadata: DocumentMetadata,
    pub expense_documents: Seq<ExpenseDocumentView>,
}

impl View for InputData {
    type V = InputDataView;

    open spec fn view(&self) -> InputDataView {
        InputDataView {
            document_metadata: self.document_metadata,
            expense_documents: self.expense_documents.deep_view(),
        }
    }
}

impl DeepView for InputData {
    type V = InputDataView;

    open spec fn deep_view(&self) -> InputDataView {
        self@
    }
}

} // verus!
