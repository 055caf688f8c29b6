//! A receipt as the client sees it.

use vstd::prelude::*;
use crate::block::{ResponseBlock, ResponseBlockView};
use crate::line_item::{GroupResponse, GroupResponseView};
use crate::summary::{SummaryEntry, SummaryEntryView};

verus! {

/// The three projections of one receipt, side by side.
#[derive(Clone, Debug, PartialEq, Eq)]
pub struct OutputData {
    pub blocks: Vec<ResponseBlock>,
    pub line_item_groups: Vec<GroupResponse>,
    pub summary_fields: Vec<SummaryEntry>,
}

/// What an [`OutputData`] holds.
pub struct OutputDataView {
    pub blocks: Seq<ResponseBlockView>,
    pub line_item_groups: Seq<GroupResponseView>,
    pub summary_fields: Seq<SummaryEntryView>,
}

impl View for OutputData {
    type V = OutputDataView;

    open spec fn view(&self) -> OutputDataView {
        OutputDataView {
            blocks: self.blocks.deep_view(),
            line_item_groups: self.line_item_groups.deep_view(),
            summary_fields: self.summary_fields.deep_view(),
        }
    }
}

impl DeepView for OutputData {
    type V = OutputDataView;

    open spec fn deep_view(&self) -> OutputDataView {
        self@
    }
}

} // verus!
