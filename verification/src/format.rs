//! The whole transform: from an analysis to what the client sees.
//!
//! The three projections read disjoint parts of a receipt and write
//! disjoint parts of the result; none depends on another.

use vstd::prelude::*;
use crate::block;
use crate::input_data::{ExpenseDocument, ExpenseDocumentView, InputData, InputDataView};
use crate::line_item;
use crate::output_data::{OutputData, OutputDataView};
use crate::summary;

verus! {

impl ExpenseDocumentView {
    /// The receipt as the client sees it: each part under its projection.
    pub open spec fn projected(self) -> OutputDataView {
        OutputDataView {
            blocks: block::projected(self.blocks),
            line_item_groups: line_item::projected(self.line_item_groups),
            summary_fields: summary::resolved(self.summary_fields),
        }
    }
}

impl InputDataView {
    /// What the client sees of an analysis: its first receipt, projected.
    /// An analysis without a receipt shows nothing.
    pub open spec fn projected(self) -> Option<OutputDataView> {
        if self.expense_documents.len() > 0 {
            Some(self.expense_documents[0].projected())
        } else {
            None
        }
    }
}

/// What the client sees of a batch of analyses, some of which could not be
/// read: the projections of those that were read and hold a receipt, in
/// the order of the batch.
pub open spec fn projected_batch(batch: Seq<Option<InputDataView>>) -> Seq<OutputDataView>
    decreases batch.len(),
{
    if batch.len() == 0 {
        Seq::empty()
    } else {
        let before = projected_batch(batch.drop_last());
        match batch.last() {
            Some(data) => match data.projected() {
                Some(output) => before.push(output),
                None => before,
            },
            None => before,
        }
    }
}

/// Whether an entry of a batch contributes to the result.
pub open spec fn usable(entry: Option<InputDataView>) -> bool {
    entry matches Some(data) && data.projected() is Some
}

/// Running the transform again on the same receipt gives the same result:
/// two results of one receipt are equal.
pub proof fn lemma_transform_is_repeatable(
    document: ExpenseDocumentView,
    first: OutputDataView,
    second: OutputDataView,
)
    requires
        first == document.projected(),
        second == document.projected(),
    ensures
        first == second,
{
}

/// The transform keeps the shape of the receipt: as many blocks, groups and
/// summary entries as the receipt has blocks, groups and summary fields.
pub proof fn lemma_transform_keeps_shape(document: ExpenseDocumentView)
    ensures
        document.projected().blocks.len() == document.blocks.len(),
        document.projected().line_item_groups.len() == document.line_item_groups.len(),
        document.projected().summary_fields.len() == document.summary_fields.len(),
{
}

/// An analysis that could not be read, or that holds no receipt, is left
/// out without a trace: the batch gives what it would give without it.
pub proof fn lemma_batch_skips_unusable(batch: Seq<Option<InputDataView>>, at: int)
    requires
        0 <= at < batch.len(),
        !usable(batch[at]),
    ensures
        projected_batch(batch.remove(at)) == projected_batch(batch),
    decreases batch.len(),
{
    if at == batch.len() - 1 {
        assert(batch.remove(at) =~= batch.drop_last());
    } else {
        assert(batch.remove(at).last() == batch.last());
        assert(batch.remove(at).drop_last() =~= batch.drop_last().remove(at));
        lemma_batch_skips_unusable(batch.drop_last(), at);
    }
}

/// A batch in which every analysis is usable gives one result for each, in
/// order.
pub proof fn lemma_batch_of_usable(batch: Seq<Option<InputDataView>>)
    requires
        forall|i: int| 0 <= i < batch.len() ==> usable(#[trigger] batch[i]),
    ensures
        projected_batch(batch).len() == batch.len(),
        forall|i: int|
            0 <= i < batch.len() ==> Some(#[trigger] projected_batch(batch)[i])
                == batch[i]->0.projected(),
    decreases batch.len(),
{
    if batch.len() > 0 {
        lemma_batch_of_usable(batch.drop_last());
    }
}

/// Transforms one receipt: projects its blocks, classifies its line items
/// and resolves its summary fields.
pub fn process_document(document: &ExpenseDocument) -> (out: OutputData)
    ensures
        out@ == document@.projected(),
{
    OutputData {
        blocks: block::process(&document.blocks),
        line_item_groups: line_item::process(&document.line_item_groups),
        summary_fields: summary::process(document.summary_fields.as_slice()),
    }
}

/// Transforms the first receipt of an analysis. Gives nothing exactly when
/// the analysis holds no receipt.
pub fn process(data: &InputData) -> (out: Option<OutputData>)
    ensures
        out.deep_view() == data@.projected(),
{
    if data.expense_documents.len() > 0 {
        Some(process_document(&data.expense_documents[0]))
    } else {
        None
    }
}

/// Transforms a batch of analyses, of which `None` marks one that could
/// not be read. Those are passed over, as are analyses without a receipt;
/// the others are transformed in order. One bad analysis never costs the
/// batch its other results.
pub fn process_batch(batch: &Vec<Option<InputData>>) -> (out: Vec<OutputData>)
    ensures
        out.deep_view() == projected_batch(batch.deep_view()),
{
    let mut out: Vec<OutputData> = Vec::new();
    let mut i: usize = 0;
    while i < batch.len()
        invariant
            i <= batch@.len(),
            out.deep_view() == projected_batch(batch.deep_view().take(i as int)),
        decreases batch@.len() - i,
    {
        let ghost before = out.deep_view();
        proof {
            let seen = batch.deep_view().take(i + 1);
            assert(seen.drop_last() =~= batch.deep_view().take(i as int));
            assert(seen.last() == batch@[i as int].deep_view());
        }
        match &batch[i] {
            Some(data) => match process(data) {
                Some(output) => {
                    out.push(output);
                    proof {
                        assert(out.deep_view() =~= before.push(output@));
                    }
                },
                None => {},
            },
            None => {},
        }
        i += 1;
    }
    proof {
        assert(batch.deep_view().take(i as int) =~= batch.deep_view());
    }
    out
}

} // verus!
