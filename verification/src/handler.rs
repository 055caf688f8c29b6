//! The decisions of the endpoint, apart from the work they call for.
//!
//! Serving a request takes work that lies outside this library: fetching
//! the analyses, reading them, writing the result out. What to do next,
//! and what to answer, is decided here: [`next`] takes what has just
//! happened and names what is to be done.

use vstd::prelude::*;
use crate::format::{process_batch, projected_batch};
use crate::input_data::{InputData, InputDataView};
use crate::output_data::{OutputData, OutputDataView};
use crate::response::{
    failure, json, missing_receipt_id, missing_receipt_message, not_found, not_found_message,
    success, Reply, ReplyView,
};

verus! {

/// What has just happened.
#[derive(Clone, Debug, PartialEq, Eq)]
pub enum Event {
    /// A request came in from a caller known by provider and address, for
    /// the receipt it names, if it names one.
    Received { provider: String, address: String, receipt_id: Option<String> },
    /// The analyses of the receipt could not be fetched, for the given
    /// cause.
    FetchFailed { cause: String },
    /// The analyses were fetched; `None` stands for one that could not be
    /// read.
    Fetched { batch: Vec<Option<InputData>> },
    /// The results were written out as the given text.
    Serialized { body: String },
}

/// What an [`Event`] holds.
pub enum EventView {
    Received { provider: Seq<char>, address: Seq<char>, receipt_id: Option<Seq<char>> },
    FetchFailed { cause: Seq<char> },
    Fetched { batch: Seq<Option<InputDataView>> },
    Serialized { body: Seq<char> },
}

impl View for Event {
    type V = EventView;

    open spec fn view(&self) -> EventView {
        match self {
            Event::Received { provider, address, receipt_id } => EventView::Received {
                provider: provider@,
                address: address@,
                receipt_id: receipt_id.deep_view(),
            },
            Event::FetchFailed { cause } => EventView::FetchFailed { cause: cause@ },
            Event::Fetched { batch } => EventView::Fetched { batch: batch.deep_view() },
            Event::Serialized { body } => EventView::Serialized { body: body@ },
        }
    }
}

impl DeepView for Event {
    type V = EventView;

    open spec fn deep_view(&self) -> EventView {
        self@
    }
}

/// What is to be done next.
#[derive(Clone, Debug, PartialEq, Eq)]
pub enum Action {
    /// Fetch the analyses kept for this receipt of this caller.
    Fetch { provider: String, address: String, receipt_id: String },
    /// Write these results out.
    Serialize { results: Vec<OutputData> },
    /// Answer the caller; nothing is left to do.
    Respond { reply: Reply },
}

/// What an [`Action`] holds.
pub enum ActionView {
    Fetch { provider: Seq<char>, address: Seq<char>, receipt_id: Seq<char> },
    Serialize { results: Seq<OutputDataView> },
    Respond { reply: ReplyView },
}

impl View for Action {
    type V = ActionView;

    open spec fn view(&self) -> ActionView {
        match self {
            Action::Fetch { provider, address, receipt_id } => ActionView::Fetch {
                provider: provider@,
                address: address@,
                receipt_id: receipt_id@,
            },
            Action::Serialize { results } => ActionView::Serialize { results: results.deep_view() },
            Action::Respond { reply } => ActionView::Respond { reply: reply@ },
        }
    }
}

impl DeepView for Action {
    type V = ActionView;

    open spec fn deep_view(&self) -> ActionView {
        self@
    }
}

impl EventView {
    /// What each event calls for.
    ///
    /// A request that names no receipt is a bad request; one that names a
    /// receipt has its analyses fetched. A failed fetch is answered as not
    /// found. Fetched analyses are transformed, those that could not be
    /// read being passed over, and the results are written out. What was
    /// written out is the answer.
    pub open spec fn calls_for(self) -> ActionView {
        match self {
            EventView::Received { provider, address, receipt_id } => match receipt_id {
                Some(receipt_id) => ActionView::Fetch { provider, address, receipt_id },
                None => ActionView::Respond { reply: failure(400, missing_receipt_message()) },
            },
            EventView::FetchFailed { cause } => ActionView::Respond {
                reply: failure(404, not_found_message(cause)),
            },
            EventView::Fetched { batch } => ActionView::Serialize {
                results: projected_batch(batch),
            },
            EventView::Serialized { body } => ActionView::Respond {
                reply: ReplyView { status: 200, content_type: json(), body },
            },
        }
    }
}

/// Every request is answered with one of three statuses, and only a
/// request that was served to the end is answered with 200.
pub proof fn lemma_replies(event: EventView)
    ensures
        event.calls_for() matches ActionView::Respond { reply } ==> {
            &&& reply.content_type == json()
            &&& reply.status == 200 || reply.status == 400 || reply.status == 404
            &&& reply.status == 200 <==> event is Serialized
            &&& reply.status == 400 <==> event is Received
            &&& reply.status == 404 <==> event is FetchFailed
        },
{
}

/// Decides what is to be done after `event`.
pub fn next(event: Event) -> (action: Action)
    ensures
        action@ == event@.calls_for(),
{
    match event {
        Event::Received { provider, address, receipt_id } => match receipt_id {
            Some(receipt_id) => Action::Fetch { provider, address, receipt_id },
            None => Action::Respond { reply: missing_receipt_id() },
        },
        Event::FetchFailed { cause } => Action::Respond { reply: not_found(cause.as_str()) },
        Event::Fetched { batch } => Action::Serialize { results: process_batch(&batch) },
        Event::Serialized { body } => Action::Respond { reply: success(body) },
    }
}

} // verus!
