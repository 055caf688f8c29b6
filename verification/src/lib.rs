//! Turns the analysis of a scanned receipt into what a client is shown.
//!
//! An analysis lists the text blocks of a page, the line items of the
//! receipt as typed fields, and summary fields such as the total. Three
//! projections, each on its own part, reduce it: [`block`] to text with
//! confidence, [`line_item`] to one record per line item with a slot per
//! role, [`summary`] to one keyed entry per field. [`format`] runs the three
//! and puts the result together; [`handler`] decides what the endpoint does
//! around that.
//!
//! Every function comes with a contract over the views of its arguments,
//! and the rules that relate several functions are stated as lemmas beside
//! them.

pub mod authorization_context;
pub mod block;
pub mod detection;
pub mod field_response;
pub mod format;
pub mod geometry;
pub mod handler;
pub mod input_data;
pub mod line_item;
pub mod number;
pub mod output_data;
pub mod response;
pub mod storage;
pub mod summary;
pub mod text;
