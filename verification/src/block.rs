//! Text blocks of the page and their projection to text with confidence.

use vstd::prelude::*;
use crate::geometry::{Geometry, GeometryView};
use crate::number::{number_or_zero, or_zero, Number};
use crate::text::{or_empty, owned_or_empty};

verus! {

/// The granularity of a block.
#[derive(Clone, Copy, Debug, PartialEq, Eq, Structural)]
pub enum BlockType {
    Line,
    Page,
    Word,
}

/// How the text of a block was put on paper.
#[derive(Clone, Copy, Debug, PartialEq, Eq, Structural)]
pub enum TextType {
    Printed,
}

/// The kind of a relationship between blocks.
#[derive(Clone, Copy, Debug, PartialEq, Eq, Structural)]
pub enum TypeEnum {
    Child,
}

/// A set of blocks that stand in one relationship to the block that lists
/// them.
#[derive(Clone, Debug, PartialEq, Eq)]
pub struct Relationship {
    pub ids: Vec<String>,
    pub relationship_type: TypeEnum,
}

/// What a [`Relationship`] holds.
pub struct RelationshipView {
    pub ids: Seq<Seq<char>>,
    pub relationship_type: TypeEnum,
}

impl View for Relationship {
    type V = RelationshipView;

    open spec fn view(&self) -> RelationshipView {
        RelationshipView {
            ids: self.ids.deep_view(),
            relationship_type: self.relationship_type,
        }
    }
}

impl DeepView for Relationship {
    type V = RelationshipView;

    open spec fn deep_view(&self) -> RelationshipView {
        self@
    }
}

/// One unit of detected text: a page, a line or a word.
///
/// A page block carries neither text nor confidence.
#[derive(Clone, Debug, PartialEq, Eq)]
pub struct Block {
    pub block_type: BlockType,
    pub geometry: Geometry,
    pub id: String,
    pub relationships: Option<Vec<Relationship>>,
    pub confidence: Option<Number>,
    pub text: Option<String>,
    pub page: Option<i64>,
    pub text_type: Option<TextType>,
}

/// What a [`Block`] holds.
pub struct BlockView {
    pub block_type: BlockType,
    pub geometry: GeometryView,
    pub id: Seq<char>,
    pub relationships: Option<Seq<RelationshipView>>,
    pub confidence: Option<Number>,
    pub text: Option<Seq<char>>,
    pub page: Option<i64>,
    pub text_type: Option<TextType>,
}

impl View for Block {
    type V = BlockView;

    open spec fn view(&self) -> BlockView {
        BlockView {
            block_type: self.block_type,
            geometry: self.geometry@,
            id: self.id@,
            relationships: self.relationships.deep_view(),
            confidence: self.confidence,
            text: self.text.deep_view(),
            page: self.page,
            text_type: self.text_type,
        }
    }
}

impl DeepView for Block {
    type V = BlockView;

    open spec fn deep_view(&self) -> BlockView {
        self@
    }
}

/// A block reduced to its text and the confidence in it.
#[derive(Clone, Debug, PartialEq, Eq)]
pub struct ResponseBlock {
    pub confidence: Number,
    pub text: String,
}

/// What a [`ResponseBlock`] holds.
pub struct ResponseBlockView {
    pub confidence: Number,
    pub text: Seq<char>,
}

impl View for ResponseBlock {
    type V = ResponseBlockView;

    open spec fn view(&self) -> ResponseBlockView {
        ResponseBlockView { confidence: self.confidence, text: self.text@ }
    }
}

impl DeepView for ResponseBlock {
    type V = ResponseBlockView;

    open spec fn deep_view(&self) -> ResponseBlockView {
        self@
    }
}

impl BlockView {
    /// The block's text and confidence, with empty text and zero confidence
    /// standing in for what the block lacks.
    pub open spec fn projected(self) -> ResponseBlockView {
        ResponseBlockView { confidence: or_zero(self.confidence), text: or_empty(self.text) }
    }
}

/// The projection of each block, in the order of the blocks.
pub open spec fn projected(blocks: Seq<BlockView>) -> Seq<ResponseBlockView> {
    Seq::new(blocks.len(), |i: int| blocks[i].projected())
}

/// Reduces one block to its text and confidence.
pub fn project(block: &Block) -> (out: ResponseBlock)
    ensures
        out@ == block@.projected(),
{
    ResponseBlock {
        confidence: number_or_zero(&block.confidence),
        text: owned_or_empty(&block.text),
    }
}

/// Reduces every block to its text and confidence.
///
/// The result has one entry per block, in the same order; an entry takes
/// empty text or zero confidence where its block has none.
pub fn process(blocks: &Vec<Block>) -> (out: Vec<ResponseBlock>)
    ensures
        out.deep_view() == projected(blocks.deep_view()),
        out@.len() == blocks@.len(),
        forall|i: int| 0 <= i < blocks@.len() ==> #[trigger] out@[i]@ == blocks@[i]@.projected(),
{
    let mut out: Vec<ResponseBlock> = Vec::new();
    let mut i: usize = 0;
    while i < blocks.len()
        invariant
            i <= blocks@.len(),
            out@.len() == i,
            forall|j: int| 0 <= j < i ==> #[trigger] out@[j]@ == blocks@[j]@.projected(),
        decreases blocks@.len() - i,
    {
        out.push(project(&blocks[i]));
        i += 1;
    }
    proof {
        assert(out.deep_view() =~= projected(blocks.deep_view()));
    }
    out
}

} // verus!
