//! Blocks reduced to text and confidence.

use receipt_format::block::{
    process, project, Block, BlockType, Relationship, ResponseBlock, TextType, TypeEnum,
};
use receipt_format::geometry::{BoundingBox, Geometry, Polygon};
use receipt_format::number::Number;

fn n(value: f64) -> Number {
    Number::from_bits(value.to_bits())
}

fn as_double(number: Number) -> f64 {
    f64::from_bits(number.to_bits())
}

fn nowhere() -> Geometry {
    Geometry {
        bounding_box: BoundingBox { height: n(0.0), left: n(0.0), top: n(0.0), width: n(0.0) },
        polygon: vec![],
    }
}

fn line(text: &str, confidence: f64) -> Block {
    Block {
        block_type: BlockType::Line,
        geometry: nowhere(),
        id: String::from("line"),
        relationships: None,
        confidence: Some(n(confidence)),
        text: Some(String::from(text)),
        page: Some(1),
        text_type: Some(TextType::Printed),
    }
}

#[test]
fn test_process_blocks() {
    let block = Block {
        page: Some(1),
        text_type: Some(TextType::Printed),
        block_type: BlockType::Line,
        confidence: Some(n(99.76323)),
        geometry: {
            Geometry {
                bounding_box: {
                    BoundingBox {
                        height: n(0.014501625),
                        left: n(0.26956508),
                        top: n(0.11528842),
                        width: n(0.12523548),
                    }
                },
                polygon: vec![
                    { Polygon { x: n(0.269567), y: n(0.11630608) } },
                    { Polygon { x: n(0.269567), y: n(0.11630608) } },
                    { Polygon { x: n(0.269567), y: n(0.11630608) } },
                    { Polygon { x: n(0.269567), y: n(0.11630608) } },
                ],
            }
        },
        id: String::from("04df9ccd-95c6-462e-b344-64f4640f82a1"),
        relationships: Some(vec![{
            Relationship {
                ids: vec![
                    String::from("18eb9cab-3cc1-4f57-96d8-03428b1c5d0f"),
                    String::from("18eb9cab-3cc1-4f57-96d8-03428b1c5d0f"),
                    String::from("18eb9cab-3cc1-4f57-96d8-03428b1c5d0f"),
                ],
                relationship_type: TypeEnum::Child,
            }
        }]),
        text: Some(String::from("to win $1000")),
    };

    let result = process(&vec![block]);

    assert_eq!(result.len(), 1);
    assert_eq!(as_double(result[0].confidence), 99.76323);
    assert_eq!(result[0].text, "to win $1000");
}

#[test]
fn no_blocks_give_no_entries() {
    assert_eq!(process(&vec![]), vec![]);
}

#[test]
fn entries_follow_the_order_of_the_blocks() {
    let blocks = vec![line("first", 10.5), line("second", 20.25), line("third", 30.125)];

    let result = process(&blocks);

    assert_eq!(
        result,
        vec![
            ResponseBlock { confidence: n(10.5), text: String::from("first") },
            ResponseBlock { confidence: n(20.25), text: String::from("second") },
            ResponseBlock { confidence: n(30.125), text: String::from("third") },
        ]
    );
}

#[test]
fn equal_blocks_are_not_folded_together() {
    let blocks = vec![line("same", 50.0), line("same", 50.0)];
    assert_eq!(process(&blocks).len(), 2);
}

#[test]
fn a_page_block_gets_empty_text_and_zero_confidence() {
    let page = Block {
        block_type: BlockType::Page,
        geometry: nowhere(),
        id: String::from("page"),
        relationships: None,
        confidence: None,
        text: None,
        page: None,
        text_type: None,
    };

    let result = process(&vec![line("above", 99.0), page, line("below", 98.0)]);

    assert_eq!(result.len(), 3);
    assert_eq!(result[1].text, "");
    assert_eq!(as_double(result[1].confidence), 0.0);
    assert_eq!(result[1].confidence.to_bits(), 0);
    assert_eq!(result[0].text, "above");
    assert_eq!(result[2].text, "below");
}

#[test]
fn text_and_confidence_default_apart() {
    let mut silent = line("", 75.5);
    silent.text = None;
    let mut unsure = line("faint", 0.0);
    unsure.confidence = None;

    assert_eq!(project(&silent), ResponseBlock { confidence: n(75.5), text: String::new() });
    assert_eq!(project(&unsure), ResponseBlock { confidence: n(0.0), text: String::from("faint") });
}

#[test]
fn text_is_carried_as_it_is() {
    let block = line("  Caf\u{e9} \u{20ac}3,50\n\ttotal  ", 12.0);
    assert_eq!(project(&block).text, "  Caf\u{e9} \u{20ac}3,50\n\ttotal  ");
}

#[test]
fn confidence_is_carried_bit_for_bit() {
    for bits in [0u64, 1, 0x8000_0000_0000_0000, 0x7ff8_0000_0000_0001, u64::MAX] {
        let mut block = line("x", 0.0);
        block.confidence = Some(Number::from_bits(bits));
        assert_eq!(project(&block).confidence.to_bits(), bits);
    }
}

#[test]
fn zero_is_positive_zero() {
    assert_eq!(Number::zero().to_bits(), 0);
    assert_eq!(as_double(Number::zero()), 0.0);
    assert!(as_double(Number::zero()).is_sign_positive());
}
