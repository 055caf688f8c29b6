//! Where the analyses of a receipt are kept.

use vstd::prelude::*;

verus! {

/// The place under which the analyses of one receipt of one caller lie:
/// the bucket's resource name, then provider, address and receipt, each
/// after a slash.
pub open spec fn location_of(
    bucket: Seq<char>,
    provider: Seq<char>,
    address: Seq<char>,
    receipt_id: Seq<char>,
) -> Seq<char> {
    "arn:aws:s3:::"@ + bucket + "/"@ + provider + "/"@ + address + "/"@ + receipt_id
}

/// The place under which the analyses of one receipt of one caller lie.
pub fn location(bucket: &str, provider: &str, address: &str, receipt_id: &str) -> (place: String)
    ensures
        place@ == location_of(bucket@, provider@, address@, receipt_id@),
{
    let mut place = "arn:aws:s3:::".to_owned();
    place.append(bucket);
    place.append("/");
    place.append(provider);
    place.append("/");
    place.append(address);
    place.append("/");
    place.append(receipt_id);
    place
}

} // verus!
