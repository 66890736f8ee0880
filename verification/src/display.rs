//! The display.

use crate::geometry::Rect;
use vstd::prelude::*;

verus! {

/// The number that bytes make up, the most significant byte first.
pub open spec fn big_endian(bytes: Seq<u8>) -> nat
    decreases bytes.len(),
{
    if bytes.len() == 0 {
        0
    } else {
        256 * big_endian(bytes.drop_last()) + bytes.last() as nat
    }
}

/// Calls `uuid::Uuid::from_bytes`, which makes an identifier of bytes as they
/// are, and gives it as the number that the bytes make up, the most significant
/// byte first.
#[verifier::external_body]
fn uuid_from_bytes(bytes: [u8; 16]) -> (r: u128)
    ensures
        r == big_endian(bytes@),
{
    uuid::Uuid::from_bytes(bytes).as_u128()
}

/// The identifier of the display within the application.
pub fn display_id() -> (r: u32)
    ensures
        r == 0,
{
    0
}

/// The identifier of the display that stays the same from one start to the next,
/// as a number.
pub fn uuid() -> (r: u128)
    ensures
        r == 1,
{
    let bytes: [u8; 16] = [
        0x00,
        0x00,
        0x00,
        0x00,
        0x00,
        0x00,
        0x00,
        0x00,
        0x00,
        0x00,
        0x00,
        0x00,
        0x00,
        0x00,
        0x00,
        0x01,
    ];
    proof {
        assert(bytes@.drop_last() =~= Seq::new(15, |i: int| 0u8));
        lemma_zeros(15);
    }
    uuid_from_bytes(bytes)
}

proof fn lemma_zeros(n: nat)
    ensures
        big_endian(Seq::new(n, |i: int| 0u8)) == 0,
    decreases n,
{
    if n > 0 {
        lemma_zeros((n - 1) as nat);
        assert(Seq::new(n, |i: int| 0u8).drop_last() =~= Seq::new((n - 1) as nat, |i: int| 0u8));
    }
}

/// A size in device pixels.
#[derive(Clone, Copy, Debug, PartialEq, Eq, Structural)]
pub struct DeviceSize {
    pub width: u32,
    pub height: u32,
}

/// A length of at least one pixel.
pub open spec fn at_least_one(length: i32) -> u32 {
    if length > 1 {
        length as u32
    } else {
        1
    }
}

fn visible_length(length: i32) -> (r: u32)
    ensures
        r == at_least_one(length),
{
    if length > 1 {
        length as u32
    } else {
        1
    }
}

/// The size of the display: what the system reports, or the size of the drawable
/// surface where it reports none.
pub open spec fn size_of_display(reported: DeviceSize, content: Rect) -> DeviceSize {
    if reported.width > 0 && reported.height > 0 {
        reported
    } else {
        DeviceSize { width: at_least_one(content.width), height: at_least_one(content.height) }
    }
}

/// The size of the display.
pub fn bounds(reported: DeviceSize, content: Rect) -> (r: DeviceSize)
    ensures
        r == size_of_display(reported, content),
{
    if reported.width > 0 && reported.height > 0 {
        reported
    } else {
        DeviceSize { width: visible_length(content.width), height: visible_length(content.height) }
    }
}

/// A display is never empty.
pub proof fn law_display_is_never_empty(reported: DeviceSize, content: Rect)
    ensures
        size_of_display(reported, content).width > 0,
        size_of_display(reported, content).height > 0,
{
}

/// The display is as large as the system reports. Where it does not report both
/// lengths, each is that of the drawable surface, and a single pixel where that has
/// none.
pub proof fn law_display_size(reported: DeviceSize, content: Rect)
    ensures
        ({
            let size = size_of_display(reported, content);
            &&& reported.width != 0 && reported.height != 0 ==> size.width == reported.width
                && size.height == reported.height
            &&& reported.width == 0 || reported.height == 0 ==> {
                &&& content.width >= 1 ==> size.width == content.width
                &&& content.width < 1 ==> size.width == 1
                &&& content.height >= 1 ==> size.height == content.height
                &&& content.height < 1 ==> size.height == 1
            }
        }),
{
}

} // verus!
