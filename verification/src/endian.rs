//! Little-endian integers in a byte source.

use byteorder::ByteOrder;
use byteorder::LittleEndian;
use vstd::prelude::*;

verus! {

/// The number that `bytes` spell with the least significant byte first.
pub open spec fn le_value(bytes: Seq<u8>) -> nat
    decreases bytes.len(),
{
    if bytes.len() == 0 {
        0
    } else {
        bytes[0] as nat + 256 * le_value(bytes.drop_first())
    }
}

/// Eight bytes spell a number below 2^64, four a number below 2^32.
pub proof fn le_value_bound(bytes: Seq<u8>)
    ensures
        bytes.len() == 4 ==> le_value(bytes) <= u32::MAX,
        bytes.len() == 8 ==> le_value(bytes) <= u64::MAX,
{
    reveal_with_fuel(le_value, 9);
    if bytes.len() == 4 || bytes.len() == 8 {
        let b = bytes;
        assert(b.drop_first().len() == b.len() - 1);
        assert(b.drop_first().drop_first().len() == b.len() - 2);
        assert(b.drop_first().drop_first().drop_first().len() == b.len() - 3);
        assert(b.drop_first().drop_first().drop_first().drop_first().len() == b.len() - 4);
    }
}

/// `byteorder::LittleEndian::read_u64`: the first eight bytes of `buf` as a
/// number, least significant byte first. It panics on a shorter `buf`, which
/// the precondition leaves out.
#[verifier::external_body]
pub(crate) fn read_u64_le(buf: &[u8]) -> (value: u64)
    requires
        buf@.len() >= 8,
    ensures
        value == le_value(buf@.take(8)),
{
    LittleEndian::read_u64(buf)
}

/// `byteorder::LittleEndian::read_u32`: the first four bytes of `buf` as a
/// number, least significant byte first. It panics on a shorter `buf`, which
/// the precondition leaves out.
#[verifier::external_body]
pub(crate) fn read_u32_le(buf: &[u8]) -> (value: u32)
    requires
        buf@.len() >= 4,
    ensures
        value == le_value(buf@.take(4)),
{
    LittleEndian::read_u32(buf)
}

} // verus!
