//! Little-endian integers as they travel on the wire.

use vstd::arithmetic::div_mod::lemma_breakdown;
use vstd::arithmetic::div_mod::lemma_fundamental_div_mod_converse;
use vstd::prelude::*;

verus! {

/// The `width` low-order base-256 digits of `value`, least significant first.
pub open spec fn le_bytes(value: nat, width: nat) -> Seq<u8>
    decreases width,
{
    if width == 0 {
        Seq::empty()
    } else {
        seq![(value % 256) as u8] + le_bytes(value / 256, (width - 1) as nat)
    }
}

/// The number whose base-256 digits, least significant first, are `bytes`.
pub open spec fn le_value(bytes: Seq<u8>) -> nat
    decreases bytes.len(),
{
    if bytes.len() == 0 {
        0
    } else {
        bytes[0] as nat + 256 * le_value(bytes.drop_first())
    }
}

/// 256 to the power `width`: the number of values that `width` bytes can hold.
pub open spec fn radix_pow(width: nat) -> nat
    decreases width,
{
    if width == 0 {
        1
    } else {
        256 * radix_pow((width - 1) as nat)
    }
}

/// `le_bytes` yields exactly `width` bytes.
pub proof fn lemma_le_bytes_len(value: nat, width: nat)
    ensures
        le_bytes(value, width).len() == width,
    decreases width,
{
    if width > 0 {
        lemma_le_bytes_len(value / 256, (width - 1) as nat);
    }
}

/// The ranges of the three wire widths.
pub proof fn lemma_radix_pow_values()
    ensures
        radix_pow(2) == 0x1_0000,
        radix_pow(4) == 0x1_0000_0000,
        radix_pow(8) == 0x1_0000_0000_0000_0000,
{
    reveal_with_fuel(radix_pow, 9);
}

/// A byte sequence stands for a number below 256 to the power of its length.
pub proof fn lemma_le_value_bound(bytes: Seq<u8>)
    ensures
        le_value(bytes) < radix_pow(bytes.len()),
    decreases bytes.len(),
{
    if bytes.len() > 0 {
        lemma_le_value_bound(bytes.drop_first());
    }
}

/// Reading back the `width` digits of `value` gives `value` modulo 256 to the
/// power `width`.
pub proof fn lemma_le_value_of_le_bytes(value: nat, width: nat)
    ensures
        radix_pow(width) > 0,
        le_value(le_bytes(value, width)) == value % radix_pow(width),
    decreases width,
{
    if width > 0 {
        let rest = (width - 1) as nat;
        lemma_le_value_of_le_bytes(value / 256, rest);
        lemma_le_bytes_len(value / 256, rest);
        assert(le_bytes(value, width).drop_first() =~= le_bytes(value / 256, rest));
        lemma_breakdown(value as int, 256, radix_pow(rest) as int);
    }
}

/// Writing the number that `bytes` stands for, at the same width, gives `bytes`.
pub proof fn lemma_le_bytes_of_le_value(bytes: Seq<u8>)
    ensures
        le_bytes(le_value(bytes), bytes.len()) == bytes,
    decreases bytes.len(),
{
    if bytes.len() > 0 {
        let rest = le_value(bytes.drop_first());
        lemma_le_bytes_of_le_value(bytes.drop_first());
        lemma_fundamental_div_mod_converse(le_value(bytes) as int, 256, rest as int, bytes[0] as int);
        assert(le_bytes(le_value(bytes), bytes.len()) =~= bytes);
    }
}

/// A value that fits `width` bytes survives being written and read back.
pub proof fn lemma_le_round_trip(value: nat, width: nat)
    requires
        value < radix_pow(width),
    ensures
        le_value(le_bytes(value, width)) == value,
        le_bytes(value, width).len() == width,
{
    lemma_le_value_of_le_bytes(value, width);
    lemma_le_bytes_len(value, width);
    vstd::arithmetic::div_mod::lemma_small_mod(value, radix_pow(width));
}

/// The two wire bytes of `n`, as `zerocopy::byteorder::U16::<LittleEndian>::new`
/// stores them: the low byte first.
#[verifier::external_body]
pub(crate) fn u16_to_le(n: u16) -> (r: [u8; 2])
    ensures
        r@ == le_bytes(n as nat, 2),
{
    zerocopy::byteorder::U16::<zerocopy::byteorder::LittleEndian>::new(n).into()
}

/// The four wire bytes of `n`, as `zerocopy::byteorder::U32::<LittleEndian>::new`
/// stores them: the low byte first.
#[verifier::external_body]
pub(crate) fn u32_to_le(n: u32) -> (r: [u8; 4])
    ensures
        r@ == le_bytes(n as nat, 4),
{
    zerocopy::byteorder::U32::<zerocopy::byteorder::LittleEndian>::new(n).into()
}

/// The eight wire bytes of `n`, as `zerocopy::byteorder::U64::<LittleEndian>::new`
/// stores them: the low byte first.
#[verifier::external_body]
pub(crate) fn u64_to_le(n: u64) -> (r: [u8; 8])
    ensures
        r@ == le_bytes(n as nat, 8),
{
    zerocopy::byteorder::U64::<zerocopy::byteorder::LittleEndian>::new(n).into()
}

/// The number that two wire bytes stand for, as
/// `zerocopy::byteorder::U16::<LittleEndian>::get` reads them.
#[verifier::external_body]
pub(crate) fn u16_from_le(bytes: [u8; 2]) -> (r: u16)
    ensures
        r as nat == le_value(bytes@),
{
    zerocopy::byteorder::U16::<zerocopy::byteorder::LittleEndian>::from_bytes(bytes).get()
}

/// The number that four wire bytes stand for, as
/// `zerocopy::byteorder::U32::<LittleEndian>::get` reads them.
#[verifier::external_body]
pub(crate) fn u32_from_le(bytes: [u8; 4]) -> (r: u32)
    ensures
        r as nat == le_value(bytes@),
{
    zerocopy::byteorder::U32::<zerocopy::byteorder::LittleEndian>::from_bytes(bytes).get()
}

/// The number that eight wire bytes stand for, as
/// `zerocopy::byteorder::U64::<LittleEndian>::get` reads them.
#[verifier::external_body]
pub(crate) fn u64_from_le(bytes: [u8; 8]) -> (r: u64)
    ensures
        r as nat == le_value(bytes@),
{
    zerocopy::byteorder::U64::<zerocopy::byteorder::LittleEndian>::from_bytes(bytes).get()
}

} // verus!
