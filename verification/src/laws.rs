//! What the raw form means in numbers: a field holds the same integer as
//! the bytes it was made from, and the integer decides the field.

use vstd::prelude::*;
use crate::codec::{
    be_value, field, leading_zeros, minimal, raw_of_der, raw_signature, representable, zeros,
    FIELD_WIDTH,
};
use crate::der::der_scalars;

verus! {

/// 256 to the power `exponent`.
pub open spec fn radix_power(exponent: nat) -> nat
    decreases exponent,
{
    if exponent == 0 {
        1
    } else {
        256 * radix_power((exponent - 1) as nat)
    }
}

/// `radix_power` grows with its exponent.
pub proof fn lemma_radix_power_monotonic(low: nat, high: nat)
    requires
        low <= high,
    ensures
        1 <= radix_power(low) <= radix_power(high),
    decreases high,
{
    if low == 0 {
        if high > 0 {
            lemma_radix_power_monotonic(0, (high - 1) as nat);
        }
    } else {
        lemma_radix_power_monotonic((low - 1) as nat, (high - 1) as nat);
    }
}

/// The value of a concatenation: the front is shifted by the length of the
/// back.
pub proof fn lemma_value_of_concatenation(front: Seq<u8>, back: Seq<u8>)
    ensures
        be_value(front + back) == be_value(front) * radix_power(back.len()) + be_value(back),
    decreases back.len(),
{
    if back.len() == 0 {
        assert(front + back =~= front);
        assert(radix_power(0) == 1);
        assert(be_value(front) * 1 == be_value(front));
    } else {
        let shorter = back.drop_last();
        assert((front + back).drop_last() =~= front + shorter);
        assert((front + back).last() == back.last());
        lemma_value_of_concatenation(front, shorter);
        let high = be_value(front);
        let power = radix_power(shorter.len());
        assert(radix_power(back.len()) == 256 * power);
        assert(be_value(front + back) == be_value(front + shorter) * 256 + back.last() as nat);
        assert(be_value(back) == be_value(shorter) * 256 + back.last() as nat);
        assert((high * power + be_value(shorter)) * 256 == high * (256 * power) + be_value(
            shorter,
        ) * 256) by (nonlinear_arith);
    }
}

/// Zero bytes denote zero.
pub proof fn lemma_value_of_zeros(count: nat)
    ensures
        be_value(zeros(count)) == 0,
    decreases count,
{
    if count > 0 {
        assert(zeros(count).drop_last() =~= zeros((count - 1) as nat));
        lemma_value_of_zeros((count - 1) as nat);
    }
}

/// A value is below 256 to the power of the number of its bytes.
pub proof fn lemma_value_below_power(bytes: Seq<u8>)
    ensures
        be_value(bytes) < radix_power(bytes.len()),
    decreases bytes.len(),
{
    if bytes.len() > 0 {
        lemma_value_below_power(bytes.drop_last());
    }
}

/// The leading zeros are zeros, and what follows them starts with another
/// byte.
pub proof fn lemma_leading_zeros_facts(bytes: Seq<u8>)
    ensures
        leading_zeros(bytes) <= bytes.len(),
        forall|i: int| 0 <= i < leading_zeros(bytes) ==> bytes[i] == 0,
        leading_zeros(bytes) < bytes.len() ==> bytes[leading_zeros(bytes) as int] != 0,
        bytes =~= zeros(leading_zeros(bytes)) + minimal(bytes),
    decreases bytes.len(),
{
    if bytes.len() > 0 && bytes[0] == 0 {
        let rest = bytes.skip(1);
        lemma_leading_zeros_facts(rest);
        assert forall|i: int| 0 <= i < leading_zeros(bytes) implies bytes[i] == 0 by {
            if i > 0 {
                assert(bytes[i] == rest[i - 1]);
            }
        }
        if leading_zeros(bytes) < bytes.len() {
            assert(bytes[leading_zeros(bytes) as int] == rest[leading_zeros(rest) as int]);
        }
    }
}

/// The minimal representation is no longer than what it was made from.
pub proof fn lemma_minimal_is_no_longer(bytes: Seq<u8>)
    ensures
        minimal(bytes).len() <= bytes.len(),
{
    lemma_leading_zeros_facts(bytes);
}

/// Leading zeros do not change the value.
pub proof fn lemma_minimal_keeps_value(bytes: Seq<u8>)
    ensures
        be_value(minimal(bytes)) == be_value(bytes),
{
    lemma_leading_zeros_facts(bytes);
    lemma_value_of_concatenation(zeros(leading_zeros(bytes)), minimal(bytes));
    lemma_value_of_zeros(leading_zeros(bytes));
    assert(0 * radix_power(minimal(bytes).len()) == 0);
}

/// A minimal representation of `n > 0` bytes denotes at least 256 to the
/// power `n - 1`.
pub proof fn lemma_minimal_value_at_least(bytes: Seq<u8>)
    requires
        minimal(bytes).len() > 0,
    ensures
        radix_power((minimal(bytes).len() - 1) as nat) <= be_value(bytes),
{
    lemma_leading_zeros_facts(bytes);
    lemma_minimal_keeps_value(bytes);
    let short = minimal(bytes);
    let head = seq![short[0]];
    let tail = short.skip(1);
    assert(short =~= head + tail);
    lemma_value_of_concatenation(head, tail);
    assert(head.drop_last() =~= Seq::<u8>::empty());
    assert(be_value(Seq::<u8>::empty()) == 0);
    assert(head.last() == short[0]);
    assert(be_value(head) == short[0] as nat);
    assert(short[0] == bytes[leading_zeros(bytes) as int]);
    let power = radix_power(tail.len());
    assert(be_value(head) >= 1);
    assert(be_value(head) * power >= power) by (nonlinear_arith)
        requires
            be_value(head) >= 1,
    ;
}

/// The minimal representation takes at most `width` bytes exactly when the
/// value is below 256 to the power `width`.
pub proof fn lemma_width_is_magnitude(bytes: Seq<u8>, width: nat)
    ensures
        minimal(bytes).len() <= width <==> be_value(bytes) < radix_power(width),
{
    lemma_minimal_keeps_value(bytes);
    let length = minimal(bytes).len();
    if length <= width {
        lemma_value_below_power(minimal(bytes));
        lemma_radix_power_monotonic(length, width);
    } else {
        lemma_minimal_value_at_least(bytes);
        lemma_radix_power_monotonic(width, (length - 1) as nat);
    }
}

/// Two byte strings of one length that denote one value are the same.
pub proof fn lemma_value_decides_bytes(first: Seq<u8>, second: Seq<u8>)
    requires
        first.len() == second.len(),
        be_value(first) == be_value(second),
    ensures
        first == second,
    decreases first.len(),
{
    if first.len() > 0 {
        lemma_value_decides_bytes(first.drop_last(), second.drop_last());
        assert(first =~= first.drop_last().push(first.last()));
        assert(second =~= second.drop_last().push(second.last()));
    }
    assert(first =~= second);
}

/// Two byte strings that denote one value have the same minimal
/// representation.
pub proof fn lemma_value_decides_minimal(first: Seq<u8>, second: Seq<u8>)
    requires
        be_value(first) == be_value(second),
    ensures
        minimal(first) == minimal(second),
{
    lemma_width_is_magnitude(first, minimal(second).len());
    lemma_width_is_magnitude(second, minimal(second).len());
    lemma_width_is_magnitude(first, minimal(first).len());
    lemma_width_is_magnitude(second, minimal(first).len());
    lemma_minimal_keeps_value(first);
    lemma_minimal_keeps_value(second);
    lemma_value_decides_bytes(minimal(first), minimal(second));
}

/// A field is 32 bytes long and denotes the integer it was made from.
pub proof fn lemma_field_keeps_value(bytes: Seq<u8>)
    requires
        minimal(bytes).len() <= FIELD_WIDTH,
    ensures
        field(bytes).len() == FIELD_WIDTH,
        be_value(field(bytes)) == be_value(bytes),
{
    let padding = zeros((FIELD_WIDTH - minimal(bytes).len()) as nat);
    lemma_value_of_concatenation(padding, minimal(bytes));
    lemma_value_of_zeros(padding.len());
    lemma_minimal_keeps_value(bytes);
    assert(0 * radix_power(minimal(bytes).len()) == 0);
}

/// Round trip: where both integers are representable, the raw signature is
/// 64 bytes long, and reading its two halves as big-endian integers gives
/// `r` and `s` back.
pub proof fn raw_signature_round_trip(r: Seq<u8>, s: Seq<u8>, curve_order_size: nat)
    requires
        representable(r, curve_order_size),
        representable(s, curve_order_size),
    ensures
        raw_signature(r, s).len() == 64,
        be_value(raw_signature(r, s).subrange(0, 32)) == be_value(r),
        be_value(raw_signature(r, s).subrange(32, 64)) == be_value(s),
{
    lemma_field_keeps_value(r);
    lemma_field_keeps_value(s);
    assert(raw_signature(r, s).subrange(0, 32) =~= field(r));
    assert(raw_signature(r, s).subrange(32, 64) =~= field(s));
}

/// Round trip through DER: the raw signature of an accepted DER signature
/// whose integers are representable is 64 bytes long, and its two halves
/// denote the integers `r` and `s` that the DER signature holds.
pub proof fn der_round_trip(der: Seq<u8>, r: Seq<u8>, s: Seq<u8>, curve_order_size: nat)
    requires
        der_scalars(der) == Some((r, s)),
        representable(r, curve_order_size),
        representable(s, curve_order_size),
    ensures
        raw_of_der(der, curve_order_size) == Some(raw_signature(r, s)),
        raw_signature(r, s).len() == 64,
        be_value(raw_signature(r, s).subrange(0, 32)) == be_value(r),
        be_value(raw_signature(r, s).subrange(32, 64)) == be_value(s),
{
    raw_signature_round_trip(r, s, curve_order_size);
}

/// Uniqueness: the raw signature depends on the two integers alone, not on
/// how many leading zeros they were written with, and different integers
/// give different raw signatures.
pub proof fn raw_signature_unique(
    r: Seq<u8>,
    s: Seq<u8>,
    other_r: Seq<u8>,
    other_s: Seq<u8>,
    curve_order_size: nat,
)
    requires
        representable(r, curve_order_size),
        representable(s, curve_order_size),
        representable(other_r, curve_order_size),
        representable(other_s, curve_order_size),
    ensures
        raw_signature(r, s) == raw_signature(other_r, other_s) <==> be_value(r) == be_value(
            other_r,
        ) && be_value(s) == be_value(other_s),
{
    raw_signature_round_trip(r, s, curve_order_size);
    raw_signature_round_trip(other_r, other_s, curve_order_size);
    if be_value(r) == be_value(other_r) && be_value(s) == be_value(other_s) {
        lemma_value_decides_minimal(r, other_r);
        lemma_value_decides_minimal(s, other_s);
    }
}

/// Padding: an integer written in at most 32 bytes goes into its field
/// as it is, behind as many zero bytes as are missing.
pub proof fn field_pads_on_the_left(bytes: Seq<u8>)
    requires
        bytes.len() <= FIELD_WIDTH,
    ensures
        field(bytes) == zeros((FIELD_WIDTH - bytes.len()) as nat) + bytes,
{
    lemma_leading_zeros_facts(bytes);
    assert(field(bytes) =~= zeros((FIELD_WIDTH - bytes.len()) as nat) + bytes);
}

/// Oversize: an integer is representable exactly when it is below 256 to
/// the power of the smaller of `curve_order_size` and 32.
pub proof fn representable_is_a_bound(bytes: Seq<u8>, curve_order_size: nat)
    ensures
        representable(bytes, curve_order_size) <==> be_value(bytes) < radix_power(
            curve_order_size,
        ) && be_value(bytes) < radix_power(FIELD_WIDTH as nat),
{
    lemma_width_is_magnitude(bytes, curve_order_size);
    lemma_width_is_magnitude(bytes, FIELD_WIDTH as nat);
}

} // verus!
