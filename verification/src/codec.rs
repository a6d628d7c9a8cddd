//! The signature codec: big-endian integers of any length to the fixed
//! 64-byte `r || s` form.

use vstd::prelude::*;
use crate::der::{der_scalars, read_der_signature};
use crate::error::IdentityError;
use crate::laws::{lemma_minimal_is_no_longer, raw_signature_round_trip};

verus! {

/// Width in bytes of each of the two fields of a raw signature.
pub const FIELD_WIDTH: usize = 32;

/// Length in bytes of a raw signature.
pub const RAW_LENGTH: usize = 64;

/// The number that `bytes` denotes as a big-endian unsigned integer.
pub open spec fn be_value(bytes: Seq<u8>) -> nat
    decreases bytes.len(),
{
    if bytes.len() == 0 {
        0
    } else {
        be_value(bytes.drop_last()) * 256 + bytes.last() as nat
    }
}

/// How many zero bytes stand at the front of `bytes`.
pub open spec fn leading_zeros(bytes: Seq<u8>) -> nat
    decreases bytes.len(),
{
    if bytes.len() > 0 && bytes[0] == 0 {
        1 + leading_zeros(bytes.skip(1))
    } else {
        0
    }
}

/// The minimal big-endian representation: `bytes` without its leading zeros.
pub open spec fn minimal(bytes: Seq<u8>) -> Seq<u8> {
    bytes.skip(leading_zeros(bytes) as int)
}

/// `count` zero bytes.
pub open spec fn zeros(count: nat) -> Seq<u8> {
    Seq::new(count, |i: int| 0u8)
}

/// Whether the integer that `bytes` denotes may go into one field of a raw
/// signature for a curve whose order takes `curve_order_size` bytes.
pub open spec fn representable(bytes: Seq<u8>, curve_order_size: nat) -> bool {
    minimal(bytes).len() <= curve_order_size && minimal(bytes).len() <= FIELD_WIDTH
}

/// One field of a raw signature: the minimal representation, right-aligned
/// and filled up with zeros on the left.
pub open spec fn field(bytes: Seq<u8>) -> Seq<u8>
    recommends
        minimal(bytes).len() <= FIELD_WIDTH,
{
    zeros((FIELD_WIDTH - minimal(bytes).len()) as nat) + minimal(bytes)
}

/// The raw signature of the integers `r` and `s`.
pub open spec fn raw_signature(r: Seq<u8>, s: Seq<u8>) -> Seq<u8> {
    field(r) + field(s)
}

/// The raw signature that a DER-encoded signature stands for, or `None`
/// where the input is rejected as DER or one of its integers does not go
/// into a field.
pub open spec fn raw_of_der(der: Seq<u8>, curve_order_size: nat) -> Option<Seq<u8>> {
    match der_scalars(der) {
        Some((r, s)) => {
            if representable(r, curve_order_size) && representable(s, curve_order_size) {
                Some(raw_signature(r, s))
            } else {
                None
            }
        },
        None => None,
    }
}

/// A prefix of zeros followed by the end of the input or a nonzero byte is
/// the whole run of leading zeros.
pub proof fn lemma_leading_zeros_is(bytes: Seq<u8>, count: nat)
    requires
        count <= bytes.len(),
        forall|i: int| 0 <= i < count ==> bytes[i] == 0,
        count < bytes.len() ==> bytes[count as int] != 0,
    ensures
        leading_zeros(bytes) == count,
    decreases bytes.len(),
{
    if count > 0 {
        let rest = bytes.skip(1);
        assert forall|i: int| 0 <= i < count - 1 implies rest[i] == 0 by {
            assert(rest[i] == bytes[i + 1]);
        }
        lemma_leading_zeros_is(rest, (count - 1) as nat);
    }
}

/// Index of the first significant byte of `bytes`: the number of its leading
/// zero bytes.
pub fn significant_start(bytes: &[u8]) -> (start: usize)
    ensures
        start == leading_zeros(bytes@),
        start <= bytes@.len(),
{
    let mut start: usize = 0;
    while start < bytes.len() && bytes[start] == 0
        invariant
            start <= bytes@.len(),
            forall|i: int| 0 <= i < start ==> bytes@[i] == 0,
        decreases bytes@.len() - start,
    {
        start += 1;
    }
    proof {
        lemma_leading_zeros_is(bytes@, start as nat);
    }
    start
}

/// One 32-byte field of a raw signature for the integer that `bytes` denotes,
/// or `None` where the integer takes more than `curve_order_size` bytes or
/// more than the field has.
pub fn fixed_field(bytes: &[u8], curve_order_size: usize) -> (res: Option<[u8; 32]>)
    ensures
        match res {
            Some(out) => representable(bytes@, curve_order_size as nat) && out@ == field(bytes@),
            None => !representable(bytes@, curve_order_size as nat),
        },
{
    let start = significant_start(bytes);
    let total = bytes.len();
    let length = total - start;
    if length > curve_order_size || length > FIELD_WIDTH {
        return None;
    }
    let pad = FIELD_WIDTH - length;
    let mut out = [0u8; 32];
    let mut i: usize = 0;
    while i < length
        invariant
            i <= length,
            total == bytes@.len(),
            start + length == total,
            pad + length == FIELD_WIDTH,
            forall|j: int| 0 <= j < pad ==> out@[j] == 0,
            forall|j: int| pad <= j < pad + i ==> out@[j] == bytes@[j - pad + start],
        decreases length - i,
    {
        out[pad + i] = bytes[start + i];
        i += 1;
    }
    assert(out@ =~= field(bytes@));
    Some(out)
}

/// The raw signature of the big-endian integers `r` and `s`, which may come
/// with leading zeros or without.
///
/// Fails with `MalformedSignature` exactly when one of the two takes more
/// than `curve_order_size` bytes, or more than the 32 of a field, once its
/// leading zeros are gone.
pub fn raw_from_scalars(
    r: &[u8],
    s: &[u8],
    curve_order_size: usize,
) -> (res: Result<[u8; 64], IdentityError>)
    ensures
        match res {
            Ok(raw) => {
                &&& representable(r@, curve_order_size as nat)
                &&& representable(s@, curve_order_size as nat)
                &&& raw@ == raw_signature(r@, s@)
                &&& be_value(raw@.subrange(0, 32)) == be_value(r@)
                &&& be_value(raw@.subrange(32, 64)) == be_value(s@)
            },
            Err(error) => {
                &&& error == IdentityError::MalformedSignature
                &&& !representable(r@, curve_order_size as nat) || !representable(
                    s@,
                    curve_order_size as nat,
                )
            },
        },
{
    let r_field = match fixed_field(r, curve_order_size) {
        Some(out) => out,
        None => { return Err(IdentityError::MalformedSignature); },
    };
    let s_field = match fixed_field(s, curve_order_size) {
        Some(out) => out,
        None => { return Err(IdentityError::MalformedSignature); },
    };
    let mut raw = [0u8; 64];
    let mut i: usize = 0;
    while i < FIELD_WIDTH
        invariant
            i <= FIELD_WIDTH,
            forall|j: int| 0 <= j < i ==> raw@[j] == r_field@[j],
            forall|j: int|
                FIELD_WIDTH <= j < FIELD_WIDTH + i ==> raw@[j] == s_field@[j - FIELD_WIDTH],
        decreases FIELD_WIDTH - i,
    {
        raw[i] = r_field[i];
        raw[FIELD_WIDTH + i] = s_field[i];
        i += 1;
    }
    proof {
        assert(raw@ =~= raw_signature(r@, s@));
        raw_signature_round_trip(r@, s@, curve_order_size as nat);
    }
    Ok(raw)
}

/// Converts a DER-encoded ECDSA signature to raw form for a curve whose
/// order takes `curve_order_size` bytes.
///
/// Fails with `MalformedSignature` exactly when the input is rejected as DER
/// or one of its integers takes more than `curve_order_size` bytes or more
/// than a field has. Nothing is handed out on failure. With a
/// `curve_order_size` of 32 or more only the first can happen: the parser
/// accepts no integer that is wider.
pub fn der_to_raw_sized(
    der: &[u8],
    curve_order_size: usize,
) -> (res: Result<[u8; 64], IdentityError>)
    ensures
        match res {
            Ok(raw) => raw_of_der(der@, curve_order_size as nat) == Some(raw@),
            Err(error) => {
                &&& error == IdentityError::MalformedSignature
                &&& raw_of_der(der@, curve_order_size as nat) is None
            },
        },
        curve_order_size >= FIELD_WIDTH ==> (res is Ok <==> der_scalars(der@) is Some),
{
    match read_der_signature(der) {
        Ok((r, s)) => {
            proof {
                lemma_minimal_is_no_longer(r@);
                lemma_minimal_is_no_longer(s@);
            }
            raw_from_scalars(r.as_slice(), s.as_slice(), curve_order_size)
        },
        Err(_) => Err(IdentityError::MalformedSignature),
    }
}

/// Converts a DER-encoded ECDSA signature to the 64 bytes `r || s`, each
/// integer big-endian in 32 bytes.
///
/// Fails with `MalformedSignature` exactly when the input is rejected as a
/// DER-encoded P-256 signature.
pub fn der_to_raw(der: &[u8]) -> (res: Result<[u8; 64], IdentityError>)
    ensures
        match res {
            Ok(raw) => raw_of_der(der@, FIELD_WIDTH as nat) == Some(raw@),
            Err(error) => {
                &&& error == IdentityError::MalformedSignature
                &&& raw_of_der(der@, FIELD_WIDTH as nat) is None
            },
        },
        res is Ok <==> der_scalars(der@) is Some,
{
    der_to_raw_sized(der, FIELD_WIDTH)
}

} // verus!
