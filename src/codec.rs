//! Wire payloads and the byte-truncation policy.
use vstd::arithmetic::div_mod::lemma_basic_div;
use vstd::arithmetic::power2::{lemma2_to64, lemma_pow2_pos, lemma_pow2_strictly_increases, pow2};
use vstd::bits::lemma_u32_shr_is_div;
use vstd::prelude::*;

verus! {

/// Sign bit of an `f32` bit pattern.
pub open spec fn sign_field(bits: u32) -> u32 {
    bits >> 31u32
}

/// Biased exponent field of an `f32` bit pattern.
pub open spec fn exponent_field(bits: u32) -> u32 {
    (bits >> 23u32) & 0xffu32
}

/// Fraction field of an `f32` bit pattern.
pub open spec fn fraction_field(bits: u32) -> u32 {
    bits & 0x7f_ffffu32
}

/// Integer significand of a finite `f32`: the value's magnitude is
/// `significand(bits) * 2^binary_exponent(bits)`.
pub open spec fn significand(bits: u32) -> nat {
    if exponent_field(bits) == 0 {
        fraction_field(bits) as nat
    } else {
        fraction_field(bits) as nat + 0x80_0000
    }
}

pub open spec fn binary_exponent(bits: u32) -> int {
    if exponent_field(bits) == 0 {
        -149
    } else {
        exponent_field(bits) - 150
    }
}

/// The integer part of `m * 2^e` (the fraction discarded).
pub open spec fn integer_part(m: nat, e: int) -> nat {
    if e >= 0 {
        m * pow2(e as nat)
    } else {
        m / pow2((-e) as nat)
    }
}

/// Magnitude of a finite `f32`, with its fractional part discarded.
pub open spec fn truncated_magnitude(bits: u32) -> nat {
    integer_part(significand(bits), binary_exponent(bits))
}

/// The byte that an `f32` narrows to: the fraction is discarded, negative
/// values and NaN give 0, and values of 256 and above (positive infinity
/// included) give 255.
pub open spec fn byte_truncate(bits: u32) -> u8 {
    if exponent_field(bits) == 0xff {
        if fraction_field(bits) == 0 && sign_field(bits) == 0 {
            255
        } else {
            0
        }
    } else if sign_field(bits) == 1 {
        0
    } else if truncated_magnitude(bits) > 255 {
        255
    } else {
        truncated_magnitude(bits) as u8
    }
}

/// Narrows the `f32` whose bit pattern is `bits` to a byte, without rounding.
pub fn truncate_to_byte(bits: u32) -> (r: u8)
    ensures
        r == byte_truncate(bits),
{
    let sign: u32 = bits >> 31u32;
    let exp: u32 = (bits >> 23u32) & 0xffu32;
    let frac: u32 = bits & 0x7f_ffffu32;
    assert(sign == 0 || sign == 1) by (bit_vector)
        requires
            sign == bits >> 31u32,
    ;
    assert(frac < 0x80_0000) by (bit_vector)
        requires
            frac == bits & 0x7f_ffffu32,
    ;
    assert(exp <= 0xff) by (bit_vector)
        requires
            exp == (bits >> 23u32) & 0xffu32,
    ;
    if exp == 0xff {
        if frac == 0 && sign == 0 {
            255
        } else {
            0
        }
    } else if sign == 1 {
        0
    } else if exp < 127 {
        proof {
            let sh: nat = (-binary_exponent(bits)) as nat;
            lemma2_to64();
            lemma_pow2_pos(24);
            if sh > 24 {
                lemma_pow2_strictly_increases(24, sh);
            }
            lemma_basic_div(significand(bits) as int, pow2(sh) as int);
        }
        0
    } else if exp >= 150 {
        proof {
            let e: nat = binary_exponent(bits) as nat;
            lemma_pow2_pos(e);
            assert(significand(bits) * pow2(e) >= significand(bits)) by (nonlinear_arith)
                requires
                    pow2(e) > 0,
            ;
        }
        255
    } else {
        let m: u32 = frac | 0x80_0000u32;
        assert(m == frac + 0x80_0000) by (bit_vector)
            requires
                frac < 0x80_0000,
                m == frac | 0x80_0000u32,
        ;
        let q: u32 = m >> (150 - exp);
        proof {
            lemma_u32_shr_is_div(m, (150 - exp) as u32);
        }
        if q > 255 {
            255
        } else {
            q as u8
        }
    }
}

/// One 2-D control input: the two components as `f32` bit patterns.
#[derive(Clone, Copy, Debug, PartialEq, Eq, Structural)]
pub struct InputSample {
    pub x0: u32,
    pub x1: u32,
}

/// The four big-endian bytes of `v`.
pub open spec fn be_bytes(v: u32) -> Seq<u8> {
    seq![
        (v / 0x100_0000) as u8,
        ((v / 0x1_0000) % 0x100) as u8,
        ((v / 0x100) % 0x100) as u8,
        (v % 0x100) as u8,
    ]
}

/// The value of four big-endian bytes.
pub open spec fn be_value(b: Seq<u8>) -> u32
    recommends
        b.len() == 4,
{
    (b[0] * 0x100_0000 + b[1] * 0x1_0000 + b[2] * 0x100 + b[3]) as u32
}

/// The input payload: `x0` then `x1`, each as four big-endian bytes.
pub open spec fn input_payload(x: InputSample) -> Seq<u8> {
    be_bytes(x.x0) + be_bytes(x.x1)
}

/// What a received input payload stands for: a sample exactly when it is
/// eight bytes long.
pub open spec fn input_from_payload(p: Seq<u8>) -> Option<InputSample> {
    if p.len() == 8 {
        Some(InputSample { x0: be_value(p.subrange(0, 4)), x1: be_value(p.subrange(4, 8)) })
    } else {
        None
    }
}

/// The signal payload: one truncated byte per channel.
pub open spec fn signal_payload(z: Seq<u32>) -> Seq<u8> {
    Seq::new(z.len(), |i: int| byte_truncate(z[i]))
}

fn push_be_bytes(out: &mut Vec<u8>, v: u32)
    ensures
        final(out)@ == old(out)@ + be_bytes(v),
{
    out.push((v / 0x100_0000) as u8);
    out.push(((v / 0x1_0000) % 0x100) as u8);
    out.push(((v / 0x100) % 0x100) as u8);
    out.push((v % 0x100) as u8);
    assert(final(out)@ =~= old(out)@ + be_bytes(v));
}

/// Serialises an input sample into its eight-byte wire form.
pub fn encode_input(x: InputSample) -> (r: Vec<u8>)
    ensures
        r@ == input_payload(x),
        r@.len() == 8,
{
    let mut out: Vec<u8> = Vec::with_capacity(8);
    push_be_bytes(&mut out, x.x0);
    push_be_bytes(&mut out, x.x1);
    assert(out@ =~= input_payload(x));
    out
}

/// Reads an input payload back; `None` unless it is exactly eight bytes.
pub fn decode_input(p: &Vec<u8>) -> (r: Option<InputSample>)
    ensures
        r == input_from_payload(p@),
{
    if p.len() != 8 {
        return None;
    }
    let x0: u32 = (p[0] as u32) * 0x100_0000 + (p[1] as u32) * 0x1_0000 + (p[2] as u32) * 0x100
        + (p[3] as u32);
    let x1: u32 = (p[4] as u32) * 0x100_0000 + (p[5] as u32) * 0x1_0000 + (p[6] as u32) * 0x100
        + (p[7] as u32);
    Some(InputSample { x0, x1 })
}

/// Serialises a signal vector: channel `i` becomes `byte_truncate(z[i])`.
pub fn encode_signal(z: &Vec<u32>) -> (r: Vec<u8>)
    ensures
        r@ == signal_payload(z@),
        r@.len() == z@.len(),
        forall|i: int| 0 <= i < z@.len() ==> r@[i] == byte_truncate(#[trigger] z@[i]),
{
    let mut out: Vec<u8> = Vec::with_capacity(z.len());
    let mut i: usize = 0;
    while i < z.len()
        invariant
            i <= z@.len(),
            out@ =~= signal_payload(z@).subrange(0, i as int),
        decreases z@.len() - i,
    {
        out.push(truncate_to_byte(z[i]));
        i = i + 1;
    }
    assert(out@ =~= signal_payload(z@));
    out
}

/// Decoding an encoded input payload gives back the very same bit patterns.
pub proof fn lemma_input_round_trip(x: InputSample)
    ensures
        input_payload(x).len() == 8,
        input_from_payload(input_payload(x)) == Some(x),
{
    lemma_be_round_trip(x.x0);
    lemma_be_round_trip(x.x1);
    let p = input_payload(x);
    assert(p.subrange(0, 4) =~= be_bytes(x.x0));
    assert(p.subrange(4, 8) =~= be_bytes(x.x1));
}

proof fn lemma_be_round_trip(v: u32)
    ensures
        be_value(be_bytes(v)) == v,
{
    assert(((v / 0x100_0000) as u8) as u32 * 0x100_0000 + (((v / 0x1_0000) % 0x100) as u8) as u32
        * 0x1_0000 + (((v / 0x100) % 0x100) as u8) as u32 * 0x100 + ((v % 0x100) as u8) as u32
        == v) by (bit_vector);
}

} // verus!
