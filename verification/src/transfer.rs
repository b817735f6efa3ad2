//! The transfer curve between linear light and gamma-encoded values: which of
//! its two pieces a value falls on.
//!
//! Each direction of the curve is a straight line near zero and a power law
//! above a knee. The knee is tested in double precision: the component is
//! widened, which changes no number, and compared with the binary64 number
//! nearest to the decimal constant.
use crate::binary32::{ge, lemma_no_number_between, nan, scaled};
use vstd::arithmetic::power2::{lemma2_to64, lemma_pow2_adds, lemma_pow2_pos, pow2};
use vstd::prelude::*;

verus! {

/// A piece of the transfer curve.
#[derive(Clone, Copy, Debug, PartialEq, Eq, Structural)]
pub enum Piece {
    /// The straight line through zero, slope 12.92 when encoding.
    Line,
    /// The power law, exponent 2.4 when decoding.
    Power,
}

/// The least binary32 number that is not below the knee of the encoding
/// curve, 0.0031308.
pub const ENCODING_KNEE: u32 = 0x3B4D_2E1Cu32;

/// The least binary32 number that is not below the knee of the decoding
/// curve, 0.04045.
pub const DECODING_KNEE: u32 = 0x3D25_AEE7u32;

/// The knee of the encoding curve in units of 2^-149: the binary64 number
/// nearest to 0.0031308 is 7219133293246233 * 2^-61.
pub open spec fn encoding_knee() -> int {
    7219133293246233int * pow2(88)
}

/// The knee of the decoding curve in units of 2^-149: the binary64 number
/// nearest to 0.04045 is 5829459357668370 * 2^-57.
pub open spec fn decoding_knee() -> int {
    5829459357668370int * pow2(92)
}

/// The piece on which a linear value is encoded: the power law from the knee
/// up, the line below it and for a NaN.
pub open spec fn encoding_piece(linear: u32) -> Piece {
    if !nan(linear) && scaled(linear) >= encoding_knee() {
        Piece::Power
    } else {
        Piece::Line
    }
}

/// The piece on which an encoded value is decoded: the power law from the
/// knee up, the line below it and for a NaN.
pub open spec fn decoding_piece(encoded: u32) -> Piece {
    if !nan(encoded) && scaled(encoded) >= decoding_knee() {
        Piece::Power
    } else {
        Piece::Line
    }
}

/// The encoding knee lies between `ENCODING_KNEE` and the pattern before it.
pub proof fn lemma_encoding_knee()
    ensures
        scaled((ENCODING_KNEE - 1) as u32) < encoding_knee() <= scaled(ENCODING_KNEE),
{
    lemma2_to64();
    lemma_pow2_adds(29, 88);
    lemma_pow2_pos(88);
    let unit = pow2(88) as int;
    assert(scaled(ENCODING_KNEE) == 0xCD2E1C * pow2(117));
    assert(scaled((ENCODING_KNEE - 1) as u32) == 0xCD2E1B * pow2(117));
    assert(0xCD2E1C * (0x2000_0000 * unit) == (0xCD2E1C * 0x2000_0000) * unit)
        by (nonlinear_arith);
    assert(0xCD2E1B * (0x2000_0000 * unit) == (0xCD2E1B * 0x2000_0000) * unit)
        by (nonlinear_arith);
    assert(7219133293246233 * unit <= (0xCD2E1C * 0x2000_0000) * unit) by (nonlinear_arith)
        requires
            unit > 0,
    ;
    assert((0xCD2E1B * 0x2000_0000) * unit < 7219133293246233 * unit) by (nonlinear_arith)
        requires
            unit > 0,
    ;
}

/// The decoding knee lies between `DECODING_KNEE` and the pattern before it.
pub proof fn lemma_decoding_knee()
    ensures
        scaled((DECODING_KNEE - 1) as u32) < decoding_knee() <= scaled(DECODING_KNEE),
{
    lemma2_to64();
    lemma_pow2_adds(29, 92);
    lemma_pow2_pos(92);
    let unit = pow2(92) as int;
    assert(scaled(DECODING_KNEE) == 0xA5AEE7 * pow2(121));
    assert(scaled((DECODING_KNEE - 1) as u32) == 0xA5AEE6 * pow2(121));
    assert(0xA5AEE7 * (0x2000_0000 * unit) == (0xA5AEE7 * 0x2000_0000) * unit)
        by (nonlinear_arith);
    assert(0xA5AEE6 * (0x2000_0000 * unit) == (0xA5AEE6 * 0x2000_0000) * unit)
        by (nonlinear_arith);
    assert(5829459357668370 * unit <= (0xA5AEE7 * 0x2000_0000) * unit) by (nonlinear_arith)
        requires
            unit > 0,
    ;
    assert((0xA5AEE6 * 0x2000_0000) * unit < 5829459357668370 * unit) by (nonlinear_arith)
        requires
            unit > 0,
    ;
}

/// The piece of the curve that encodes the linear value `linear`.
pub fn piece_from_linear(linear: u32) -> (piece: Piece)
    ensures
        piece == encoding_piece(linear),
{
    proof {
        lemma_encoding_knee();
        if !nan(linear) && scaled(linear) < scaled(ENCODING_KNEE) {
            lemma_no_number_between(linear, ENCODING_KNEE);
        }
    }
    if ge(linear, ENCODING_KNEE) {
        Piece::Power
    } else {
        Piece::Line
    }
}

/// The piece of the curve that decodes the encoded value `encoded`.
pub fn piece_to_linear(encoded: u32) -> (piece: Piece)
    ensures
        piece == decoding_piece(encoded),
{
    proof {
        lemma_decoding_knee();
        if !nan(encoded) && scaled(encoded) < scaled(DECODING_KNEE) {
            lemma_no_number_between(encoded, DECODING_KNEE);
        }
    }
    if ge(encoded, DECODING_KNEE) {
        Piece::Power
    } else {
        Piece::Line
    }
}

} // verus!
