//! Decoder for the fixed-format, bit-packed status reports of the pointing
//! peripheral.
//!
//! Only the first five bytes of an incoming buffer are meaningful:
//! - byte 0, bits 0..=2: pressed flags for buttons 1..=3;
//! - byte 1 and the low nibble of byte 2: a signed 12-bit X displacement,
//!   low eight bits in byte 1;
//! - the high nibble of byte 2 and byte 3: a signed 12-bit Y displacement,
//!   low four bits in the nibble;
//! - byte 4: a signed 8-bit wheel displacement.

use vstd::prelude::*;

use vstd::arithmetic::power2::{
    lemma2_to64, lemma_pow2_strictly_increases, lemma_pow2_unfold, pow2,
};
use vstd::bits::lemma_u16_shl_is_mul;

use crate::errors::ProtocolError;

verus! {

/// One decoded status report.
#[derive(Clone, Copy, Debug, PartialEq, Eq, Structural)]
pub struct DecodedReport {
    /// The button bitmask; only the low three bits are meaningful and the
    /// decoder clears the reserved upper bits.
    pub buttons: u8,
    /// Relative X displacement, sign-extended from the 12-bit field.
    pub x_delta: i16,
    /// Relative Y displacement, sign-extended from the 12-bit field.
    pub y_delta: i16,
    /// Relative wheel displacement, the directly signed byte 4.
    pub wheel_delta: i8,
}

impl DecodedReport {
    /// The ranges every decoded report stays inside: the coordinate fields
    /// are genuine 12-bit two's-complement values and the button mask keeps
    /// only its three meaningful bits.
    pub open spec fn wf(self) -> bool {
        &&& self.buttons < 8
        &&& -2048 <= self.x_delta <= 2047
        &&& -2048 <= self.y_delta <= 2047
    }

    /// Whether the given button (1, 2 or 3) is pressed in this report.
    pub fn button_pressed(&self, button: u8) -> (r: bool)
        requires
            1 <= button <= 3,
        ensures
            r == spec_button_pressed(*self, button),
    {
        if button == 1 {
            self.buttons % 2 == 1
        } else if button == 2 {
            (self.buttons / 2) % 2 == 1
        } else {
            (self.buttons / 4) % 2 == 1
        }
    }
}

/// Whether bit `button - 1` of the report's button mask is set.
pub open spec fn spec_button_pressed(rep: DecodedReport, button: u8) -> bool
    recommends
        1 <= button <= 3,
{
    if button == 1 {
        rep.buttons % 2 == 1
    } else if button == 2 {
        (rep.buttons / 2) % 2 == 1
    } else {
        (rep.buttons / 4) % 2 == 1
    }
}

/// The numeric value of widening a `bits`-wide two's-complement pattern:
/// patterns with the top bit set stand for negative values.
pub open spec fn spec_extend_sign(value: nat, bits: nat) -> int
    recommends
        1 <= bits,
        value < pow2(bits),
{
    if value >= pow2((bits - 1) as nat) {
        value - pow2(bits)
    } else {
        value as int
    }
}

/// Sign-extends the low `significant_bits` bits of `value` into a signed
/// machine integer, by building the pattern into the high bits of a 16-bit
/// word and shifting it back down arithmetically.
pub fn extend_sign(value: u16, significant_bits: u8) -> (r: i16)
    requires
        1 <= significant_bits <= 15,
        (value as nat) < pow2(significant_bits as nat),
    ensures
        r as int == spec_extend_sign(value as nat, significant_bits as nat),
{
    let shift: u16 = (significant_bits - 1) as u16;
    proof {
        lemma2_to64();
        lemma_pow2_unfold(significant_bits as nat);
        if significant_bits < 15 {
            lemma_pow2_strictly_increases(shift as nat, 14);
        }
        lemma_u16_shl_is_mul(1u16, shift);
    }
    let half: u16 = 1u16 << shift;
    if value >= half {
        let wide: i32 = value as i32 - 2 * (half as i32);
        wide as i16
    } else {
        value as i16
    }
}

/// The raw 12-bit X pattern: the full byte 1 supplies the low eight bits and
/// the low nibble of byte 2 the high four.
pub open spec fn x_pattern(b1: u8, b2: u8) -> nat {
    ((b2 % 16) * 256 + b1) as nat
}

/// The raw 12-bit Y pattern: the high nibble of byte 2 supplies the low four
/// bits and the full byte 3 the high eight.
pub open spec fn y_pattern(b2: u8, b3: u8) -> nat {
    (b3 * 16 + b2 / 16) as nat
}

/// The report decoded from the first five bytes of a buffer.
pub open spec fn report_of(buf: Seq<u8>) -> DecodedReport
    recommends
        buf.len() >= 5,
{
    DecodedReport {
        buttons: (buf[0] % 8) as u8,
        x_delta: spec_extend_sign(x_pattern(buf[1], buf[2]), 12) as i16,
        y_delta: spec_extend_sign(y_pattern(buf[2], buf[3]), 12) as i16,
        wheel_delta: spec_extend_sign(buf[4] as nat, 8) as i8,
    }
}

/// Every decoded report satisfies the type's range invariant.
pub proof fn lemma_report_of_wf(buf: Seq<u8>)
    requires
        buf.len() >= 5,
    ensures
        report_of(buf).wf(),
{
    lemma2_to64();
}

/// Decoding is a pure function of the buffer: two reports that both satisfy
/// the decoder's contract for the same buffer are the same report.
pub proof fn lemma_decode_deterministic(buf: Seq<u8>, r1: DecodedReport, r2: DecodedReport)
    requires
        buf.len() >= 5,
        r1 == report_of(buf),
        r2 == report_of(buf),
    ensures
        r1 == r2,
{
}

/// Decodes one status report.
///
/// Fails exactly when fewer than five bytes arrived; bytes past the fifth
/// are padding from the transport's fixed-size buffer and are ignored.
pub fn decode_report(buf: &[u8]) -> (r: Result<DecodedReport, ProtocolError>)
    ensures
        buf@.len() >= 5 ==> r == Ok::<DecodedReport, ProtocolError>(report_of(buf@)),
        buf@.len() < 5 ==> r == Err::<DecodedReport, ProtocolError>(ProtocolError::BufferTooShort),
{
    if buf.len() < 5 {
        return Err(ProtocolError::BufferTooShort);
    }
    proof {
        lemma2_to64();
    }
    let buttons: u8 = buf[0] % 8;
    let x_raw: u16 = (buf[2] % 16) as u16 * 256 + buf[1] as u16;
    let x_delta: i16 = extend_sign(x_raw, 12);
    let y_raw: u16 = buf[3] as u16 * 16 + (buf[2] / 16) as u16;
    let y_delta: i16 = extend_sign(y_raw, 12);
    let wheel_wide: i16 = extend_sign(buf[4] as u16, 8);
    let wheel_delta: i8 = wheel_wide as i8;
    Ok(DecodedReport { buttons, x_delta, y_delta, wheel_delta })
}

} // verus!
