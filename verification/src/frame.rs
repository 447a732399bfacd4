//! Command-frame encoder and event-frame decoder.
//!
//! An outbound command frame is `[opcode_lo, opcode_hi, param_len, params...]`
//! with the 16-bit opcode transmitted low byte first. An inbound event frame
//! is `[event_code, param_count, opcode_lo, opcode_hi, return_params...]`,
//! where the echoed opcode is present only when the declared parameter count
//! leaves room for it.

use vstd::prelude::*;

use crate::errors::ProtocolError;

verus! {

/// A catalog entry: the 16-bit opcode of a command and its parameter bytes.
#[derive(Debug)]
pub struct CommandSpec {
    /// The command opcode, group field in the upper six bits, command field in
    /// the lower ten.
    pub opcode: u16,
    /// The parameter bytes sent after the length byte.
    pub params: Vec<u8>,
}

impl CommandSpec {
    /// A frame carries its parameter length in one byte, so an entry is only
    /// well formed when the parameters fit that byte.
    pub open spec fn wf(self) -> bool {
        self.params@.len() <= 255
    }
}

/// The low byte of a 16-bit opcode, the byte that goes on the wire first.
pub open spec fn opcode_lo(opcode: u16) -> u8 {
    (opcode % 256) as u8
}

/// The high byte of a 16-bit opcode, the byte that goes on the wire second.
pub open spec fn opcode_hi(opcode: u16) -> u8 {
    (opcode / 256) as u8
}

/// The 16-bit opcode packed from a 6-bit group field and a 10-bit command
/// field: `opcode == ogf * 1024 + ocf`.
pub open spec fn spec_pack_opcode(ogf: u16, ocf: u16) -> int {
    ogf * 1024 + ocf
}

/// Packs the opcode group field (6 bits) and opcode command field (10 bits)
/// into the 16-bit opcode.
pub fn pack_opcode(ogf: u16, ocf: u16) -> (r: u16)
    requires
        ogf < 64,
        ocf < 1024,
    ensures
        r == spec_pack_opcode(ogf, ocf),
{
    ogf * 1024 + ocf
}

/// The exact bytes of the outbound frame built from a catalog entry:
/// opcode low byte, opcode high byte, parameter length, parameters.
pub open spec fn frame_bytes(s: CommandSpec) -> Seq<u8> {
    seq![opcode_lo(s.opcode), opcode_hi(s.opcode), s.params@.len() as u8] + s.params@
}

/// Builds the outbound command frame for a catalog entry.
pub fn encode(s: &CommandSpec) -> (r: Vec<u8>)
    requires
        s.wf(),
    ensures
        r@ == frame_bytes(*s),
        r@.len() == 3 + s.params@.len(),
{
    let mut out: Vec<u8> = Vec::new();
    out.push((s.opcode % 256) as u8);
    out.push((s.opcode / 256) as u8);
    out.push(s.params.len() as u8);
    let mut i: usize = 0;
    while i < s.params.len()
        invariant
            s.wf(),
            i <= s.params@.len(),
            out@.len() == 3 + i,
            out@[0] == opcode_lo(s.opcode),
            out@[1] == opcode_hi(s.opcode),
            out@[2] == s.params@.len() as u8,
            forall|j: int| 0 <= j < i ==> out@[3 + j] == s.params@[j],
        decreases s.params@.len() - i,
    {
        out.push(s.params[i]);
        i += 1;
    }
    proof {
        assert(out@ =~= frame_bytes(*s));
    }
    out
}

/// An inbound event frame, split into its documented fields.
#[derive(Debug)]
pub struct EventFrame {
    /// Byte 0 of the frame.
    pub event_code: u8,
    /// Byte 1 of the frame: the parameter count the peripheral declared.
    pub param_count: u8,
    /// The echoed 16-bit opcode, read little-endian from bytes 2 and 3 when
    /// the declared count announces one and the frame is long enough.
    pub opcode: Option<u16>,
    /// The bytes after the echoed opcode, or after the header when no opcode
    /// was echoed; opaque return parameters.
    pub return_params: Vec<u8>,
    /// Whether the declared parameter count matches the bytes that actually
    /// follow the header. A mismatch is recorded, not treated as an error.
    pub count_matches: bool,
}

/// Whether a raw event frame announces an echoed opcode and is long enough to
/// carry it.
pub open spec fn event_has_opcode(raw: Seq<u8>) -> bool {
    raw.len() >= 4 && raw[1] >= 2
}

/// Parses an inbound event frame.
///
/// Fails exactly when the frame is shorter than its two-byte header. A
/// declared parameter count that disagrees with the bytes present is flagged
/// in `count_matches`, never rejected.
pub fn decode_event(raw: &[u8]) -> (r: Result<EventFrame, ProtocolError>)
    ensures
        raw@.len() < 2 ==> r == Err::<EventFrame, ProtocolError>(ProtocolError::FrameTooShort),
        raw@.len() >= 2 ==> match r {
            Ok(f) => {
                &&& f.event_code == raw@[0]
                &&& f.param_count == raw@[1]
                &&& f.count_matches == (raw@[1] == raw@.len() - 2)
                &&& if event_has_opcode(raw@) {
                    f.opcode == Some((raw@[2] + raw@[3] * 256) as u16)
                        && f.return_params@ == raw@.skip(4)
                } else {
                    f.opcode is None && f.return_params@ == raw@.skip(2)
                }
            },
            Err(_) => false,
        },
{
    if raw.len() < 2 {
        return Err(ProtocolError::FrameTooShort);
    }
    let event_code = raw[0];
    let param_count = raw[1];
    let count_matches = param_count as usize == raw.len() - 2;
    let (opcode, tail_start) = if param_count >= 2 && raw.len() >= 4 {
        (Some(raw[2] as u16 + raw[3] as u16 * 256), 4)
    } else {
        (None, 2)
    };
    let mut return_params: Vec<u8> = Vec::new();
    let mut i: usize = tail_start;
    while i < raw.len()
        invariant
            tail_start <= i <= raw@.len(),
            return_params@.len() == i - tail_start,
            forall|j: int| 0 <= j < return_params@.len() ==> return_params@[j] == raw@[tail_start + j],
        decreases raw@.len() - i,
    {
        return_params.push(raw[i]);
        i += 1;
    }
    proof {
        assert(return_params@ =~= raw@.skip(tail_start as int));
    }
    Ok(EventFrame { event_code, param_count, opcode, return_params, count_matches })
}

} // verus!
