//! Validation and decoding of sACN (E1.31) DMX data packets.
//!
//! `is_data_packet` is a structural predicate over a raw UDP payload: packets
//! that do not match are expected on the multicast group and are skipped
//! silently, never treated as errors. `from_bytes` extracts the frame fields
//! at their fixed byte offsets; a declared payload length that runs past the
//! buffer is reported as `DecodeError::Truncated`, never a panic.

use vstd::prelude::*;

verus! {

/// A decoded DMX data frame.
#[derive(Debug, Clone)]
pub struct SacnDmxPacket {
    pub source_name: String,
    pub universe: u16,
    pub priority: u8,
    pub sequence_number: u8,
    pub options: u8,
    pub dmx_data: Vec<u8>,
    pub cid: [u8; 16],
}

/// Why a buffer could not be decoded into a frame.
#[derive(Clone, Copy, Debug, PartialEq, Eq, Structural)]
pub enum DecodeError {
    /// Shorter than the minimal data packet.
    TooShort,
    /// The declared payload length, or a fixed field offset, runs past the
    /// end of the buffer.
    Truncated,
}

/// A big-endian 16-bit field.
pub open spec fn be16(hi: u8, lo: u8) -> int {
    hi as int * 256 + lo as int
}

/// The payload length declared in the DMP layer, at offsets 123 and 124.
pub open spec fn declared_dmx_len(s: Seq<u8>) -> int {
    be16(s[123], s[124])
}

/// The bytes with any trailing zero padding removed.
pub open spec fn trim_trailing_zeros(s: Seq<u8>) -> Seq<u8>
    decreases s.len(),
{
    if s.len() > 0 && s.last() == 0 {
        trim_trailing_zeros(s.drop_last())
    } else {
        s
    }
}

/// The fixed ACN packet identifier "ASC-E1.17" and three zero bytes, at
/// offsets 4 through 15.
pub open spec fn has_packet_identifier(s: Seq<u8>) -> bool {
    &&& s[4] == 0x41u8
    &&& s[5] == 0x53u8
    &&& s[6] == 0x43u8
    &&& s[7] == 0x2du8
    &&& s[8] == 0x45u8
    &&& s[9] == 0x31u8
    &&& s[10] == 0x2eu8
    &&& s[11] == 0x31u8
    &&& s[12] == 0x37u8
    &&& s[13] == 0u8
    &&& s[14] == 0u8
    &&& s[15] == 0u8
}

/// A structurally valid DMX data packet: long enough to hold every checked
/// field, the ACN identifier in place, the big-endian root-layer vector
/// equal to 0x00000004, the framing-layer vector equal to 0x00000002, and
/// the DMP-layer vector byte equal to 0x02. The DMP vector sits at offset
/// 117, so any packet that passes holds at least 118 bytes.
pub open spec fn is_data_packet_spec(s: Seq<u8>) -> bool {
    &&& s.len() >= 118
    &&& has_packet_identifier(s)
    &&& s[18] == 0u8 && s[19] == 0u8 && s[20] == 0u8 && s[21] == 4u8
    &&& s[40] == 0u8 && s[41] == 0u8 && s[42] == 0u8 && s[43] == 2u8
    &&& s[117] == 2u8
}

/// The buffer is long enough to decode: the fixed header fields end at
/// offset 124, and the declared payload fits in what follows.
pub open spec fn decodes(s: Seq<u8>) -> bool {
    s.len() >= 125 && 125 + declared_dmx_len(s) <= s.len()
}

/// The frame fields a decoded packet carries for a raw buffer.
pub open spec fn packet_matches(p: SacnDmxPacket, s: Seq<u8>) -> bool {
    &&& p.source_name@ == lossy_utf8_of(trim_trailing_zeros(s.subrange(44, 108)))
    &&& p.universe as int == be16(s[113], s[114])
    &&& p.priority == s[108]
    &&& p.sequence_number == s[111]
    &&& p.options == s[112]
    &&& p.dmx_data@ == s.subrange(125, 125 + declared_dmx_len(s))
    &&& p.cid@ == s.subrange(22, 38)
}

/// What `String::from_utf8_lossy` returns for a byte sequence.
pub uninterp spec fn lossy_utf8_of(bytes: Seq<u8>) -> Seq<char>;

/// Relies on `String::from_utf8_lossy`: decodes the bytes as UTF-8 with
/// invalid sequences replaced; the result depends on the bytes alone.
#[verifier::external_body]
fn utf8_lossy_string(bytes: &[u8]) -> (r: String)
    ensures
        r@ == lossy_utf8_of(bytes@),
{
    String::from_utf8_lossy(bytes).into_owned()
}

impl SacnDmxPacket {
    pub fn new(
        source_name: String,
        universe: u16,
        priority: u8,
        sequence_number: u8,
        options: u8,
        dmx_data: Vec<u8>,
        cid: [u8; 16],
    ) -> (p: Self)
        ensures
            p.source_name == source_name,
            p.universe == universe,
            p.priority == priority,
            p.sequence_number == sequence_number,
            p.options == options,
            p.dmx_data == dmx_data,
            p.cid == cid,
    {
        SacnDmxPacket {
            source_name,
            universe,
            priority,
            sequence_number,
            options,
            dmx_data,
            cid,
        }
    }
}

/// Whether the buffer is a structurally valid sACN DMX data packet.
/// A mismatch anywhere makes it false; nothing is reported.
pub fn is_data_packet(bytes: &[u8]) -> (r: bool)
    ensures
        r == is_data_packet_spec(bytes@),
{
    if bytes.len() < 118 {
        return false;
    }

    if !(bytes[4] == 0x41 && bytes[5] == 0x53 && bytes[6] == 0x43 && bytes[7] == 0x2d
        && bytes[8] == 0x45 && bytes[9] == 0x31 && bytes[10] == 0x2e && bytes[11] == 0x31
        && bytes[12] == 0x37 && bytes[13] == 0 && bytes[14] == 0 && bytes[15] == 0) {
        return false;
    }

    if !(bytes[18] == 0 && bytes[19] == 0 && bytes[20] == 0 && bytes[21] == 4) {
        return false;
    }

    if !(bytes[40] == 0 && bytes[41] == 0 && bytes[42] == 0 && bytes[43] == 2) {
        return false;
    }

    if bytes[117] != 2 {
        return false;
    }

    true
}

/// Copies a range of the buffer into a fresh vector.
fn copy_range(bytes: &[u8], start: usize, end: usize) -> (r: Vec<u8>)
    requires
        start <= end <= bytes@.len(),
    ensures
        r@ == bytes@.subrange(start as int, end as int),
{
    let mut out: Vec<u8> = Vec::new();
    let mut i: usize = start;
    while i < end
        invariant
            start <= i <= end <= bytes@.len(),
            out@ =~= bytes@.subrange(start as int, i as int),
        decreases end - i,
    {
        out.push(bytes[i]);
        proof {
            assert(out@ =~= bytes@.subrange(start as int, i + 1));
        }
        i += 1;
    }
    proof {
        assert(out@ =~= bytes@.subrange(start as int, end as int));
    }
    out
}

/// Decodes a raw buffer into a frame. Succeeds exactly when the fixed
/// header fits and the declared payload length does not run past the
/// buffer; a buffer under 38 bytes is `TooShort`, any other shortfall is
/// `Truncated`.
pub fn from_bytes(bytes: Vec<u8>) -> (r: Result<SacnDmxPacket, DecodeError>)
    ensures
        match r {
            Ok(p) => decodes(bytes@) && packet_matches(p, bytes@),
            Err(e) => match e {
                DecodeError::TooShort => bytes@.len() < 38,
                DecodeError::Truncated => bytes@.len() >= 38 && !decodes(bytes@),
            },
        },
{
    if bytes.len() < 38 {
        return Err(DecodeError::TooShort);
    }
    if bytes.len() < 125 {
        return Err(DecodeError::Truncated);
    }

    let dmx_data_len: usize = (bytes[123] as usize) * 256 + (bytes[124] as usize);
    if bytes.len() - 125 < dmx_data_len {
        return Err(DecodeError::Truncated);
    }

    let mut end: usize = 108;
    while end > 44 && bytes[end - 1] == 0
        invariant
            44 <= end <= 108,
            bytes@.len() >= 125,
            trim_trailing_zeros(bytes@.subrange(44, 108))
                == trim_trailing_zeros(bytes@.subrange(44, end as int)),
        decreases end,
    {
        proof {
            let cur = bytes@.subrange(44, end as int);
            assert(cur.len() > 0 && cur.last() == 0);
            assert(cur.drop_last() =~= bytes@.subrange(44, end - 1));
        }
        end -= 1;
    }
    proof {
        let cur = bytes@.subrange(44, end as int);
        assert(trim_trailing_zeros(cur) == cur);
    }
    let name_bytes = copy_range(bytes.as_slice(), 44, end);
    let source_name = utf8_lossy_string(name_bytes.as_slice());

    let universe: u16 = (bytes[113] as u16) * 256 + (bytes[114] as u16);
    let priority = bytes[108];
    let sequence_number = bytes[111];
    let options = bytes[112];
    let dmx_data = copy_range(bytes.as_slice(), 125, 125 + dmx_data_len);
    let cid: [u8; 16] = [
        bytes[22], bytes[23], bytes[24], bytes[25],
        bytes[26], bytes[27], bytes[28], bytes[29],
        bytes[30], bytes[31], bytes[32], bytes[33],
        bytes[34], bytes[35], bytes[36], bytes[37],
    ];
    proof {
        assert(cid@ =~= bytes@.subrange(22, 38));
    }

    Ok(SacnDmxPacket {
        source_name,
        universe,
        priority,
        sequence_number,
        options,
        dmx_data,
        cid,
    })
}

/// Filters and decodes one received datagram: a buffer that is not a valid
/// data packet, or whose declared length is truncated, yields nothing.
pub fn parse_datagram(buf: &[u8]) -> (r: Option<SacnDmxPacket>)
    ensures
        match r {
            Some(p) => is_data_packet_spec(buf@) && decodes(buf@) && packet_matches(p, buf@),
            None => !is_data_packet_spec(buf@) || !decodes(buf@),
        },
{
    if !is_data_packet(buf) {
        return None;
    }
    let owned = copy_range(buf, 0, buf.len());
    proof {
        assert(owned@ =~= buf@);
    }
    match from_bytes(owned) {
        Ok(p) => Some(p),
        Err(_) => None,
    }
}

} // verus!
