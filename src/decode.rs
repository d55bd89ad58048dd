//! Reading inbound packets.
use crate::checksum::{checksum_of, compute_checksum};
use crate::frame::{identifier_of, CodecError, Identifier};
use vstd::prelude::*;

verus! {

/// A packet read from the wire, its checksum already checked.
pub struct Packet {
    /// The module address the packet carries.
    pub address: u32,
    /// The role of the packet.
    pub identifier: Identifier,
    /// The first payload byte: the instruction of a command, the
    /// confirmation code of an acknowledgement.
    pub code: u8,
    /// The payload bytes after the first.
    pub data: Vec<u8>,
}

/// The length field of a frame held in `s`.
pub open spec fn declared_length(s: Seq<u8>) -> int {
    s[7] as int * 256 + s[8] as int
}

/// The address field of a frame held in `s`.
pub open spec fn wire_address(s: Seq<u8>) -> int {
    s[2] as int * 0x100_0000 + s[3] as int * 0x1_0000 + s[4] as int * 256 + s[5] as int
}

/// The checksum field of a frame held in `s`.
pub open spec fn wire_checksum(s: Seq<u8>) -> int {
    s[7 + declared_length(s)] as int * 256 + s[8 + declared_length(s)] as int
}

/// The bytes of a frame held in `s` that its checksum covers.
pub open spec fn wire_body(s: Seq<u8>) -> Seq<u8> {
    s.subrange(6, 7 + declared_length(s))
}

/// The payload bytes after the first, of a frame held in `s`.
pub open spec fn wire_data(s: Seq<u8>) -> Seq<u8> {
    s.subrange(10, 7 + declared_length(s))
}

/// The first check that a frame held in `s` fails, or `None` if it passes
/// them all. Bytes after the end of the frame are not looked at.
pub open spec fn decode_error(s: Seq<u8>) -> Option<CodecError> {
    if s.len() < 2 {
        Some(CodecError::Truncated)
    } else if s[0] != 0xEF || s[1] != 0x01 {
        Some(CodecError::BadHeader)
    } else if s.len() < 7 {
        Some(CodecError::Truncated)
    } else if identifier_of(s[6]) is None {
        Some(CodecError::UnknownIdentifier)
    } else if s.len() < 9 || declared_length(s) < 3 || s.len() < 9 + declared_length(s) {
        Some(CodecError::Truncated)
    } else if checksum_of(wire_body(s)) as int != wire_checksum(s) {
        Some(CodecError::ChecksumMismatch)
    } else {
        None
    }
}

/// Reads one packet from the start of `bytes`: checks the header, reads the
/// address and identifier, checks that the declared length is present,
/// and checks the checksum. On success returns the address, identifier,
/// first payload byte and the remaining payload bytes.
pub fn decode(bytes: &[u8]) -> (r: Result<Packet, CodecError>)
    ensures
        match r {
            Ok(p) => {
                &&& decode_error(bytes@) is None
                &&& p.address == wire_address(bytes@)
                &&& identifier_of(bytes@[6]) == Some(p.identifier)
                &&& p.code == bytes@[9]
                &&& p.data@ == wire_data(bytes@)
            },
            Err(e) => decode_error(bytes@) == Some(e),
        },
{
    let len = bytes.len();
    if len < 2 {
        return Err(CodecError::Truncated);
    }
    if bytes[0] != 0xEF || bytes[1] != 0x01 {
        return Err(CodecError::BadHeader);
    }
    if len < 7 {
        return Err(CodecError::Truncated);
    }
    let identifier = match Identifier::from_byte(bytes[6]) {
        Some(id) => id,
        None => return Err(CodecError::UnknownIdentifier),
    };
    if len < 9 {
        return Err(CodecError::Truncated);
    }
    let length: usize = bytes[7] as usize * 256 + bytes[8] as usize;
    if length < 3 || len - 9 < length {
        return Err(CodecError::Truncated);
    }
    let end: usize = 7 + length;
    let mut body: Vec<u8> = Vec::new();
    let mut i: usize = 6;
    while i < end
        invariant
            6 <= i <= end,
            end == 7 + declared_length(bytes@),
            end + 2 <= bytes@.len(),
            body@ == bytes@.subrange(6, i as int),
        decreases end - i,
    {
        body.push(bytes[i]);
        i = i + 1;
        assert(body@ =~= bytes@.subrange(6, i as int));
    }
    let expected = compute_checksum(body.as_slice());
    let stored: u16 = (bytes[end] as u16) * 256 + bytes[end + 1] as u16;
    if expected != stored {
        return Err(CodecError::ChecksumMismatch);
    }
    let mut data: Vec<u8> = Vec::new();
    let mut j: usize = 10;
    while j < end
        invariant
            10 <= j <= end,
            end == 7 + declared_length(bytes@),
            end + 2 <= bytes@.len(),
            data@ == bytes@.subrange(10, j as int),
        decreases end - j,
    {
        data.push(bytes[j]);
        j = j + 1;
        assert(data@ =~= bytes@.subrange(10, j as int));
    }
    let address: u32 = (bytes[2] as u32) * 0x100_0000 + (bytes[3] as u32) * 0x1_0000
        + (bytes[4] as u32) * 256 + bytes[5] as u32;
    Ok(Packet { address, identifier, code: bytes[9], data })
}

} // verus!
