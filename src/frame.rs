//! Packet identifiers, instruction codes, and the wire layout of a frame.
use crate::checksum::checksum_of;
use vstd::prelude::*;

verus! {

/// Start-of-frame marker, sent most-significant byte first.
pub const HEADER: u16 = 0xEF01;

/// Module address used when the module has not been re-addressed.
pub const ADDRESS: u32 = 0xFFFF_FFFF;

/// Largest number of data bytes that may follow the instruction byte.
pub const MAX_PAYLOAD: usize = 32;

/// Capacity of the buffer that holds one outbound frame.
pub const MAX_FRAME: usize = 256;

/// The role of a packet.
#[derive(Clone, Copy, Debug, PartialEq, Eq, Structural)]
pub enum Identifier {
    Command,
    Data,
    Acknowledge,
    EndOfData,
}

impl Identifier {
    pub open spec fn spec_byte(self) -> u8 {
        match self {
            Identifier::Command => 0x01,
            Identifier::Data => 0x02,
            Identifier::Acknowledge => 0x07,
            Identifier::EndOfData => 0x08,
        }
    }

    /// The byte that stands for this identifier on the wire.
    pub fn to_byte(&self) -> (r: u8)
        ensures
            r == self.spec_byte(),
    {
        match self {
            Identifier::Command => 0x01,
            Identifier::Data => 0x02,
            Identifier::Acknowledge => 0x07,
            Identifier::EndOfData => 0x08,
        }
    }

    /// The identifier that a wire byte stands for, if any.
    pub fn from_byte(b: u8) -> (r: Option<Identifier>)
        ensures
            r == identifier_of(b),
    {
        if b == 0x01 {
            Some(Identifier::Command)
        } else if b == 0x02 {
            Some(Identifier::Data)
        } else if b == 0x07 {
            Some(Identifier::Acknowledge)
        } else if b == 0x08 {
            Some(Identifier::EndOfData)
        } else {
            None
        }
    }
}

pub open spec fn identifier_of(b: u8) -> Option<Identifier> {
    if b == 0x01 {
        Some(Identifier::Command)
    } else if b == 0x02 {
        Some(Identifier::Data)
    } else if b == 0x07 {
        Some(Identifier::Acknowledge)
    } else if b == 0x08 {
        Some(Identifier::EndOfData)
    } else {
        None
    }
}

/// Every identifier's byte maps back to that identifier.
pub proof fn lemma_identifier_byte_round_trip(id: Identifier)
    ensures
        identifier_of(id.spec_byte()) == Some(id),
{
}

/// An operation code of the sensor module. Codes without a name of their own
/// are carried by `Other`.
#[derive(Clone, Copy, Debug, PartialEq, Eq, Structural)]
pub enum Instruction {
    GenImg,
    Img2Tz,
    Match,
    Search,
    RegModel,
    Store,
    LoadChar,
    DeleteChar,
    Empty,
    ReadSysPara,
    SetPwd,
    VfyPwd,
    TemplateNum,
    ReadIndexTable,
    AuraLedConfig,
    CheckSensor,
    HandShake,
    Other(u8),
}

impl Instruction {
    pub open spec fn spec_code(self) -> u8 {
        match self {
            Instruction::GenImg => 0x01,
            Instruction::Img2Tz => 0x02,
            Instruction::Match => 0x03,
            Instruction::Search => 0x04,
            Instruction::RegModel => 0x05,
            Instruction::Store => 0x06,
            Instruction::LoadChar => 0x07,
            Instruction::DeleteChar => 0x0C,
            Instruction::Empty => 0x0D,
            Instruction::ReadSysPara => 0x0F,
            Instruction::SetPwd => 0x12,
            Instruction::VfyPwd => 0x13,
            Instruction::TemplateNum => 0x1D,
            Instruction::ReadIndexTable => 0x1F,
            Instruction::AuraLedConfig => 0x35,
            Instruction::CheckSensor => 0x36,
            Instruction::HandShake => 0x40,
            Instruction::Other(c) => c,
        }
    }

    /// The operation code sent as the first payload byte.
    pub fn code(&self) -> (r: u8)
        ensures
            r == self.spec_code(),
    {
        match self {
            Instruction::GenImg => 0x01,
            Instruction::Img2Tz => 0x02,
            Instruction::Match => 0x03,
            Instruction::Search => 0x04,
            Instruction::RegModel => 0x05,
            Instruction::Store => 0x06,
            Instruction::LoadChar => 0x07,
            Instruction::DeleteChar => 0x0C,
            Instruction::Empty => 0x0D,
            Instruction::ReadSysPara => 0x0F,
            Instruction::SetPwd => 0x12,
            Instruction::VfyPwd => 0x13,
            Instruction::TemplateNum => 0x1D,
            Instruction::ReadIndexTable => 0x1F,
            Instruction::AuraLedConfig => 0x35,
            Instruction::CheckSensor => 0x36,
            Instruction::HandShake => 0x40,
            Instruction::Other(c) => *c,
        }
    }
}

/// What can go wrong while building or reading a frame.
#[derive(Clone, Copy, Debug, PartialEq, Eq, Structural)]
pub enum CodecError {
    /// The payload, or the whole frame, does not fit its bounded buffer.
    CapacityExceeded,
    /// The frame does not start with the header.
    BadHeader,
    /// The identifier byte names no known packet role.
    UnknownIdentifier,
    /// The input ends before the frame does, or the declared length is too
    /// short to hold an instruction byte and the checksum.
    Truncated,
    /// The checksum field disagrees with the bytes it covers.
    ChecksumMismatch,
}

/// A 16-bit value as two bytes, most significant first.
pub open spec fn be16(x: nat) -> Seq<u8> {
    seq![(x / 256) as u8, (x % 256) as u8]
}

/// A 32-bit value as four bytes, most significant first.
pub open spec fn be32(x: nat) -> Seq<u8> {
    seq![
        (x / 0x100_0000) as u8,
        (x / 0x1_0000 % 256) as u8,
        (x / 256 % 256) as u8,
        (x % 256) as u8,
    ]
}

/// Header and address: the fixed six bytes that open every outbound frame.
pub open spec fn preamble() -> Seq<u8> {
    be16(HEADER as nat) + be32(ADDRESS as nat)
}

/// The value of the length field: instruction byte, data and checksum.
pub open spec fn length_field(data: Seq<u8>) -> nat {
    data.len() + 3
}

/// The bytes that the checksum covers: identifier, length, instruction, data.
pub open spec fn frame_body(id: u8, instr: u8, data: Seq<u8>) -> Seq<u8> {
    seq![id] + be16(length_field(data)) + seq![instr] + data
}

/// The complete wire form of a frame.
pub open spec fn frame_spec(id: u8, instr: u8, data: Seq<u8>) -> Seq<u8> {
    preamble() + frame_body(id, instr, data) + be16(checksum_of(frame_body(id, instr, data)) as nat)
}

} // verus!
