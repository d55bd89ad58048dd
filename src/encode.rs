//! Building outbound frames.
use crate::buffer::{frame_contents, frame_extend, new_frame};
use crate::checksum::compute_checksum;
use crate::frame::{
    be16, frame_body, frame_spec, preamble, CodecError, Identifier, Instruction, ADDRESS, HEADER,
    MAX_PAYLOAD,
};
use vstd::prelude::*;

verus! {

/// The data bytes that an optional payload stands for.
pub open spec fn payload_of(payload: Option<&[u8]>) -> Seq<u8> {
    match payload {
        Some(d) => d@,
        None => Seq::<u8>::empty(),
    }
}

/// Appends `src` to the end of `dst`.
fn append_bytes(dst: &mut Vec<u8>, src: &[u8])
    ensures
        final(dst)@ == old(dst)@ + src@,
{
    let mut i: usize = 0;
    while i < src.len()
        invariant
            i <= src@.len(),
            dst@ == old(dst)@ + src@.subrange(0, i as int),
        decreases src@.len() - i,
    {
        dst.push(src[i]);
        i = i + 1;
        assert(dst@ =~= old(dst)@ + src@.subrange(0, i as int));
    }
    assert(src@.subrange(0, i as int) =~= src@);
}

/// Appends a 16-bit value, most significant byte first.
fn append_be16(dst: &mut Vec<u8>, x: u16)
    ensures
        final(dst)@ == old(dst)@ + be16(x as nat),
{
    dst.push((x / 256) as u8);
    dst.push((x % 256) as u8);
    assert(dst@ =~= old(dst)@ + be16(x as nat));
}

/// Builds the frame that carries `instruction` and the optional data bytes
/// under `identifier`, addressed to the default address. The length field
/// counts the instruction byte, the data and the checksum; the checksum is
/// the wraparound sum of identifier, length, instruction and data.
/// Fails with `CapacityExceeded`, and builds nothing, when the data is
/// longer than `MAX_PAYLOAD` bytes.
pub fn encode(identifier: Identifier, instruction: Instruction, payload: Option<&[u8]>) -> (r:
    Result<heapless::Vec<u8, 256>, CodecError>)
    ensures
        r is Ok <==> payload_of(payload).len() <= MAX_PAYLOAD,
        r matches Ok(f) ==> frame_contents(f) == frame_spec(
            identifier.spec_byte(),
            instruction.spec_code(),
            payload_of(payload),
        ),
        r matches Err(e) ==> e == CodecError::CapacityExceeded,
{
    let n: usize = match payload {
        Some(d) => d.len(),
        None => 0,
    };
    if n > MAX_PAYLOAD {
        return Err(CodecError::CapacityExceeded);
    }
    let ghost data = payload_of(payload);
    let id = identifier.to_byte();
    let instr = instruction.code();
    // The length is known before any byte is laid out: instruction, data, checksum.
    let length: u16 = (n + 3) as u16;

    let mut body: Vec<u8> = Vec::new();
    body.push(id);
    append_be16(&mut body, length);
    body.push(instr);
    match payload {
        Some(d) => append_bytes(&mut body, d),
        None => {},
    }
    assert(body@ =~= frame_body(id, instr, data));
    let chk = compute_checksum(body.as_slice());

    let mut wire: Vec<u8> = Vec::new();
    append_be16(&mut wire, HEADER);
    append_be16(&mut wire, (ADDRESS / 0x1_0000) as u16);
    append_be16(&mut wire, (ADDRESS % 0x1_0000) as u16);
    assert(wire@ =~= preamble());
    append_bytes(&mut wire, body.as_slice());
    append_be16(&mut wire, chk);
    assert(wire@ =~= frame_spec(id, instr, data));

    let mut frame = new_frame();
    if frame_extend(&mut frame, wire.as_slice()) {
        assert(frame_contents(frame) =~= wire@);
        Ok(frame)
    } else {
        Err(CodecError::CapacityExceeded)
    }
}

} // verus!
