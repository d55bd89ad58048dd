//! Laws that tie the encoder, the decoder and the checksum together.
use crate::checksum::{checksum_of, lemma_byte_sum_bound, lemma_byte_sum_update};
use crate::decode::{decode_error, declared_length, wire_address, wire_body, wire_checksum, wire_data};
use crate::frame::{
    be16, frame_body, frame_spec, identifier_of, length_field, preamble, CodecError, Identifier, Instruction,
    ADDRESS, MAX_PAYLOAD,
};
use vstd::prelude::*;

verus! {

/// Where each field of a frame built from `data` sits.
proof fn lemma_frame_layout(id: u8, instr: u8, data: Seq<u8>)
    requires
        data.len() <= MAX_PAYLOAD,
    ensures
        ({
            let f = frame_spec(id, instr, data);
            let body = frame_body(id, instr, data);
            &&& f.len() == 12 + data.len()
            &&& f[0] == 0xEF && f[1] == 0x01
            &&& f[2] == 0xFF && f[3] == 0xFF && f[4] == 0xFF && f[5] == 0xFF
            &&& f[6] == id
            &&& declared_length(f) == data.len() + 3
            &&& f[9] == instr
            &&& wire_body(f) == body
            &&& wire_data(f) == data
            &&& wire_checksum(f) == checksum_of(body) as int
        }),
{
    let f = frame_spec(id, instr, data);
    let body = frame_body(id, instr, data);
    let c = checksum_of(body) as nat;
    let n = length_field(data);
    assert(n < 256);
    assert(be16(n) =~= seq![0u8, n as u8]);
    assert(preamble() =~= seq![0xEFu8, 0x01u8, 0xFFu8, 0xFFu8, 0xFFu8, 0xFFu8]);
    assert(body =~= seq![id, 0u8, n as u8, instr] + data);
    assert(f =~= preamble() + body + be16(c));
    assert(f[7] == 0 && f[8] == n as u8);
    assert(declared_length(f) == n);
    assert(wire_body(f) =~= body);
    assert(wire_data(f) =~= data);
    assert(f[7 + n as int] == (c / 256) as u8);
    assert(f[8 + n as int] == (c % 256) as u8);
    assert(c / 256 < 256);
    assert((c / 256) * 256 + c % 256 == c);
}

/// Decoding an encoded frame gives back its identifier, its instruction
/// byte and its data bytes, with the default address and no error.
pub proof fn lemma_decode_encode(id: Identifier, instr: Instruction, data: Seq<u8>)
    requires
        data.len() <= MAX_PAYLOAD,
    ensures
        ({
            let f = frame_spec(id.spec_byte(), instr.spec_code(), data);
            &&& decode_error(f) is None
            &&& identifier_of(f[6]) == Some(id)
            &&& f[9] == instr.spec_code()
            &&& wire_data(f) == data
            &&& wire_address(f) == ADDRESS as int
        }),
{
    lemma_frame_layout(id.spec_byte(), instr.spec_code(), data);
}

/// Replacing one instruction or data byte of a frame that decodes, by a
/// different byte, breaks its checksum, as long as the covered bytes are
/// too few to wrap the sum around.
proof fn lemma_changed_byte_detected(s: Seq<u8>, i: int, v: u8)
    requires
        decode_error(s) is None,
        declared_length(s) <= MAX_PAYLOAD + 3,
        9 <= i < 7 + declared_length(s),
        v != s[i],
    ensures
        decode_error(s.update(i, v)) == Some(CodecError::ChecksumMismatch),
{
    let g = s.update(i, v);
    let body = wire_body(s);
    assert(g[7] == s[7] && g[8] == s[8]);
    assert(declared_length(g) == declared_length(s));
    assert(wire_checksum(g) == wire_checksum(s));
    assert(wire_body(g) =~= body.update(i - 6, v));
    lemma_byte_sum_update(body, i - 6, v);
    lemma_byte_sum_bound(body);
    lemma_byte_sum_bound(body.update(i - 6, v));
    assert(checksum_of(wire_body(g)) != checksum_of(body));
}

/// Flipping any one bit of the instruction byte or of a data byte of an
/// encoded frame makes decoding fail with `ChecksumMismatch`.
pub proof fn lemma_flipped_bit_detected(
    id: Identifier,
    instr: Instruction,
    data: Seq<u8>,
    i: int,
    bit: u8,
)
    requires
        data.len() <= MAX_PAYLOAD,
        9 <= i < 10 + data.len(),
        bit < 8,
    ensures
        ({
            let f = frame_spec(id.spec_byte(), instr.spec_code(), data);
            decode_error(f.update(i, f[i] ^ (1u8 << bit))) == Some(CodecError::ChecksumMismatch)
        }),
{
    let f = frame_spec(id.spec_byte(), instr.spec_code(), data);
    let b = f[i];
    let v = b ^ (1u8 << bit);
    assert(v != b) by (bit_vector)
        requires
            v == b ^ (1u8 << bit),
            bit < 8,
    ;
    lemma_decode_encode(id, instr, data);
    lemma_frame_layout(id.spec_byte(), instr.spec_code(), data);
    lemma_changed_byte_detected(f, i, v);
}

} // verus!
