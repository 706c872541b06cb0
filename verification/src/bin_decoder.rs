//! Decoding wire words back into instructions, and the proof that decoding
//! undoes encoding.

use vstd::prelude::*;
use crate::byte_formatter::ByteFormatter;
use crate::command::{spec_command_of_code, command_of_code, Command, CommandType};
use crate::bin_encoder::{spec_encodable, spec_encode_word, spec_operand_fits};
use crate::errors::DecodeError;
use crate::operand::{spec_tag_of_id, tag_of_id, Operand, OperandTag};
use crate::register::{spec_register_of_id, register_of_id};

verus! {

/// The operand held in a wire word: bits 9..8 are the tag, bits 7..0 the
/// payload. Fails when the tag is neither 1 (literal) nor 2 (register), or
/// when a register payload names no register.
pub open spec fn spec_parse_operand(bin: u16) -> Result<Operand, DecodeError> {
    let tag_id = (bin as int / 256 % 4) as u16;
    let value = (bin as int % 256) as u16;
    match spec_tag_of_id(tag_id) {
        None => Err(DecodeError::UnknownOperandTypeId),
        Some(OperandTag::Literal) => Ok(Operand::Literal(value)),
        Some(OperandTag::Register) => match spec_register_of_id(value) {
            Some(name) => Ok(Operand::Register(name)),
            None => Err(DecodeError::UnknownRegisterId),
        },
    }
}

/// The instruction held in a wire word: bits 15..10 are the opcode code, the
/// rest the operand. Fails when the opcode code is unassigned or the operand
/// is malformed.
pub open spec fn spec_parse_word(bin: u16) -> Result<Command, DecodeError> {
    let command_id = (bin as int / 1024) as u16;
    match spec_command_of_code(command_id) {
        None => Err(DecodeError::UnknownCommandId),
        Some(command_type) => match spec_parse_operand(bin) {
            Err(e) => Err(e),
            Ok(operand) => Ok(Command { command_type, operand }),
        },
    }
}

/// Extract the operand from a wire word.
pub fn parse_operand(bin: u16) -> (r: Result<Operand, DecodeError>)
    ensures
        r == spec_parse_operand(bin),
{
    let operand_type_id = bin / 256 % 4;
    let value = bin % 256;

    match tag_of_id(operand_type_id) {
        None => Err(DecodeError::UnknownOperandTypeId),
        Some(OperandTag::Literal) => Ok(Operand::Literal(value)),
        Some(OperandTag::Register) => match register_of_id(value) {
            Some(name) => Ok(Operand::Register(name)),
            None => Err(DecodeError::UnknownRegisterId),
        },
    }
}

/// Decode one instruction from its two wire bytes under the given byte order.
pub fn parse_command<F: ByteFormatter>(bin: &[u8], byte_formatter: &F) -> (r: Result<
    Command,
    DecodeError,
>)
    requires
        bin@.len() >= 2,
    ensures
        r == spec_parse_word(byte_formatter.spec_wrap(bin@[0], bin@[1])),
{
    let bin2 = [bin[0], bin[1]];
    let bin16 = byte_formatter.wrap_bytes(bin2);

    parse_word(bin16)
}

/// Decode one instruction from an already assembled wire word.
pub fn parse_word(bin16: u16) -> (r: Result<Command, DecodeError>)
    ensures
        r == spec_parse_word(bin16),
{
    let command_id = bin16 / 1024;
    let command_type = match command_of_code(command_id) {
        Some(ct) => ct,
        None => {
            return Err(DecodeError::UnknownCommandId);
        },
    };

    let operand = match parse_operand(bin16) {
        Ok(op) => op,
        Err(e) => {
            return Err(e);
        },
    };

    Ok(Command { command_type, operand })
}

/// The instructions held in an even-length byte stream, two bytes per
/// instruction, in stream order; the first fault aborts the whole parse.
pub open spec fn spec_parse_chunks<F: ByteFormatter>(f: F, bytes: Seq<u8>) -> Result<
    Seq<Command>,
    DecodeError,
>
    recommends
        bytes.len() % 2 == 0,
    decreases bytes.len(),
{
    if bytes.len() < 2 {
        Ok(Seq::empty())
    } else {
        match spec_parse_word(f.spec_wrap(bytes[0], bytes[1])) {
            Err(e) => Err(e),
            Ok(c) => match spec_parse_chunks(f, bytes.skip(2)) {
                Err(e) => Err(e),
                Ok(rest) => Ok(seq![c] + rest),
            },
        }
    }
}

/// What `parse_bin` returns: an odd-length stream is rejected outright; an
/// even-length stream decodes chunk by chunk.
pub open spec fn spec_parse_bin<F: ByteFormatter>(f: F, bytes: Seq<u8>) -> Result<
    Seq<Command>,
    DecodeError,
> {
    if bytes.len() % 2 != 0 {
        Err(DecodeError::OddLength)
    } else {
        spec_parse_chunks(f, bytes)
    }
}

/// Decode a whole program image: every consecutive two-byte group is one
/// instruction. Requires even length; rejects anything else.
pub fn parse_bin<F: ByteFormatter>(bytes: &[u8], byte_formatter: &F) -> (r: Result<
    Vec<Command>,
    DecodeError,
>)
    ensures
        r matches Ok(cs) ==> spec_parse_bin(*byte_formatter, bytes@) == Ok::<_, DecodeError>(cs@),
        r matches Err(e) ==> spec_parse_bin(*byte_formatter, bytes@) == Err::<Seq<Command>, _>(e),
{
    if bytes.len() % 2 != 0 {
        return Err(DecodeError::OddLength);
    }

    let mut res: Vec<Command> = Vec::new();
    let mut i: usize = 0;

    proof {
        assert(bytes@.skip(0) =~= bytes@);
        if let Ok(all) = spec_parse_chunks(*byte_formatter, bytes@) {
            assert(all =~= Seq::<Command>::empty() + all);
        }
    }

    while i < bytes.len()
        invariant
            i % 2 == 0,
            i <= bytes@.len(),
            bytes@.len() % 2 == 0,
            spec_parse_chunks(*byte_formatter, bytes@) matches Ok(all) ==> {
                &&& spec_parse_chunks(*byte_formatter, bytes@.skip(i as int)) matches Ok(rest)
                &&& all == res@ + rest
            },
            spec_parse_chunks(*byte_formatter, bytes@) matches Err(e)
                ==> spec_parse_chunks(*byte_formatter, bytes@.skip(i as int)) == Err::<
                Seq<Command>,
                _,
            >(e),
        decreases bytes@.len() - i,
    {
        let chunk = vstd::slice::slice_subrange(bytes, i, i + 2);
        assert(chunk@[0] == bytes@.skip(i as int)[0]);
        assert(chunk@[1] == bytes@.skip(i as int)[1]);
        match parse_command(chunk, byte_formatter) {
            Err(e) => {
                return Err(e);
            },
            Ok(c) => {
                res.push(c);
                proof {
                    assert(bytes@.skip(i as int).skip(2) =~= bytes@.skip(i as int + 2));
                    if let Ok(rest2) = spec_parse_chunks(
                        *byte_formatter,
                        bytes@.skip(i as int + 2),
                    ) {
                        assert(res@ + rest2 =~= (res@.drop_last() + (seq![c] + rest2)));
                    }
                }
                i = i + 2;
            },
        }
    }

    proof {
        assert(bytes@.skip(bytes@.len() as int) =~= Seq::<u8>::empty());
        assert(res@ + Seq::<Command>::empty() =~= res@);
    }
    Ok(res)
}

/// Decoding a wire word undoes encoding: every encodable instruction whose
/// operand fits the 8-bit payload comes back unchanged.
pub proof fn lemma_encode_word_round_trip(c: Command)
    requires
        spec_encodable(c),
        spec_operand_fits(c.operand),
    ensures
        spec_parse_word(spec_encode_word(c)) == Ok::<_, DecodeError>(c),
{
    let code = c.command_type.spec_code()->0 as int;
    let tag = c.operand.spec_tag().spec_id() as int;
    let payload = crate::bin_encoder::spec_operand_payload(c.operand) as int;
    let w = spec_encode_word(c) as int;

    assert(0 <= code <= 10);
    assert(tag == 1 || tag == 2);
    assert(0 <= payload < 256);
    assert(w == code * 1024 + tag * 256 + payload);

    assert(w / 1024 == code) by (nonlinear_arith)
        requires
            w == code * 1024 + tag * 256 + payload,
            0 <= code,
            1 <= tag <= 2,
            0 <= payload < 256,
    ;
    assert(w / 256 % 4 == tag) by (nonlinear_arith)
        requires
            w == code * 1024 + tag * 256 + payload,
            0 <= code,
            1 <= tag <= 2,
            0 <= payload < 256,
    ;
    assert(w % 256 == payload) by (nonlinear_arith)
        requires
            w == code * 1024 + tag * 256 + payload,
            0 <= code,
            1 <= tag <= 2,
            0 <= payload < 256,
    ;

    crate::command::lemma_command_code_bijection();
    match c.operand {
        Operand::Literal(v) => {
            assert(payload == v as int);
        },
        Operand::Register(name) => {
            crate::register::lemma_register_id_bijection();
        },
    }
}

/// Decoding the wire bytes of an encoded instruction, under the same byte
/// order, gives the instruction back.
pub proof fn lemma_encode_bytes_round_trip<F: ByteFormatter>(f: F, c: Command)
    requires
        spec_encodable(c),
        spec_operand_fits(c.operand),
    ensures
        ({
            let w = spec_encode_word(c);
            spec_parse_word(f.spec_wrap(f.spec_unwrap(w).0, f.spec_unwrap(w).1)) == Ok::<
                _,
                DecodeError,
            >(c)
        }),
{
    f.lemma_wrap_unwrap(spec_encode_word(c));
    lemma_encode_word_round_trip(c);
}

} // verus!
