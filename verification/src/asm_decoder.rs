//! The assembler: line-oriented text to instructions.
//!
//! Per line: everything from the first `//` on is a comment; a line that is
//! empty after stripping is skipped; the rest must be exactly two tokens
//! separated by one space — a mnemonic, resolved case-insensitively, and an
//! operand, an unsigned 16-bit decimal integer or a case-insensitive register
//! name. The first faulty line aborts the whole assembly.
//!
//! The grammar is specified over each line's UTF-8 bytes. All mnemonics and
//! register names are ASCII, so byte-level matching coincides with character
//! matching; any non-ASCII token simply resolves to nothing.

use vstd::prelude::*;
use vstd::utf8::encode_utf8;
use crate::command::{Command, CommandType};
use crate::errors::{ParseError, ParseErrorKind};
use crate::operand::Operand;
use crate::register::RegisterName;

verus! {

/// An ASCII lowercase letter folded to uppercase; any other byte unchanged.
pub open spec fn spec_upper(b: u8) -> u8 {
    if 'a' as u8 <= b && b <= 'z' as u8 {
        (b - 32) as u8
    } else {
        b
    }
}

/// The opcode a token names, compared byte for byte ignoring ASCII case.
pub open spec fn spec_mnemonic(s: Seq<u8>) -> Option<CommandType> {
    if s.len() == 3 {
        let a = spec_upper(s[0]);
        let b = spec_upper(s[1]);
        let c = spec_upper(s[2]);
        if a == 'N' as u8 && b == 'O' as u8 && c == 'P' as u8 {
            Some(CommandType::NOP)
        } else if a == 'J' as u8 && b == 'M' as u8 && c == 'P' as u8 {
            Some(CommandType::JMP)
        } else if a == 'A' as u8 && b == 'D' as u8 && c == 'D' as u8 {
            Some(CommandType::ADD)
        } else if a == 'S' as u8 && b == 'U' as u8 && c == 'B' as u8 {
            Some(CommandType::SUB)
        } else if a == 'L' as u8 && b == 'A' as u8 && c == 'C' as u8 {
            Some(CommandType::LAC)
        } else if a == 'D' as u8 && b == 'A' as u8 && c == 'C' as u8 {
            Some(CommandType::DAC)
        } else if a == 'C' as u8 && b == 'M' as u8 && c == 'P' as u8 {
            Some(CommandType::CMP)
        } else if a == 'M' as u8 && b == 'O' as u8 && c == 'V' as u8 {
            Some(CommandType::MOV)
        } else if a == 'L' as u8 && b == 'R' as u8 && c == 'G' as u8 {
            Some(CommandType::LRG)
        } else {
            None
        }
    } else if s.len() == 4 {
        let a = spec_upper(s[0]);
        let b = spec_upper(s[1]);
        let c = spec_upper(s[2]);
        let d = spec_upper(s[3]);
        if a == 'J' as u8 && b == 'M' as u8 && c == 'P' as u8 && d == 'G' as u8 {
            Some(CommandType::JMPG)
        } else if a == 'M' as u8 && b == 'U' as u8 && c == 'L' as u8 && d == 'T' as u8 {
            Some(CommandType::MULT)
        } else {
            None
        }
    } else if s.len() == 5 {
        let a = spec_upper(s[0]);
        let b = spec_upper(s[1]);
        let c = spec_upper(s[2]);
        let d = spec_upper(s[3]);
        let e = spec_upper(s[4]);
        if a == 'J' as u8 && b == 'M' as u8 && c == 'P' as u8 && d == 'N' as u8 && e == 'G' as u8 {
            Some(CommandType::JMPNG)
        } else {
            None
        }
    } else {
        None
    }
}

/// The register a token names, compared byte for byte ignoring ASCII case.
pub open spec fn spec_register_name(s: Seq<u8>) -> Option<RegisterName> {
    if s.len() == 3 {
        let a = spec_upper(s[0]);
        let b = spec_upper(s[1]);
        let c = spec_upper(s[2]);
        if a == 'A' as u8 && b == 'C' as u8 && c == 'C' as u8 {
            Some(RegisterName::Acc)
        } else if a == 'R' as u8 && b == 'G' as u8 && c == '1' as u8 {
            Some(RegisterName::Rg1)
        } else if a == 'R' as u8 && b == 'G' as u8 && c == '2' as u8 {
            Some(RegisterName::Rg2)
        } else if a == 'R' as u8 && b == 'G' as u8 && c == '3' as u8 {
            Some(RegisterName::Rg3)
        } else if a == 'R' as u8 && b == 'G' as u8 && c == '4' as u8 {
            Some(RegisterName::Rg4)
        } else if a == 'R' as u8 && b == 'G' as u8 && c == '5' as u8 {
            Some(RegisterName::Rg5)
        } else {
            None
        }
    } else {
        None
    }
}

/// An ASCII decimal digit.
pub open spec fn spec_is_digit(b: u8) -> bool {
    '0' as u8 <= b && b <= '9' as u8
}

/// Every byte of the token is a digit.
pub open spec fn spec_all_digits(s: Seq<u8>) -> bool {
    forall|i: int| 0 <= i < s.len() ==> spec_is_digit(#[trigger] s[i])
}

/// The number a digit string denotes, most significant digit first.
pub open spec fn spec_digits_val(s: Seq<u8>) -> int
    decreases s.len(),
{
    if s.len() == 0 {
        0
    } else {
        spec_digits_val(s.drop_last()) * 10 + (s.last() - '0' as u8)
    }
}

/// The unsigned 16-bit integer a token denotes: an optional leading plus sign,
/// then one or more digits, value at most 65535; anything else is no integer.
pub open spec fn spec_parse_u16(s: Seq<u8>) -> Option<u16> {
    let t = if s.len() > 0 && s[0] == '+' as u8 {
        s.skip(1)
    } else {
        s
    };
    if t.len() > 0 && spec_all_digits(t) && spec_digits_val(t) <= 0xFFFF {
        Some(spec_digits_val(t) as u16)
    } else {
        None
    }
}

/// The operand a token denotes: an integer if it parses as one, otherwise a
/// register name, otherwise nothing.
pub open spec fn spec_operand_text(s: Seq<u8>) -> Option<Operand> {
    match spec_parse_u16(s) {
        Some(v) => Some(Operand::Literal(v)),
        None => match spec_register_name(s) {
            Some(name) => Some(Operand::Register(name)),
            None => None,
        },
    }
}

/// Where the line's comment starts: the first position where `//` begins, or
/// the line's length when there is no comment.
pub open spec fn spec_comment_start(s: Seq<u8>) -> int
    decreases s.len(),
{
    if s.len() < 2 {
        s.len() as int
    } else if s[0] == '/' as u8 && s[1] == '/' as u8 {
        0
    } else {
        1 + spec_comment_start(s.skip(1))
    }
}

/// How many space bytes the token holds.
pub open spec fn spec_space_count(s: Seq<u8>) -> int
    decreases s.len(),
{
    if s.len() == 0 {
        0
    } else {
        (if s[0] == ' ' as u8 {
            1int
        } else {
            0int
        }) + spec_space_count(s.skip(1))
    }
}

/// The position of the first space byte (the token's length when it has none).
pub open spec fn spec_first_space(s: Seq<u8>) -> int
    decreases s.len(),
{
    if s.len() == 0 {
        0
    } else if s[0] == ' ' as u8 {
        0
    } else {
        1 + spec_first_space(s.skip(1))
    }
}

/// What one line of assembly text yields: nothing for a line that is empty
/// after comment stripping; otherwise the instruction of its two tokens, or
/// the fault that rejects the line.
pub open spec fn spec_parse_line(s: Seq<u8>) -> Result<Option<Command>, ParseErrorKind> {
    let stripped = s.take(spec_comment_start(s));
    if stripped.len() == 0 {
        Ok(None)
    } else if spec_space_count(stripped) != 1 {
        Err(ParseErrorKind::MalformedLine)
    } else {
        let sp = spec_first_space(stripped);
        match spec_mnemonic(stripped.take(sp)) {
            None => Err(ParseErrorKind::UnknownMnemonic),
            Some(command_type) => match spec_operand_text(stripped.skip(sp + 1)) {
                None => Err(ParseErrorKind::UnknownOperand),
                Some(operand) => Ok(Some(Command { command_type, operand })),
            },
        }
    }
}

/// What the lines from index `i` on assemble to: the instructions of the
/// remaining lines in order, or the first fault with its line index.
pub open spec fn spec_parse_asm_from(lines: Seq<Seq<u8>>, i: int) -> Result<Seq<Command>, ParseError>
    decreases lines.len() - i,
{
    if i < 0 || i >= lines.len() {
        Ok(Seq::empty())
    } else {
        match spec_parse_line(lines[i]) {
            Err(kind) => Err(ParseError { line: i as usize, kind }),
            Ok(None) => spec_parse_asm_from(lines, i + 1),
            Ok(Some(c)) => match spec_parse_asm_from(lines, i + 1) {
                Err(e) => Err(e),
                Ok(rest) => Ok(seq![c] + rest),
            },
        }
    }
}

/// What a whole assembly text yields, line by line from the top.
pub open spec fn spec_parse_asm(lines: Seq<Seq<u8>>) -> Result<Seq<Command>, ParseError> {
    spec_parse_asm_from(lines, 0)
}

/// The UTF-8 bytes of each line.
pub open spec fn spec_lines_bytes(lines: Seq<String>) -> Seq<Seq<u8>> {
    Seq::new(lines.len(), |j: int| encode_utf8(lines[j]@))
}

/// Fold one byte to uppercase ASCII.
fn upper(b: u8) -> (r: u8)
    ensures
        r == spec_upper(b),
{
    if b >= 'a' as u8 && b <= 'z' as u8 {
        b - 32
    } else {
        b
    }
}

/// Resolve a mnemonic token, ignoring ASCII case.
fn parse_mnemonic(t: &[u8]) -> (r: Option<CommandType>)
    ensures
        r == spec_mnemonic(t@),
{
    if t.len() == 3 {
        let a = upper(t[0]);
        let b = upper(t[1]);
        let c = upper(t[2]);
        if a == 'N' as u8 && b == 'O' as u8 && c == 'P' as u8 {
            Some(CommandType::NOP)
        } else if a == 'J' as u8 && b == 'M' as u8 && c == 'P' as u8 {
            Some(CommandType::JMP)
        } else if a == 'A' as u8 && b == 'D' as u8 && c == 'D' as u8 {
            Some(CommandType::ADD)
        } else if a == 'S' as u8 && b == 'U' as u8 && c == 'B' as u8 {
            Some(CommandType::SUB)
        } else if a == 'L' as u8 && b == 'A' as u8 && c == 'C' as u8 {
            Some(CommandType::LAC)
        } else if a == 'D' as u8 && b == 'A' as u8 && c == 'C' as u8 {
            Some(CommandType::DAC)
        } else if a == 'C' as u8 && b == 'M' as u8 && c == 'P' as u8 {
            Some(CommandType::CMP)
        } else if a == 'M' as u8 && b == 'O' as u8 && c == 'V' as u8 {
            Some(CommandType::MOV)
        } else if a == 'L' as u8 && b == 'R' as u8 && c == 'G' as u8 {
            Some(CommandType::LRG)
        } else {
            None
        }
    } else if t.len() == 4 {
        let a = upper(t[0]);
        let b = upper(t[1]);
        let c = upper(t[2]);
        let d = upper(t[3]);
        if a == 'J' as u8 && b == 'M' as u8 && c == 'P' as u8 && d == 'G' as u8 {
            Some(CommandType::JMPG)
        } else if a == 'M' as u8 && b == 'U' as u8 && c == 'L' as u8 && d == 'T' as u8 {
            Some(CommandType::MULT)
        } else {
            None
        }
    } else if t.len() == 5 {
        let a = upper(t[0]);
        let b = upper(t[1]);
        let c = upper(t[2]);
        let d = upper(t[3]);
        let e = upper(t[4]);
        if a == 'J' as u8 && b == 'M' as u8 && c == 'P' as u8 && d == 'N' as u8 && e == 'G' as u8 {
            Some(CommandType::JMPNG)
        } else {
            None
        }
    } else {
        None
    }
}

/// Resolve a register-name token, ignoring ASCII case.
fn parse_register_name(t: &[u8]) -> (r: Option<RegisterName>)
    ensures
        r == spec_register_name(t@),
{
    if t.len() == 3 {
        let a = upper(t[0]);
        let b = upper(t[1]);
        let c = upper(t[2]);
        if a == 'A' as u8 && b == 'C' as u8 && c == 'C' as u8 {
            Some(RegisterName::Acc)
        } else if a == 'R' as u8 && b == 'G' as u8 && c == '1' as u8 {
            Some(RegisterName::Rg1)
        } else if a == 'R' as u8 && b == 'G' as u8 && c == '2' as u8 {
            Some(RegisterName::Rg2)
        } else if a == 'R' as u8 && b == 'G' as u8 && c == '3' as u8 {
            Some(RegisterName::Rg3)
        } else if a == 'R' as u8 && b == 'G' as u8 && c == '4' as u8 {
            Some(RegisterName::Rg4)
        } else if a == 'R' as u8 && b == 'G' as u8 && c == '5' as u8 {
            Some(RegisterName::Rg5)
        } else {
            None
        }
    } else {
        None
    }
}

/// A nonempty all-digit string denotes a value no smaller than any prefix's.
proof fn lemma_digits_val_monotone(s: Seq<u8>, k: int)
    requires
        spec_all_digits(s),
        0 <= k <= s.len(),
    ensures
        spec_digits_val(s.take(k)) >= 0,
        spec_digits_val(s) >= spec_digits_val(s.take(k)),
    decreases s.len() - k,
{
    lemma_digits_val_nonneg(s.take(k));
    if k < s.len() {
        assert(s.take(k + 1).drop_last() =~= s.take(k));
        assert(s.take(k + 1).last() == s[k]);
        lemma_digits_val_monotone(s, k + 1);
    } else {
        assert(s.take(k) =~= s);
    }
}

/// A digit string's value is never negative.
proof fn lemma_digits_val_nonneg(s: Seq<u8>)
    requires
        spec_all_digits(s),
    ensures
        spec_digits_val(s) >= 0,
    decreases s.len(),
{
    if s.len() > 0 {
        assert(spec_all_digits(s.drop_last())) by {
            assert(forall|i: int| 0 <= i < s.len() - 1 ==> s.drop_last()[i] == s[i]);
        }
        lemma_digits_val_nonneg(s.drop_last());
    }
}

/// Parse a decimal unsigned 16-bit integer token: an optional leading plus
/// sign, then digits; rejects anything else, including values above 65535.
fn parse_u16_text(t: &[u8]) -> (r: Option<u16>)
    ensures
        r == spec_parse_u16(t@),
{
    let start: usize = if t.len() > 0 && t[0] == '+' as u8 {
        1
    } else {
        0
    };
    let ghost digits = t@.skip(start as int);

    proof {
        assert(t@.skip(0int) =~= t@);
    }
    if t.len() == start {
        return None;
    }

    let mut acc: u16 = 0;
    let mut i: usize = start;

    proof {
        assert(digits.take(0) =~= Seq::<u8>::empty());
    }
    while i < t.len()
        invariant
            start <= i <= t@.len(),
            start <= 1,
            (start == 1) <==> (t@.len() > 0 && t@[0] == '+' as u8),
            start == 0 ==> digits == t@,
            digits == t@.skip(start as int),
            forall|j: int| 0 <= j < i - start ==> spec_is_digit(#[trigger] digits[j]),
            acc == spec_digits_val(digits.take(i - start)),
            acc <= 0xFFFF,
        decreases t@.len() - i,
    {
        let b = t[i];
        proof {
            assert(digits[i - start] == t@[i as int]);
        }
        if b < '0' as u8 || b > '9' as u8 {
            proof {
                assert(!spec_is_digit(digits[i - start]));
            }
            return None;
        }
        let dv = (b - '0' as u8) as u16;
        proof {
            assert(digits.take(i - start + 1).drop_last() =~= digits.take(i - start));
            assert(digits.take(i - start + 1).last() == digits[i - start]);
        }
        if acc > 6553 || (acc == 6553 && dv > 5) {
            proof {
                if spec_all_digits(digits) {
                    lemma_digits_val_monotone(digits, i - start + 1);
                    assert(spec_digits_val(digits.take(i - start + 1)) > 0xFFFF);
                }
            }
            return None;
        }
        acc = acc * 10 + dv;
        i = i + 1;
    }
    proof {
        assert(digits.take(t@.len() - start) =~= digits);
    }
    Some(acc)
}

/// Resolve an operand token: an unsigned 16-bit integer first, then a register
/// name.
fn parse_operand_bytes(t: &[u8]) -> (r: Option<Operand>)
    ensures
        r == spec_operand_text(t@),
{
    match parse_u16_text(t) {
        Some(v) => Some(Operand::Literal(v)),
        None => match parse_register_name(t) {
            Some(name) => Some(Operand::Register(name)),
            None => None,
        },
    }
}

/// Resolve an operand token given as text: an unsigned 16-bit decimal integer,
/// or a case-insensitive register name; anything else is rejected.
pub fn parse_operand(data: &str) -> (r: Result<Operand, ParseErrorKind>)
    ensures
        r == match spec_operand_text(encode_utf8(data@)) {
            Some(op) => Ok::<Operand, ParseErrorKind>(op),
            None => Err::<Operand, ParseErrorKind>(ParseErrorKind::UnknownOperand),
        },
{
    match parse_operand_bytes(data.as_bytes()) {
        Some(op) => Ok(op),
        None => Err(ParseErrorKind::UnknownOperand),
    }
}

/// Where the comment marker `//` first begins in the line, or the line's
/// length when it holds none.
fn comment_start(line: &[u8]) -> (cut: usize)
    ensures
        cut as int == spec_comment_start(line@),
        cut <= line@.len(),
{
    let mut i: usize = 0;
    proof {
        assert(line@.skip(0) =~= line@);
        lemma_comment_start_bounds(line@);
    }
    while i < line.len() && i + 1 < line.len()
        invariant
            i <= line@.len(),
            spec_comment_start(line@) == i + spec_comment_start(line@.skip(i as int)),
            spec_comment_start(line@) <= line@.len(),
        decreases line@.len() - i,
    {
        if line[i] == '/' as u8 && line[i + 1] == '/' as u8 {
            proof {
                assert(line@.skip(i as int)[0] == line@[i as int]);
                assert(line@.skip(i as int)[1] == line@[i as int + 1]);
            }
            return i;
        }
        proof {
            assert(line@.skip(i as int)[0] == line@[i as int]);
            assert(line@.skip(i as int)[1] == line@[i as int + 1]);
            assert(line@.skip(i as int).skip(1) =~= line@.skip(i as int + 1));
        }
        i = i + 1;
    }
    line.len()
}

/// The comment start never lies beyond the line's end.
proof fn lemma_comment_start_bounds(s: Seq<u8>)
    ensures
        0 <= spec_comment_start(s) <= s.len(),
    decreases s.len(),
{
    if s.len() >= 2 && !(s[0] == '/' as u8 && s[1] == '/' as u8) {
        lemma_comment_start_bounds(s.skip(1));
    }
}

/// Count the spaces in the stripped line and find the first one.
fn scan_spaces(s: &[u8]) -> (r: (usize, usize))
    ensures
        r.0 as int == spec_space_count(s@),
        r.0 > 0 ==> r.1 as int == spec_first_space(s@) && r.1 < s@.len() && s@[r.1 as int] == ' ' as u8,
{
    let mut count: usize = 0;
    let mut first: usize = 0;
    let mut i: usize = 0;

    proof {
        assert(s@.skip(0) =~= s@);
    }
    while i < s.len()
        invariant
            i <= s@.len(),
            count <= i,
            spec_space_count(s@) == count + spec_space_count(s@.skip(i as int)),
            count == 0 ==> spec_first_space(s@) == i + spec_first_space(s@.skip(i as int)),
            count > 0 ==> first as int == spec_first_space(s@) && first < s@.len() && s@[first as int]
                == ' ' as u8,
        decreases s@.len() - i,
    {
        proof {
            assert(s@.skip(i as int)[0] == s@[i as int]);
            assert(s@.skip(i as int).skip(1) =~= s@.skip(i as int + 1));
        }
        if s[i] == ' ' as u8 {
            if count == 0 {
                first = i;
            }
            count = count + 1;
        }
        i = i + 1;
    }
    proof {
        lemma_space_count_nonneg(s@.skip(i as int));
    }
    (count, first)
}

/// A space count is never negative.
proof fn lemma_space_count_nonneg(s: Seq<u8>)
    ensures
        spec_space_count(s) >= 0,
    decreases s.len(),
{
    if s.len() > 0 {
        lemma_space_count_nonneg(s.skip(1));
    }
}

/// Parse one line's bytes: a skipped blank, an instruction, or the fault that
/// rejects the line.
fn parse_line(line: &[u8]) -> (r: Result<Option<Command>, ParseErrorKind>)
    ensures
        r == spec_parse_line(line@),
{
    let cut = comment_start(line);
    let stripped = vstd::slice::slice_subrange(line, 0, cut);
    proof {
        assert(stripped@ =~= line@.take(spec_comment_start(line@)));
    }

    if stripped.len() == 0 {
        return Ok(None);
    }

    let (count, sp) = scan_spaces(stripped);
    if count != 1 {
        return Err(ParseErrorKind::MalformedLine);
    }

    let mnemonic = vstd::slice::slice_subrange(stripped, 0, sp);
    let operand_text = vstd::slice::slice_subrange(stripped, sp + 1, stripped.len());
    proof {
        assert(mnemonic@ =~= stripped@.take(sp as int));
        assert(operand_text@ =~= stripped@.skip(sp as int + 1));
    }

    let command_type = match parse_mnemonic(mnemonic) {
        Some(ct) => ct,
        None => {
            return Err(ParseErrorKind::UnknownMnemonic);
        },
    };
    match parse_operand_bytes(operand_text) {
        Some(operand) => Ok(Some(Command { command_type, operand })),
        None => Err(ParseErrorKind::UnknownOperand),
    }
}

/// Assemble a whole text: one instruction per non-blank line, in line order.
/// The first faulty line aborts the assembly and is reported with its
/// zero-based index.
pub fn parse_asm(lines: &[String]) -> (r: Result<Vec<Command>, ParseError>)
    ensures
        r matches Ok(cs) ==> spec_parse_asm(spec_lines_bytes(lines@)) == Ok::<_, ParseError>(cs@),
        r matches Err(e) ==> spec_parse_asm(spec_lines_bytes(lines@)) == Err::<Seq<Command>, _>(e),
{
    let ghost all = spec_lines_bytes(lines@);
    let mut res: Vec<Command> = Vec::new();
    let mut i: usize = 0;

    proof {
        if let Ok(whole) = spec_parse_asm_from(all, 0) {
            assert(whole =~= Seq::<Command>::empty() + whole);
        }
    }
    while i < lines.len()
        invariant
            i <= lines@.len(),
            all == spec_lines_bytes(lines@),
            spec_parse_asm_from(all, 0) matches Ok(whole) ==> {
                &&& spec_parse_asm_from(all, i as int) matches Ok(rest)
                &&& whole == res@ + rest
            },
            spec_parse_asm_from(all, 0) matches Err(e) ==> spec_parse_asm_from(all, i as int)
                == Err::<Seq<Command>, _>(e),
        decreases lines@.len() - i,
    {
        let line: &String = vstd::slice::slice_index_get(lines, i);
        let bytes: &[u8] = line.as_str().as_bytes();
        proof {
            assert(bytes@ == all[i as int]);
        }
        match parse_line(bytes) {
            Err(kind) => {
                return Err(ParseError { line: i, kind });
            },
            Ok(None) => {
                i = i + 1;
            },
            Ok(Some(c)) => {
                res.push(c);
                proof {
                    if let Ok(rest2) = spec_parse_asm_from(all, i as int + 1) {
                        assert(res@ + rest2 =~= (res@.drop_last() + (seq![c] + rest2)));
                    }
                }
                i = i + 1;
            },
        }
    }
    proof {
        assert(res@ + Seq::<Command>::empty() =~= res@);
    }
    Ok(res)
}

} // verus!
