//! The grammar of the fields of the table, each read from its text.
use vstd::prelude::*;
use vstd::string::StrSliceExecFns;
use vstd::string::StringExecFns;

use super::instruction_set::{Operand, OperandEncoding};
use super::instruction_set_variant_property::VariantProperty;
use crate::generator::text::{
    equals, hex_value, parse_hex_digit, split, split_text, trim, trimmed, views,
};

verus! {

/// Why a field of the table could not be read.
#[derive(Debug, Clone, Copy, PartialEq, Eq, Structural, Hash)]
pub enum TableError {
    /// A text names no property of a variant.
    InvalidFlag,
    /// A text names no class of operand encoding.
    InvalidOperandEncoding,
    /// What stands before a `+` in an opcode is neither `O` nor `REX.W`.
    InvalidOpcodePrefix,
    /// The hexadecimal digits of an opcode are odd in number.
    OddOpcodeLength,
    /// An opcode has more than eight hexadecimal digits.
    OpcodeTooLong,
    /// An opcode holds what is no hexadecimal digit.
    InvalidOpcodeHex,
    /// A mnemonic or a name does not start with a letter, or holds what is
    /// neither letter nor digit.
    InvalidAlphaString,
    /// A text names no kind of operand.
    InvalidOperandName,
}

/// Whether Unicode counts `c` among the alphabetic characters.
pub uninterp spec fn is_alphabetic(c: char) -> bool;

/// Whether Unicode counts `c` among the alphabetic or the numeric
/// characters.
pub uninterp spec fn is_alphanumeric(c: char) -> bool;

/// Calls `char::is_alphabetic` of the standard library, which tells whether
/// a character has the Unicode property Alphabetic. Its result depends on
/// the character alone and is given the name `is_alphabetic`.
#[verifier::external_body]
fn char_is_alphabetic(c: char) -> (alphabetic: bool)
    ensures
        alphabetic == is_alphabetic(c),
{
    c.is_alphabetic()
}

/// Calls `char::is_alphanumeric` of the standard library, which tells
/// whether a character is alphabetic or numeric in Unicode's terms. Its
/// result depends on the character alone and is given the name
/// `is_alphanumeric`.
#[verifier::external_body]
fn char_is_alphanumeric(c: char) -> (alphanumeric: bool)
    ensures
        alphanumeric == is_alphanumeric(c),
{
    c.is_alphanumeric()
}

/// The byte that a prefix token of an opcode stands for.
pub open spec fn opcode_prefix(token: Seq<char>) -> Option<u8> {
    if token == "O"@ {
        Some(0x66u8)
    } else if token == "REX.W"@ {
        Some(0x48u8)
    } else {
        None
    }
}

/// The bytes that the prefix tokens stand for, if each of them is one.
pub open spec fn opcode_prefixes(tokens: Seq<Seq<char>>) -> Option<Seq<u8>>
    decreases tokens.len(),
{
    if tokens.len() == 0 {
        Some(Seq::empty())
    } else {
        match (opcode_prefixes(tokens.drop_last()), opcode_prefix(trimmed(tokens.last()))) {
            (Some(bytes), Some(byte)) => Some(bytes.push(byte)),
            _ => None,
        }
    }
}

/// The bytes that pairs of hexadecimal digits stand for, if all of them are
/// digits. The digits are even in number.
pub open spec fn hex_bytes(digits: Seq<char>) -> Option<Seq<u8>>
    decreases digits.len(),
{
    if digits.len() < 2 {
        Some(Seq::empty())
    } else {
        match (
            hex_bytes(digits.take(digits.len() - 2)),
            hex_value(digits[digits.len() - 2]),
            hex_value(digits[digits.len() - 1]),
        ) {
            (Some(bytes), Some(high), Some(low)) => Some(bytes.push((high * 16 + low) as u8)),
            _ => None,
        }
    }
}

/// The opcode that a text of the table stands for.
///
/// The text is cut at each `+`. The last piece holds the hexadecimal digits
/// of the opcode, an even number of them and eight at most. Each piece
/// before it is a prefix token, `O` for 0x66 or `REX.W` for 0x48, whose byte
/// goes before the bytes of the opcode. White space around the text and
/// around each piece does not count.
pub open spec fn parse_opcode(text: Seq<char>) -> Result<Seq<u8>, TableError> {
    let pieces = split(trimmed(text), '+');
    let digits = trimmed(pieces.last());
    match opcode_prefixes(pieces.drop_last()) {
        None => Err(TableError::InvalidOpcodePrefix),
        Some(prefixes) => if digits.len() % 2 != 0 {
            Err(TableError::OddOpcodeLength)
        } else if digits.len() > 8 {
            Err(TableError::OpcodeTooLong)
        } else {
            match hex_bytes(digits) {
                None => Err(TableError::InvalidOpcodeHex),
                Some(bytes) => Ok(prefixes + bytes),
            }
        },
    }
}

/// What a vector of bytes holds, or the error in its place.
pub open spec fn bytes_view(result: Result<Vec<u8>, TableError>) -> Result<Seq<u8>, TableError> {
    match result {
        Ok(bytes) => Ok(bytes@),
        Err(error) => Err(error),
    }
}

/// Reads an opcode.
pub fn deserialize_opcode(text: &str) -> (result: Result<Vec<u8>, TableError>)
    ensures
        bytes_view(result) == parse_opcode(text@),
{
    let s = trim(text);
    let total_opcode = split_text(s, '+');
    let total_opcode_len = total_opcode.len();
    let mut result: Vec<u8> = Vec::new();
    let ghost pieces = split(trimmed(text@), '+');
    let mut n: usize = 0;
    assert(pieces.drop_last().take(0) =~= Seq::<Seq<char>>::empty());
    while n < total_opcode_len - 1
        invariant
            n <= total_opcode_len - 1,
            total_opcode_len == total_opcode@.len(),
            views(total_opcode@) == pieces,
            pieces == split(trimmed(text@), '+'),
            opcode_prefixes(pieces.drop_last().take(n as int)) == Some(result@),
            opcode_prefixes(pieces.drop_last().take(n as int)) is None ==> opcode_prefixes(
                pieces.drop_last(),
            ) is None,
        decreases total_opcode_len - n,
    {
        let prefix = trim(total_opcode[n]);
        proof {
            let tokens = pieces.drop_last();
            assert(tokens.take(n + 1).drop_last() =~= tokens.take(n as int));
            assert(tokens.take(n + 1).last() == pieces[n as int]);
            assert(pieces[n as int] == total_opcode@[n as int]@);
        }
        if equals(prefix, "O") {
            result.push(0x66);
        } else if equals(prefix, "REX.W") {
            result.push(0x48);
        } else {
            proof {
                lemma_opcode_prefixes_fail(pieces.drop_last(), n + 1);
            }
            return Err(TableError::InvalidOpcodePrefix);
        }
        n += 1;
    }
    assert(pieces.drop_last().take(n as int) =~= pieces.drop_last());
    let ghost prefixes = result@;
    let opcode = trim(total_opcode[total_opcode_len - 1]);
    assert(opcode@ == trimmed(pieces.last()));
    let len = opcode.unicode_len();
    if len % 2 != 0 {
        return Err(TableError::OddOpcodeLength);
    }
    if len > 8 {
        return Err(TableError::OpcodeTooLong);
    }
    let mut idx: usize = 0;
    assert(opcode@.take(0) =~= Seq::<char>::empty());
    while idx < len
        invariant
            idx <= len <= 8,
            idx % 2 == 0,
            len % 2 == 0,
            len == opcode@.len(),
            pieces == split(trimmed(text@), '+'),
            opcode@ == trimmed(pieces.last()),
            opcode_prefixes(pieces.drop_last()) == Some(prefixes),
            hex_bytes(opcode@.take(idx as int)) matches Some(bytes) && result@ == prefixes + bytes,
        decreases len - idx,
    {
        let high = parse_hex_digit(opcode.get_char(idx));
        let low = parse_hex_digit(opcode.get_char(idx + 1));
        proof {
            assert(opcode@.take(idx + 2).take(idx as int) =~= opcode@.take(idx as int));
        }
        match (high, low) {
            (Some(high), Some(low)) => {
                let ghost bytes = hex_bytes(opcode@.take(idx as int))->0;
                result.push(high * 16 + low);
                assert(result@ =~= prefixes + bytes.push((high * 16 + low) as u8));
            },
            _ => {
                proof {
                    lemma_hex_bytes_fail(opcode@, idx + 2);
                }
                return Err(TableError::InvalidOpcodeHex);
            },
        }
        idx += 2;
    }
    assert(opcode@.take(idx as int) =~= opcode@);
    Ok(result)
}

/// Where some of the first tokens is no prefix, the tokens as a whole are
/// none.
proof fn lemma_opcode_prefixes_fail(tokens: Seq<Seq<char>>, n: int)
    requires
        0 <= n <= tokens.len(),
        opcode_prefixes(tokens.take(n)) is None,
    ensures
        opcode_prefixes(tokens) is None,
    decreases tokens.len() - n,
{
    if n < tokens.len() {
        assert(tokens.take(n + 1).drop_last() =~= tokens.take(n));
        lemma_opcode_prefixes_fail(tokens, n + 1);
    } else {
        assert(tokens.take(n) =~= tokens);
    }
}

/// Where some of the first pairs of digits is no byte, the digits as a whole
/// are none.
proof fn lemma_hex_bytes_fail(digits: Seq<char>, n: int)
    requires
        0 <= n <= digits.len(),
        n % 2 == 0,
        digits.len() % 2 == 0,
        hex_bytes(digits.take(n)) is None,
    ensures
        hex_bytes(digits) is None,
    decreases digits.len() - n,
{
    if n < digits.len() {
        assert(digits.take(n + 2).take(n) =~= digits.take(n));
        lemma_hex_bytes_fail(digits, n + 2);
    } else {
        assert(digits.take(n) =~= digits);
    }
}

/// Whether `s` is empty, or starts with a letter and goes on with letters
/// and digits.
pub open spec fn is_alpha_string(s: Seq<char>) -> bool {
    s.len() > 0 ==> is_alphabetic(s[0]) && forall|i: int|
        1 <= i < s.len() ==> is_alphanumeric(#[trigger] s[i])
}

/// Reads a mnemonic or a name: the text without the white space around it,
/// if that is empty or starts with a letter and goes on with letters and
/// digits.
pub fn deserialize_alpha_string(text: &str) -> (result: Result<String, TableError>)
    ensures
        result is Ok <==> is_alpha_string(trimmed(text@)),
        result matches Ok(name) ==> name@ == trimmed(text@),
        result matches Err(error) ==> error == TableError::InvalidAlphaString,
{
    let s = trim(text);
    let len = s.unicode_len();
    if len == 0 {
        return Ok(String::new());
    }
    if !char_is_alphabetic(s.get_char(0)) {
        return Err(TableError::InvalidAlphaString);
    }
    let mut i: usize = 1;
    while i < len
        invariant
            1 <= i <= len,
            len == s@.len(),
            s@ == trimmed(text@),
            is_alphabetic(s@[0]),
            forall|j: int| 1 <= j < i ==> is_alphanumeric(#[trigger] s@[j]),
        decreases len - i,
    {
        if !char_is_alphanumeric(s.get_char(i)) {
            return Err(TableError::InvalidAlphaString);
        }
        i += 1;
    }
    Ok(String::from_str(s))
}

/// The operands that the pieces name, if each of them names one. White
/// space around a piece does not count.
pub open spec fn operands_of(pieces: Seq<Seq<char>>) -> Option<Seq<Operand>>
    decreases pieces.len(),
{
    if pieces.len() == 0 {
        Some(Seq::empty())
    } else {
        match (operands_of(pieces.drop_last()), Operand::parse(trimmed(pieces.last()))) {
            (Some(operands), Some(operand)) => Some(operands.push(operand)),
            _ => None,
        }
    }
}

/// Where some of the first pieces names no operand, the pieces as a whole
/// name none.
proof fn lemma_operands_of_fail(pieces: Seq<Seq<char>>, n: int)
    requires
        0 <= n <= pieces.len(),
        operands_of(pieces.take(n)) is None,
    ensures
        operands_of(pieces) is None,
    decreases pieces.len() - n,
{
    if n < pieces.len() {
        assert(pieces.take(n + 1).drop_last() =~= pieces.take(n));
        lemma_operands_of_fail(pieces, n + 1);
    } else {
        assert(pieces.take(n) =~= pieces);
    }
}

/// Reads a list of operands: the names of their kinds with commas between
/// them.
pub fn deserialize_operands(text: &str) -> (result: Result<Vec<Operand>, TableError>)
    ensures
        result is Ok <==> operands_of(split(text@, ',')) is Some,
        result matches Ok(operands) ==> operands_of(split(text@, ',')) == Some(operands@),
        result matches Err(error) ==> error == TableError::InvalidOperandName,
{
    let pieces = split_text(text, ',');
    let ghost all = split(text@, ',');
    let mut result: Vec<Operand> = Vec::new();
    let mut n: usize = 0;
    assert(all.take(0) =~= Seq::<Seq<char>>::empty());
    while n < pieces.len()
        invariant
            n <= pieces@.len(),
            views(pieces@) == all,
            all == split(text@, ','),
            operands_of(all.take(n as int)) == Some(result@),
        decreases pieces@.len() - n,
    {
        proof {
            assert(all.take(n + 1).drop_last() =~= all.take(n as int));
            assert(all.take(n + 1).last() == pieces@[n as int]@);
        }
        match Operand::from_name(trim(pieces[n])) {
            Some(operand) => result.push(operand),
            None => {
                proof {
                    lemma_operands_of_fail(all, n + 1);
                }
                return Err(TableError::InvalidOperandName);
            },
        }
        n += 1;
    }
    assert(all.take(n as int) =~= all);
    Ok(result)
}

/// The properties that the pieces name together, if each of them names
/// some. White space around a piece does not count.
pub open spec fn properties_of(pieces: Seq<Seq<char>>) -> Option<VariantProperty>
    decreases pieces.len(),
{
    if pieces.len() == 0 {
        Some(VariantProperty { prefix_rex: false, prefix_rex_w: false, prefix_oso: false })
    } else {
        match (properties_of(pieces.drop_last()), VariantProperty::parse(trimmed(pieces.last()))) {
            (Some(flags), Some(flag)) => Some(flags.spec_union(flag)),
            _ => None,
        }
    }
}

/// Where some of the first pieces names no property, the pieces as a whole
/// name none.
proof fn lemma_properties_of_fail(pieces: Seq<Seq<char>>, n: int)
    requires
        0 <= n <= pieces.len(),
        properties_of(pieces.take(n)) is None,
    ensures
        properties_of(pieces) is None,
    decreases pieces.len() - n,
{
    if n < pieces.len() {
        assert(pieces.take(n + 1).drop_last() =~= pieces.take(n));
        lemma_properties_of_fail(pieces, n + 1);
    } else {
        assert(pieces.take(n) =~= pieces);
    }
}

/// Reads the properties of a variant: their names with commas between them.
/// White space around the text does not count.
pub fn deserialize_variant_property(text: &str) -> (result: Result<VariantProperty, TableError>)
    ensures
        result is Ok <==> properties_of(split(trimmed(text@), ',')) is Some,
        result matches Ok(flags) ==> properties_of(split(trimmed(text@), ',')) == Some(flags),
        result matches Err(error) ==> error == TableError::InvalidFlag,
{
    let s = trim(text);
    let pieces = split_text(s, ',');
    let ghost all = split(trimmed(text@), ',');
    let mut result = VariantProperty::Empty();
    let mut n: usize = 0;
    assert(all.take(0) =~= Seq::<Seq<char>>::empty());
    while n < pieces.len()
        invariant
            n <= pieces@.len(),
            views(pieces@) == all,
            all == split(trimmed(text@), ','),
            properties_of(all.take(n as int)) == Some(result),
        decreases pieces@.len() - n,
    {
        proof {
            assert(all.take(n + 1).drop_last() =~= all.take(n as int));
            assert(all.take(n + 1).last() == pieces@[n as int]@);
        }
        match VariantProperty::try_from(trim(pieces[n])) {
            Ok(flag) => {
                result = result.union(flag);
            },
            Err(_) => {
                proof {
                    lemma_properties_of_fail(all, n + 1);
                }
                return Err(TableError::InvalidFlag);
            },
        }
        n += 1;
    }
    assert(all.take(n as int) =~= all);
    Ok(result)
}

/// Reads a class of operand encoding from its name. White space around the
/// text does not count.
pub fn deserialize_operand_encoding(text: &str) -> (result: Result<OperandEncoding, TableError>)
    ensures
        result is Ok <==> OperandEncoding::parse(trimmed(text@)) is Some,
        result matches Ok(encoding) ==> OperandEncoding::parse(trimmed(text@)) == Some(encoding),
        result matches Err(error) ==> error == TableError::InvalidOperandEncoding,
{
    match OperandEncoding::from_name(trim(text)) {
        Some(encoding) => Ok(encoding),
        None => Err(TableError::InvalidOperandEncoding),
    }
}

} // verus!
