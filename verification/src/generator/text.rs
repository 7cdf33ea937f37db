//! Text handling on which the table's grammar and the written source rest.
use vstd::prelude::*;
use vstd::string::StrSliceExecFns;
use vstd::string::StringExecFns;

verus! {

/// Whether `c` is white space, as Unicode defines it.
pub open spec fn is_whitespace(c: char) -> bool {
    ||| '\u{9}' <= c <= '\u{D}'
    ||| c == ' '
    ||| c == '\u{85}'
    ||| c == '\u{A0}'
    ||| c == '\u{1680}'
    ||| '\u{2000}' <= c <= '\u{200A}'
    ||| c == '\u{2028}'
    ||| c == '\u{2029}'
    ||| c == '\u{202F}'
    ||| c == '\u{205F}'
    ||| c == '\u{3000}'
}

/// Whether `c` is white space, as Unicode defines it.
pub fn check_whitespace(c: char) -> (white: bool)
    ensures
        white == is_whitespace(c),
{
    ('\u{9}' <= c && c <= '\u{D}') || c == ' ' || c == '\u{85}' || c == '\u{A0}' || c == '\u{1680}'
        || ('\u{2000}' <= c && c <= '\u{200A}') || c == '\u{2028}' || c == '\u{2029}' || c
        == '\u{202F}' || c == '\u{205F}' || c == '\u{3000}'
}

/// `s` without the white space at its start.
pub open spec fn trimmed_start(s: Seq<char>) -> Seq<char>
    decreases s.len(),
{
    if s.len() > 0 && is_whitespace(s[0]) {
        trimmed_start(s.drop_first())
    } else {
        s
    }
}

/// `s` without the white space at its end.
pub open spec fn trimmed_end(s: Seq<char>) -> Seq<char>
    decreases s.len(),
{
    if s.len() > 0 && is_whitespace(s.last()) {
        trimmed_end(s.drop_last())
    } else {
        s
    }
}

/// `s` without the white space at its start and at its end.
pub open spec fn trimmed(s: Seq<char>) -> Seq<char> {
    trimmed_end(trimmed_start(s))
}

/// Whether two texts are the same.
pub fn equals(a: &str, b: &str) -> (same: bool)
    ensures
        same <==> a@ == b@,
{
    let len = a.unicode_len();
    if len != b.unicode_len() {
        return false;
    }
    let mut i: usize = 0;
    while i < len
        invariant
            i <= len,
            len == a@.len(),
            len == b@.len(),
            forall|j: int| 0 <= j < i ==> a@[j] == b@[j],
        decreases len - i,
    {
        if a.get_char(i) != b.get_char(i) {
            return false;
        }
        i += 1;
    }
    assert(a@ =~= b@);
    true
}

/// `text` without the white space at its start and at its end.
pub fn trim(text: &str) -> (inner: &str)
    ensures
        inner@ == trimmed(text@),
{
    let len = text.unicode_len();
    let mut from: usize = 0;
    assert(text@.subrange(0, len as int) =~= text@);
    while from < len && check_whitespace(text.get_char(from))
        invariant
            from <= len,
            len == text@.len(),
            trimmed_start(text@) == trimmed_start(text@.subrange(from as int, len as int)),
        decreases len - from,
    {
        assert(text@.subrange(from as int, len as int).drop_first() =~= text@.subrange(
            from + 1,
            len as int,
        ));
        from += 1;
    }
    assert(trimmed_start(text@) == text@.subrange(from as int, len as int));
    let mut to: usize = len;
    while to > from && check_whitespace(text.get_char(to - 1))
        invariant
            from <= to <= len,
            len == text@.len(),
            trimmed(text@) == trimmed_end(text@.subrange(from as int, to as int)),
        decreases to,
    {
        assert(text@.subrange(from as int, to as int).drop_last() =~= text@.subrange(
            from as int,
            to - 1,
        ));
        to -= 1;
    }
    text.substring_char(from, to)
}

/// Where `separator` first stands in `s`; the length of `s` if it stands
/// nowhere.
pub open spec fn index_of(s: Seq<char>, separator: char) -> nat
    decreases s.len(),
{
    if s.len() == 0 || s[0] == separator {
        0
    } else {
        1 + index_of(s.drop_first(), separator)
    }
}

/// The pieces of `s` between the places where `separator` stands: one piece
/// more than there are separators, none of them holding one.
pub open spec fn split(s: Seq<char>, separator: char) -> Seq<Seq<char>>
    decreases s.len(),
{
    let first = index_of(s, separator);
    if first >= s.len() {
        seq![s]
    } else {
        seq![s.take(first as int)] + split(s.skip(first as int + 1), separator)
    }
}

/// What the given texts hold.
pub open spec fn views(pieces: Seq<&str>) -> Seq<Seq<char>> {
    Seq::new(pieces.len(), |i: int| pieces[i]@)
}

/// The separator stands first at `n` if it does not stand before `n`, and
/// stands at `n` or `s` ends there.
pub proof fn lemma_index_of(s: Seq<char>, separator: char, n: int)
    requires
        0 <= n <= s.len(),
        forall|j: int| 0 <= j < n ==> s[j] != separator,
        n == s.len() || s[n] == separator,
    ensures
        index_of(s, separator) == n,
    decreases n,
{
    if n > 0 {
        lemma_index_of(s.drop_first(), separator, n - 1);
    }
}

/// The pieces of `text` between the places where `separator` stands.
pub fn split_text(text: &str, separator: char) -> (pieces: Vec<&str>)
    ensures
        views(pieces@) == split(text@, separator),
        pieces@.len() >= 1,
{
    let len = text.unicode_len();
    let mut pieces: Vec<&str> = Vec::new();
    let mut start: usize = 0;
    let mut i: usize = 0;
    assert(text@.skip(0) =~= text@);
    assert(views(pieces@) =~= Seq::<Seq<char>>::empty());
    while i < len
        invariant
            start <= i <= len,
            len == text@.len(),
            forall|j: int| start <= j < i ==> text@[j] != separator,
            split(text@, separator) == views(pieces@) + split(text@.skip(start as int), separator),
        decreases len - i,
    {
        if text.get_char(i) == separator {
            let piece = text.substring_char(start, i);
            proof {
                let rest = text@.skip(start as int);
                lemma_index_of(rest, separator, i - start);
                assert(rest.take(i - start) =~= text@.subrange(start as int, i as int));
                assert(rest.skip(i - start + 1) =~= text@.skip(i + 1));
                assert(views(pieces@.push(piece)) =~= views(pieces@) + seq![piece@]);
            }
            pieces.push(piece);
            start = i + 1;
        }
        i += 1;
    }
    let piece = text.substring_char(start, len);
    proof {
        let rest = text@.skip(start as int);
        lemma_index_of(rest, separator, len - start);
        assert(rest =~= text@.subrange(start as int, len as int));
        assert(views(pieces@.push(piece)) =~= views(pieces@) + seq![piece@]);
    }
    pieces.push(piece);
    pieces
}

/// The digits of the sixteen values of half a byte.
pub open spec fn hex_digits() -> Seq<char> {
    "0123456789ABCDEF"@
}

/// The digit that stands for `value`, which is less than sixteen.
pub open spec fn digit(value: int) -> Seq<char> {
    hex_digits().subrange(value, value + 1)
}

/// `byte` as Rust source writes it: `0x` and two hexadecimal digits, the
/// letters among them in upper case.
pub open spec fn hex_byte(byte: u8) -> Seq<char> {
    "0x"@ + digit(byte as int / 16) + digit(byte as int % 16)
}

/// The bytes as Rust source writes them, with a comma between one and the
/// next.
pub open spec fn hex_list(bytes: Seq<u8>) -> Seq<char>
    decreases bytes.len(),
{
    if bytes.len() == 0 {
        Seq::empty()
    } else if bytes.len() == 1 {
        hex_byte(bytes[0])
    } else {
        hex_list(bytes.drop_last()) + ","@ + hex_byte(bytes.last())
    }
}

/// `value` in decimal digits.
pub open spec fn decimal(value: nat) -> Seq<char>
    decreases value,
{
    if value < 10 {
        digit(value as int)
    } else {
        decimal(value / 10) + digit(value as int % 10)
    }
}

/// Appends the digit that stands for `value`.
fn push_digit(out: &mut String, value: u8)
    requires
        value < 16,
    ensures
        final(out)@ == old(out)@ + digit(value as int),
{
    proof {
        reveal_strlit("0123456789ABCDEF");
    }
    let digits = "0123456789ABCDEF";
    out.append(digits.substring_char(value as usize, value as usize + 1));
}

/// Appends `byte` as Rust source writes it.
pub fn push_hex_byte(out: &mut String, byte: u8)
    ensures
        final(out)@ == old(out)@ + hex_byte(byte),
{
    let ghost before = out@;
    out.append("0x");
    push_digit(out, byte / 16);
    push_digit(out, byte % 16);
    assert(out@ =~= before + hex_byte(byte));
}

/// Appends `value` in decimal digits.
pub fn push_decimal(out: &mut String, value: usize)
    ensures
        final(out)@ == old(out)@ + decimal(value as nat),
    decreases value,
{
    let ghost before = out@;
    if value < 10 {
        push_digit(out, value as u8);
    } else {
        push_decimal(out, value / 10);
        push_digit(out, (value % 10) as u8);
        assert(out@ =~= before + decimal(value as nat));
    }
}

/// The value of a hexadecimal digit in either case; nothing for any other
/// character.
pub open spec fn hex_value(c: char) -> Option<u8> {
    if '0' <= c <= '9' {
        Some((c as u8 - '0' as u8) as u8)
    } else if 'a' <= c <= 'f' {
        Some((c as u8 - 'a' as u8 + 10) as u8)
    } else if 'A' <= c <= 'F' {
        Some((c as u8 - 'A' as u8 + 10) as u8)
    } else {
        None
    }
}

/// The value of a hexadecimal digit.
pub fn parse_hex_digit(c: char) -> (value: Option<u8>)
    ensures
        value == hex_value(c),
        value matches Some(v) ==> v < 16,
{
    if '0' <= c && c <= '9' {
        Some(c as u8 - '0' as u8)
    } else if 'a' <= c && c <= 'f' {
        Some(c as u8 - 'a' as u8 + 10)
    } else if 'A' <= c && c <= 'F' {
        Some(c as u8 - 'A' as u8 + 10)
    } else {
        None
    }
}

} // verus!
