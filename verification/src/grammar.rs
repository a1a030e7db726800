//! The wire format: what the text of each token is, and which texts are well
//! formed.
//!
//! A record is written as `{"key":value,...}`, a sequence of records as
//! `[record,...]`. A value is a number in decimal digits, with an optional
//! fraction, or a string between double quotes in which quotes, backslashes
//! and control characters are escaped. Nothing is written between tokens.

use vstd::prelude::*;

verus! {

/// The character of the decimal digit `d`.
pub open spec fn digit(d: nat) -> char
    recommends
        d < 10,
{
    (d + 48) as u8 as char
}

/// The character of the hexadecimal digit `d`, as a small letter where it is a letter.
pub open spec fn hex_digit(d: nat) -> char
    recommends
        d < 16,
{
    if d < 10 {
        (d + 48) as u8 as char
    } else {
        (d + 87) as u8 as char
    }
}

/// The decimal digits of `n`, most significant first, with no leading zero.
pub open spec fn decimal(n: nat) -> Seq<char>
    decreases n,
{
    if n < 10 {
        seq![digit(n)]
    } else {
        decimal(n / 10).push(digit(n % 10))
    }
}

/// A percentage of `hundredths` hundredths as a decimal number: the whole
/// percents, a point, the tenths, and the hundredths unless they are zero.
pub open spec fn percent_text(hundredths: nat) -> Seq<char> {
    let head = decimal(hundredths / 100).push('.').push(digit(hundredths / 10 % 10));
    if hundredths % 10 == 0 {
        head
    } else {
        head.push(digit(hundredths % 10))
    }
}

/// What stands for the character `c` inside a string: the character itself,
/// or its escape. Quote and backslash get a backslash in front; backspace,
/// tab, line feed, form feed and carriage return get their letter; any other
/// character below the space is written `\u00` and two hexadecimal digits.
pub open spec fn escape(c: char) -> Seq<char> {
    if c == '"' {
        seq!['\\', '"']
    } else if c == '\\' {
        seq!['\\', '\\']
    } else if c == '\u{8}' {
        seq!['\\', 'b']
    } else if c == '\t' {
        seq!['\\', 't']
    } else if c == '\n' {
        seq!['\\', 'n']
    } else if c == '\u{c}' {
        seq!['\\', 'f']
    } else if c == '\r' {
        seq!['\\', 'r']
    } else if (c as u32) < 0x20 {
        seq!['\\', 'u', '0', '0', hex_digit((c as u32 / 16) as nat), hex_digit((c as u32 % 16) as nat)]
    } else {
        seq![c]
    }
}

/// The characters of `s`, each escaped, in order.
pub open spec fn escaped(s: Seq<char>) -> Seq<char>
    decreases s.len(),
{
    if s.len() == 0 {
        Seq::empty()
    } else {
        escape(s.first()) + escaped(s.drop_first())
    }
}

/// The string token for the text `s`.
pub open spec fn quoted(s: Seq<char>) -> Seq<char> {
    seq!['"'] + escaped(s) + seq!['"']
}

/// The member `"key":value`.
pub open spec fn member(key: Seq<char>, value: Seq<char>) -> Seq<char> {
    seq!['"'] + key + seq!['"', ':'] + value
}

/// The parts in order, with a comma between neighbours.
pub open spec fn joined(parts: Seq<Seq<char>>) -> Seq<char>
    decreases parts.len(),
{
    if parts.len() == 0 {
        Seq::empty()
    } else if parts.len() == 1 {
        parts[0]
    } else {
        joined(parts.drop_last()) + seq![','] + parts.last()
    }
}

/// The record with these members.
pub open spec fn record(members: Seq<Seq<char>>) -> Seq<char> {
    seq!['{'] + joined(members) + seq!['}']
}

/// The sequence with these items.
pub open spec fn sequence(items: Seq<Seq<char>>) -> Seq<char> {
    seq!['['] + joined(items) + seq![']']
}

/// The record without members, `{}`.
pub open spec fn empty_record() -> Seq<char> {
    record(Seq::empty())
}

/// The sequence without items, `[]`.
pub open spec fn empty_sequence() -> Seq<char> {
    sequence(Seq::empty())
}

/// A decimal digit.
pub open spec fn is_digit(c: char) -> bool {
    '0' <= c <= '9'
}

/// A hexadecimal digit, with its letters small or capital.
pub open spec fn is_hex_digit(c: char) -> bool {
    '0' <= c <= '9' || 'a' <= c <= 'f' || 'A' <= c <= 'F'
}

/// One or more decimal digits.
pub open spec fn is_digits(t: Seq<char>) -> bool {
    t.len() > 0 && forall|i: int| 0 <= i < t.len() ==> is_digit(#[trigger] t[i])
}

/// Decimal digits that start with a zero only where the zero is all there is.
pub open spec fn is_whole_number(t: Seq<char>) -> bool {
    is_digits(t) && (t.len() > 1 ==> t[0] != '0')
}

/// A whole number, or a whole number, a point and a fraction in digits.
pub open spec fn is_number(t: Seq<char>) -> bool {
    is_whole_number(t) || exists|k: int|
        0 < k < t.len() && #[trigger] is_whole_number(t.take(k)) && t[k] == '.' && is_digits(
            t.skip(k + 1),
        )
}

/// A character that may stand in a string as it is.
pub open spec fn is_plain(c: char) -> bool {
    c != '"' && c != '\\' && (c as u32) >= 0x20
}

/// A character that may follow a backslash to make an escape of two
/// characters.
pub open spec fn is_short_escape(c: char) -> bool {
    c == '"' || c == '\\' || c == '/' || c == 'b' || c == 'f' || c == 'n' || c == 'r' || c == 't'
}

/// What may stand between the quotes of a string: plain characters and
/// escapes.
pub open spec fn is_string_body(t: Seq<char>) -> bool
    decreases t.len(),
{
    if t.len() == 0 {
        true
    } else if t[0] != '\\' {
        is_plain(t[0]) && is_string_body(t.skip(1))
    } else if t.len() >= 2 && is_short_escape(t[1]) {
        is_string_body(t.skip(2))
    } else {
        t.len() >= 6 && t[1] == 'u' && is_hex_digit(t[2]) && is_hex_digit(t[3]) && is_hex_digit(
            t[4],
        ) && is_hex_digit(t[5]) && is_string_body(t.skip(6))
    }
}

/// A string token: a string body between double quotes.
pub open spec fn is_string(t: Seq<char>) -> bool {
    t.len() >= 2 && t.first() == '"' && t.last() == '"' && is_string_body(
        t.subrange(1, t.len() - 1),
    )
}

/// A value a member may have: a number or a string.
pub open spec fn is_scalar(t: Seq<char>) -> bool {
    is_number(t) || is_string(t)
}

/// A member's key: small letters and underscores.
pub open spec fn is_key(k: Seq<char>) -> bool {
    k.len() > 0 && forall|i: int| 0 <= i < k.len() ==> ('a' <= #[trigger] k[i] <= 'z' || k[i] == '_')
}

/// `"key":value` for some key and some scalar value.
pub open spec fn is_member(t: Seq<char>) -> bool {
    exists|key: Seq<char>, value: Seq<char>|
        is_key(key) && is_scalar(value) && t == #[trigger] member(key, value)
}

/// A well-formed record: members between braces, separated by commas.
pub open spec fn is_record(t: Seq<char>) -> bool {
    exists|members: Seq<Seq<char>>|
        (forall|i: int| 0 <= i < members.len() ==> is_member(#[trigger] members[i])) && t
            == #[trigger] record(members)
}

/// A well-formed sequence: records between brackets, separated by commas.
pub open spec fn is_sequence(t: Seq<char>) -> bool {
    exists|items: Seq<Seq<char>>|
        (forall|i: int| 0 <= i < items.len() ==> is_record(#[trigger] items[i])) && t
            == #[trigger] sequence(items)
}

/// The decimal digits of a number are digits, and the first of them is a zero
/// only for the number zero.
pub proof fn lemma_decimal_is_whole_number(n: nat)
    ensures
        is_whole_number(decimal(n)),
        n > 0 ==> decimal(n)[0] != '0',
    decreases n,
{
    if n >= 10 {
        lemma_decimal_is_whole_number(n / 10);
    }
}

/// The text of a percentage is a number.
pub proof fn lemma_percent_is_number(hundredths: nat)
    ensures
        is_number(percent_text(hundredths)),
{
    let t = percent_text(hundredths);
    let k = decimal(hundredths / 100).len() as int;
    lemma_decimal_is_whole_number(hundredths / 100);
    assert(t.take(k) =~= decimal(hundredths / 100));
    assert(is_whole_number(t.take(k)));
}

/// A string body stays one when an escaped character is put in front.
proof fn lemma_escape_then_body(c: char, rest: Seq<char>)
    requires
        is_string_body(rest),
    ensures
        is_string_body(escape(c) + rest),
{
    let t = escape(c) + rest;
    if escape(c).len() == 1 {
        assert(t.skip(1) =~= rest);
    } else if escape(c).len() == 2 {
        assert(t.skip(2) =~= rest);
    } else {
        assert(t.skip(6) =~= rest);
    }
}

/// Escaped text is a string body.
pub proof fn lemma_escaped_is_string_body(s: Seq<char>)
    ensures
        is_string_body(escaped(s)),
    decreases s.len(),
{
    if s.len() > 0 {
        lemma_escaped_is_string_body(s.drop_first());
        lemma_escape_then_body(s.first(), escaped(s.drop_first()));
    }
}

/// The string token of any text is a well-formed string.
pub proof fn lemma_quoted_is_string(s: Seq<char>)
    ensures
        is_string(quoted(s)),
{
    let t = quoted(s);
    lemma_escaped_is_string_body(s);
    assert(t.subrange(1, t.len() - 1) =~= escaped(s));
}

/// A key and a scalar value make a well-formed member.
pub proof fn lemma_member_is_member(key: Seq<char>, value: Seq<char>)
    requires
        is_key(key),
        is_scalar(value),
    ensures
        is_member(member(key, value)),
{
}

/// Well-formed members make a well-formed record.
pub proof fn lemma_record_is_record(members: Seq<Seq<char>>)
    requires
        forall|i: int| 0 <= i < members.len() ==> is_member(#[trigger] members[i]),
    ensures
        is_record(record(members)),
{
}

/// Well-formed records make a well-formed sequence.
pub proof fn lemma_sequence_is_sequence(items: Seq<Seq<char>>)
    requires
        forall|i: int| 0 <= i < items.len() ==> is_record(#[trigger] items[i]),
    ensures
        is_sequence(sequence(items)),
{
}

/// The empty record and the empty sequence are well formed.
pub proof fn lemma_empty_encodings()
    ensures
        is_record(empty_record()),
        is_sequence(empty_sequence()),
        empty_record() =~= seq!['{', '}'],
        empty_sequence() =~= seq!['[', ']'],
{
    lemma_record_is_record(Seq::empty());
    lemma_sequence_is_sequence(Seq::empty());
}

} // verus!
