//! The text of the client's configuration file: one JSON object with the
//! members `protocol_id`, a number, and `hostname`, a string.
//!
//! [`encode`] writes the object without spaces, `protocol_id` first, the way
//! a JSON writer does for a record of these two fields. [`parse`] reads such
//! an object back: it allows spaces between the tokens, either order of the
//! two members and every escape of a JSON string but surrogate pairs.
//! [`read_config`] reads every file: what [`parse`] does not take goes to
//! `serde_json`, so that any JSON object that holds the two members, with
//! whatever else, is a configuration.

use vstd::prelude::*;
use vstd::string::StrSliceExecFns;
use vstd::string::StringExecFns;
use crate::text::append_decimal;
use crate::text::decimal;
use crate::text::digit_char;
use crate::text::digit_to_char;
use crate::text::push_char;

verus! {

/// One member of the object.
pub enum Member {
    ProtocolId(u64),
    Hostname(Seq<char>),
}

/// The name of the first member.
pub open spec fn protocol_id_key() -> Seq<char> {
    "protocol_id"@
}

/// The name of the second member.
pub open spec fn hostname_key() -> Seq<char> {
    "hostname"@
}

/// Whether a character is one of the four that may stand between tokens.
pub open spec fn is_space(c: char) -> bool {
    c == ' ' || c == '\t' || c == '\n' || c == '\r'
}

/// The text without the spaces it begins with.
pub open spec fn skip_spaces(s: Seq<char>) -> Seq<char>
    decreases s.len(),
{
    if s.len() > 0 && is_space(s[0]) {
        skip_spaces(s.drop_first())
    } else {
        s
    }
}

/// What follows the character `c`, where the text begins with it.
pub open spec fn expect(s: Seq<char>, c: char) -> Option<Seq<char>> {
    if s.len() > 0 && s[0] == c {
        Some(s.drop_first())
    } else {
        None
    }
}

/// How a character is written inside a string: the quote and the backslash
/// behind a backslash, a control character by its letter or its code, any
/// other as it is.
pub open spec fn escaped_char(c: char) -> Seq<char> {
    if c == '"' {
        seq!['\\', '"']
    } else if c == '\\' {
        seq!['\\', '\\']
    } else if c == '\u{8}' {
        seq!['\\', 'b']
    } else if c == '\u{c}' {
        seq!['\\', 'f']
    } else if c == '\n' {
        seq!['\\', 'n']
    } else if c == '\r' {
        seq!['\\', 'r']
    } else if c == '\t' {
        seq!['\\', 't']
    } else if (c as int) < 0x20 {
        seq!['\\', 'u', '0', '0', digit_char(c as int / 16), digit_char(c as int % 16)]
    } else {
        seq![c]
    }
}

/// How a text is written inside a string.
pub open spec fn escaped(s: Seq<char>) -> Seq<char>
    decreases s.len(),
{
    if s.len() == 0 {
        Seq::empty()
    } else {
        escaped_char(s[0]) + escaped(s.drop_first())
    }
}

/// A text as a string, between quotes.
pub open spec fn quoted(s: Seq<char>) -> Seq<char> {
    seq!['"'] + escaped(s) + seq!['"']
}

/// The configuration as the text of its file.
pub open spec fn encoded(protocol_id: u64, hostname: Seq<char>) -> Seq<char> {
    seq!['{'] + quoted(protocol_id_key()) + seq![':'] + decimal(protocol_id as nat) + seq![',']
        + quoted(hostname_key()) + seq![':'] + quoted(hostname) + seq!['}']
}

/// The value of a hexadecimal digit, in either case.
pub open spec fn hex_value(c: char) -> Option<int> {
    if '0' <= c <= '9' {
        Some(c as int - '0' as int)
    } else if 'a' <= c <= 'f' {
        Some(c as int - 'a' as int + 10)
    } else if 'A' <= c <= 'F' {
        Some(c as int - 'A' as int + 10)
    } else {
        None
    }
}

/// Whether a number is the code of a character: surrogates are none.
pub open spec fn is_scalar_value(code: int) -> bool {
    0 <= code <= 0xD7FF || 0xE000 <= code <= 0x10FFFF
}

/// The character that an escape stands for, and the length of the escape
/// without its backslash.
pub open spec fn unescape(s: Seq<char>) -> Option<(char, int)> {
    if s.len() == 0 {
        None
    } else if s[0] == '"' {
        Some(('"', 1))
    } else if s[0] == '\\' {
        Some(('\\', 1))
    } else if s[0] == '/' {
        Some(('/', 1))
    } else if s[0] == 'b' {
        Some(('\u{8}', 1))
    } else if s[0] == 'f' {
        Some(('\u{c}', 1))
    } else if s[0] == 'n' {
        Some(('\n', 1))
    } else if s[0] == 'r' {
        Some(('\r', 1))
    } else if s[0] == 't' {
        Some(('\t', 1))
    } else if s[0] == 'u' && s.len() >= 5 {
        match (hex_value(s[1]), hex_value(s[2]), hex_value(s[3]), hex_value(s[4])) {
            (Some(a), Some(b), Some(c), Some(d)) => {
                let code = ((a * 16 + b) * 16 + c) * 16 + d;
                if is_scalar_value(code) {
                    Some((code as char, 5))
                } else {
                    None
                }
            },
            _ => None,
        }
    } else {
        None
    }
}

/// The text of a string whose opening quote has been read, and what follows
/// its closing quote.
pub open spec fn unquoted(s: Seq<char>) -> Option<(Seq<char>, Seq<char>)>
    decreases s.len(),
{
    if s.len() == 0 {
        None
    } else if s[0] == '"' {
        Some((Seq::empty(), s.drop_first()))
    } else if s[0] == '\\' {
        match unescape(s.drop_first()) {
            None => None,
            Some((c, n)) => match unquoted(s.skip(1 + n)) {
                None => None,
                Some((text, rest)) => Some((seq![c] + text, rest)),
            },
        }
    } else if (s[0] as int) < 0x20 {
        None
    } else {
        match unquoted(s.drop_first()) {
            None => None,
            Some((text, rest)) => Some((seq![s[0]] + text, rest)),
        }
    }
}

/// The text of the string that the text begins with, and what follows it.
pub open spec fn string_at(s: Seq<char>) -> Option<(Seq<char>, Seq<char>)> {
    match expect(s, '"') {
        None => None,
        Some(rest) => unquoted(rest),
    }
}

/// Whether a character is a decimal digit.
pub open spec fn is_digit(c: char) -> bool {
    '0' <= c <= '9'
}

/// How many digits the text begins with.
pub open spec fn digits_len(s: Seq<char>) -> nat
    decreases s.len(),
{
    if s.len() > 0 && is_digit(s[0]) {
        1 + digits_len(s.drop_first())
    } else {
        0
    }
}

/// The number that decimal digits stand for.
pub open spec fn decimal_value(digits: Seq<char>) -> nat
    decreases digits.len(),
{
    if digits.len() == 0 {
        0
    } else {
        (decimal_value(digits.drop_last()) * 10 + (digits.last() as int - '0' as int)) as nat
    }
}

/// The number that the text begins with, and what follows it: decimal
/// digits without a leading zero that stand for a 64-bit number.
pub open spec fn number_at(s: Seq<char>) -> Option<(u64, Seq<char>)> {
    let n = digits_len(s) as int;
    if n == 0 || (n > 1 && s[0] == '0') || decimal_value(s.take(n)) > u64::MAX {
        None
    } else {
        Some((decimal_value(s.take(n)) as u64, s.skip(n)))
    }
}

/// The member that the text begins with, and what follows it.
pub open spec fn member_at(s: Seq<char>) -> Option<(Member, Seq<char>)> {
    match string_at(skip_spaces(s)) {
        None => None,
        Some((key, after_key)) => match expect(skip_spaces(after_key), ':') {
            None => None,
            Some(after_colon) => if key == protocol_id_key() {
                match number_at(skip_spaces(after_colon)) {
                    None => None,
                    Some((value, rest)) => Some((Member::ProtocolId(value), rest)),
                }
            } else if key == hostname_key() {
                match string_at(skip_spaces(after_colon)) {
                    None => None,
                    Some((value, rest)) => Some((Member::Hostname(value), rest)),
                }
            } else {
                None
            },
        },
    }
}

/// The configuration that two members make: one of each.
pub open spec fn combined(first: Member, second: Member) -> Option<(u64, Seq<char>)> {
    match (first, second) {
        (Member::ProtocolId(protocol_id), Member::Hostname(hostname)) => Some(
            (protocol_id, hostname),
        ),
        (Member::Hostname(hostname), Member::ProtocolId(protocol_id)) => Some(
            (protocol_id, hostname),
        ),
        _ => None,
    }
}

/// The two members that the text begins with, a comma between them, and
/// what follows them.
pub open spec fn members_at(s: Seq<char>) -> Option<(Member, Member, Seq<char>)> {
    match member_at(s) {
        None => None,
        Some((first, after_first)) => match expect(skip_spaces(after_first), ',') {
            None => None,
            Some(after_comma) => match member_at(after_comma) {
                None => None,
                Some((second, rest)) => Some((first, second, rest)),
            },
        },
    }
}

/// The configuration that a text stands for, if it stands for one.
pub open spec fn parsed(text: Seq<char>) -> Option<(u64, Seq<char>)> {
    match expect(skip_spaces(text), '{') {
        None => None,
        Some(inside) => match members_at(inside) {
            None => None,
            Some((first, second, after)) => match expect(skip_spaces(after), '}') {
                None => None,
                Some(rest) => if skip_spaces(rest).len() == 0 {
                    combined(first, second)
                } else {
                    None
                },
            },
        },
    }
}

proof fn lemma_escaped_add(a: Seq<char>, b: Seq<char>)
    ensures
        escaped(a + b) == escaped(a) + escaped(b),
    decreases a.len(),
{
    if a.len() == 0 {
        assert(a + b =~= b);
        assert(escaped(a) + escaped(b) =~= escaped(b));
    } else {
        assert((a + b).drop_first() =~= a.drop_first() + b);
        assert((a + b)[0] == a[0]);
        lemma_escaped_add(a.drop_first(), b);
        assert(escaped(a + b) =~= escaped(a) + escaped(b));
    }
}

proof fn lemma_escaped_push(a: Seq<char>, c: char)
    ensures
        escaped(a.push(c)) == escaped(a) + escaped_char(c),
{
    assert(a.push(c) =~= a + seq![c]);
    lemma_escaped_add(a, seq![c]);
    assert(seq![c].drop_first() =~= Seq::<char>::empty());
    assert(escaped(seq![c]) =~= escaped_char(c)) by {
        reveal_with_fuel(escaped, 2);
    }
}

proof fn lemma_hex_digit(d: int)
    requires
        0 <= d < 16,
    ensures
        hex_value(digit_char(d)) == Some(d),
{
}

/// Reading back what was written for one character.
proof fn lemma_unquote_char(c: char, rest: Seq<char>)
    ensures
        unquoted(escaped_char(c) + rest) == (match unquoted(rest) {
            None => None,
            Some((text, after)) => Some((seq![c] + text, after)),
        }),
{
    let s = escaped_char(c) + rest;
    if c == '"' || c == '\\' || c == '\u{8}' || c == '\u{c}' || c == '\n' || c == '\r' || c
        == '\t' {
        assert(s[0] == '\\');
        assert(s.drop_first()[0] == escaped_char(c)[1]);
        assert(unescape(s.drop_first()) == Some((c, 1int)));
        assert(s.skip(2) =~= rest);
    } else if (c as int) < 0x20 {
        let hi = c as int / 16;
        let lo = c as int % 16;
        assert(s[0] == '\\');
        let t = s.drop_first();
        assert(t[0] == 'u' && t[1] == '0' && t[2] == '0');
        assert(t[3] == digit_char(hi) && t[4] == digit_char(lo));
        lemma_hex_digit(hi);
        lemma_hex_digit(lo);
        assert(hex_value('0') == Some(0int));
        assert(((0 * 16 + 0) * 16 + hi) * 16 + lo == c as int);
        assert((c as int) as char == c);
        assert(unescape(t) == Some((c, 5int)));
        assert(s.skip(6) =~= rest);
    } else {
        assert(s[0] == c);
        assert(s.drop_first() =~= rest);
    }
}

/// Reading back what was written for a text.
proof fn lemma_unquote(text: Seq<char>, tail: Seq<char>)
    ensures
        unquoted(escaped(text) + seq!['"'] + tail) == Some((text, tail)),
    decreases text.len(),
{
    if text.len() == 0 {
        let s = escaped(text) + seq!['"'] + tail;
        assert(s[0] == '"');
        assert(s.drop_first() =~= tail);
    } else {
        let rest = escaped(text.drop_first()) + seq!['"'] + tail;
        lemma_unquote(text.drop_first(), tail);
        lemma_unquote_char(text[0], rest);
        assert(escaped(text) + seq!['"'] + tail =~= escaped_char(text[0]) + rest);
        assert(seq![text[0]] + text.drop_first() =~= text);
    }
}

proof fn lemma_string(text: Seq<char>, tail: Seq<char>)
    ensures
        string_at(quoted(text) + tail) == Some((text, tail)),
        skip_spaces(quoted(text) + tail) == quoted(text) + tail,
{
    let s = quoted(text) + tail;
    assert(s[0] == '"');
    assert(s.drop_first() =~= escaped(text) + seq!['"'] + tail);
    lemma_unquote(text, tail);
}

proof fn lemma_expect(c: char, tail: Seq<char>)
    requires
        !is_space(c),
    ensures
        expect(seq![c] + tail, c) == Some(tail),
        skip_spaces(seq![c] + tail) == seq![c] + tail,
{
    let s = seq![c] + tail;
    assert(s[0] == c);
    assert(s.drop_first() =~= tail);
}

proof fn lemma_decimal_digits(n: nat)
    ensures
        decimal(n).len() >= 1,
        forall|i: int| 0 <= i < decimal(n).len() ==> is_digit(#[trigger] decimal(n)[i]),
        decimal_value(decimal(n)) == n,
        decimal(n).len() > 1 ==> decimal(n)[0] != '0',
        n >= 10 ==> decimal(n).len() > 1,
    decreases n,
{
    if n < 10 {
        let s = decimal(n);
        assert(s.drop_last() =~= Seq::<char>::empty());
        assert(s.last() == digit_char(n as int));
        assert(decimal_value(s) == n) by {
            reveal_with_fuel(decimal_value, 2);
        }
    } else {
        lemma_decimal_digits(n / 10);
        let head = decimal(n / 10);
        let s = decimal(n);
        assert(s == head.push(digit_char((n % 10) as int)));
        assert(s.drop_last() =~= head);
        assert(s.last() == digit_char((n % 10) as int));
        assert forall|i: int| 0 <= i < s.len() implies is_digit(#[trigger] s[i]) by {
            if i < head.len() {
                assert(s[i] == head[i]);
            }
        }
        assert(s[0] == head[0]);
        if head.len() == 1 {
            assert(n / 10 < 10);
            assert(head[0] == digit_char((n / 10) as int));
        }
    }
}

proof fn lemma_digits_len(s: Seq<char>, n: int)
    requires
        0 <= n <= s.len(),
        forall|i: int| 0 <= i < n ==> is_digit(#[trigger] s[i]),
        n == s.len() || !is_digit(s[n]),
    ensures
        digits_len(s) == n,
    decreases n,
{
    if n > 0 {
        assert(is_digit(s[0]));
        let t = s.drop_first();
        assert forall|i: int| 0 <= i < n - 1 implies is_digit(#[trigger] t[i]) by {
            assert(t[i] == s[i + 1]);
        }
        if n - 1 < t.len() {
            assert(t[n - 1] == s[n]);
        }
        lemma_digits_len(t, n - 1);
    }
}

proof fn lemma_number(n: u64, tail: Seq<char>)
    requires
        tail.len() == 0 || !is_digit(tail[0]),
    ensures
        number_at(decimal(n as nat) + tail) == Some((n, tail)),
        skip_spaces(decimal(n as nat) + tail) == decimal(n as nat) + tail,
{
    let digits = decimal(n as nat);
    let s = digits + tail;
    lemma_decimal_digits(n as nat);
    assert forall|i: int| 0 <= i < digits.len() implies is_digit(#[trigger] s[i]) by {
        assert(s[i] == digits[i]);
    }
    if tail.len() > 0 {
        assert(s[digits.len() as int] == tail[0]);
    }
    lemma_digits_len(s, digits.len() as int);
    assert(s.take(digits.len() as int) =~= digits);
    assert(s.skip(digits.len() as int) =~= tail);
    assert(s[0] == digits[0]);
    assert(is_digit(s[0]));
}

proof fn lemma_keys()
    ensures
        protocol_id_key() != hostname_key(),
{
    reveal_strlit("protocol_id");
    reveal_strlit("hostname");
    assert(protocol_id_key().len() == 11);
    assert(hostname_key().len() == 8);
}

proof fn lemma_member_protocol_id(protocol_id: u64, tail: Seq<char>)
    requires
        tail.len() == 0 || !is_digit(tail[0]),
    ensures
        member_at(
            quoted(protocol_id_key()) + seq![':'] + decimal(protocol_id as nat) + tail,
        ) == Some((Member::ProtocolId(protocol_id), tail)),
{
    let t2 = decimal(protocol_id as nat) + tail;
    let t1 = seq![':'] + t2;
    let t0 = quoted(protocol_id_key()) + t1;
    assert(quoted(protocol_id_key()) + seq![':'] + decimal(protocol_id as nat) + tail =~= t0);
    lemma_string(protocol_id_key(), t1);
    lemma_expect(':', t2);
    lemma_number(protocol_id, tail);
}

proof fn lemma_member_hostname(hostname: Seq<char>, tail: Seq<char>)
    ensures
        member_at(quoted(hostname_key()) + seq![':'] + quoted(hostname) + tail) == Some(
            (Member::Hostname(hostname), tail),
        ),
{
    let t2 = quoted(hostname) + tail;
    let t1 = seq![':'] + t2;
    let t0 = quoted(hostname_key()) + t1;
    assert(quoted(hostname_key()) + seq![':'] + quoted(hostname) + tail =~= t0);
    lemma_string(hostname_key(), t1);
    lemma_expect(':', t2);
    lemma_string(hostname, tail);
    lemma_keys();
}

/// What is written is read back: the text of a configuration stands for
/// that configuration.
pub proof fn lemma_round_trip(protocol_id: u64, hostname: Seq<char>)
    ensures
        parsed(encoded(protocol_id, hostname)) == Some((protocol_id, hostname)),
{
    let t5 = Seq::<char>::empty();
    let t4 = seq!['}'] + t5;
    let t3 = quoted(hostname_key()) + seq![':'] + quoted(hostname) + t4;
    let t2 = seq![','] + t3;
    let t1 = quoted(protocol_id_key()) + seq![':'] + decimal(protocol_id as nat) + t2;
    let t0 = seq!['{'] + t1;
    assert(encoded(protocol_id, hostname) =~= t0);
    lemma_expect('{', t1);
    assert(t2[0] == ',');
    lemma_member_protocol_id(protocol_id, t2);
    lemma_expect(',', t3);
    lemma_member_hostname(hostname, t4);
    lemma_expect('}', t5);
}

/// The number that the JSON object of a text holds under a key, as
/// `serde_json` reads it into a `Value`: `None` where the text is no JSON,
/// holds no object, the object has no such member, or the member is no
/// whole number from 0 to `u64::MAX`.
pub uninterp spec fn json_number_member(text: Seq<char>, key: Seq<char>) -> Option<u64>;

/// The string that the JSON object of a text holds under a key, as
/// `serde_json` reads it into a `Value`: `None` where the text is no JSON,
/// holds no object, the object has no such member, or the member is no
/// string.
pub uninterp spec fn json_string_member(text: Seq<char>, key: Seq<char>) -> Option<Seq<char>>;

/// The configuration that the two members make, where both are there.
pub open spec fn members_config(number: Option<u64>, name: Option<Seq<char>>) -> Option<
    (u64, Seq<char>),
> {
    match (number, name) {
        (Some(protocol_id), Some(hostname)) => Some((protocol_id, hostname)),
        _ => None,
    }
}

/// The configuration that a text stands for: what [`parsed`] gives, and
/// for any other text the two members that the JSON object of the text
/// holds.
pub open spec fn config_of(text: Seq<char>) -> Option<(u64, Seq<char>)> {
    match parsed(text) {
        Some(config) => Some(config),
        None => members_config(
            json_number_member(text, protocol_id_key()),
            json_string_member(text, hostname_key()),
        ),
    }
}

/// Reads a number out of a JSON object. Trusted: `serde_json::from_str`
/// reads the text into a `serde_json::Value` or fails, `Value::get` with a
/// string gives the member of an object under that key and nothing for
/// any other value, and `Value::as_u64` gives the number where the value
/// is a whole number from 0 to `u64::MAX`. The result depends on the text
/// and the key alone.
#[verifier::external_body]
fn read_number_member(text: &str, key: &str) -> (value: Option<u64>)
    ensures
        value == json_number_member(text@, key@),
{
    serde_json::from_str::<serde_json::Value>(text).ok()?.get(key)?.as_u64()
}

/// Reads a string out of a JSON object. Trusted: as for the number, with
/// `Value::as_str`, which gives the text where the value is a string.
#[verifier::external_body]
fn read_string_member(text: &str, key: &str) -> (value: Option<String>)
    ensures
        value is Some <==> json_string_member(text@, key@) is Some,
        value matches Some(v) ==> json_string_member(text@, key@) == Some(v@),
{
    match serde_json::from_str::<serde_json::Value>(text).ok()?.get(key)?.as_str() {
        Some(s) => Some(s.to_string()),
        None => None,
    }
}

/// Makes a configuration of the two members, where both are there.
pub fn combine_members(number: Option<u64>, name: Option<String>) -> (config: Option<(u64, String)>)
    ensures
        match members_config(
            number,
            match name {
                Some(text) => Some(text@),
                None => None,
            },
        ) {
            None => config is None,
            Some((protocol_id, hostname)) => config matches Some((id, text)) && id == protocol_id
                && text@ == hostname,
        },
{
    match (number, name) {
        (Some(protocol_id), Some(hostname)) => Some((protocol_id, hostname)),
        _ => None,
    }
}

/// The characters of a text.
fn chars_of(text: &str) -> (chars: Vec<char>)
    ensures
        chars@ == text@,
{
    let n = text.unicode_len();
    let mut chars: Vec<char> = Vec::new();
    let mut i: usize = 0;
    while i < n
        invariant
            i <= n,
            n == text@.len(),
            chars@ == text@.take(i as int),
        decreases n - i,
    {
        chars.push(text.get_char(i));
        assert(text@.take(i + 1) =~= text@.take(i as int).push(text@[i as int]));
        i = i + 1;
    }
    assert(text@.take(n as int) =~= text@);
    chars
}

/// Appends a character the way it is written inside a string.
fn append_escaped_char(out: &mut String, c: char)
    ensures
        final(out)@ == old(out)@ + escaped_char(c),
{
    if c == '"' {
        push_char(out, '\\');
        push_char(out, '"');
    } else if c == '\\' {
        push_char(out, '\\');
        push_char(out, '\\');
    } else if c == '\u{8}' {
        push_char(out, '\\');
        push_char(out, 'b');
    } else if c == '\u{c}' {
        push_char(out, '\\');
        push_char(out, 'f');
    } else if c == '\n' {
        push_char(out, '\\');
        push_char(out, 'n');
    } else if c == '\r' {
        push_char(out, '\\');
        push_char(out, 'r');
    } else if c == '\t' {
        push_char(out, '\\');
        push_char(out, 't');
    } else if (c as u32) < 0x20 {
        let code: u32 = c as u32;
        push_char(out, '\\');
        push_char(out, 'u');
        push_char(out, '0');
        push_char(out, '0');
        push_char(out, digit_to_char((code / 16) as u8));
        push_char(out, digit_to_char((code % 16) as u8));
    } else {
        push_char(out, c);
    }
    assert(out@ =~= old(out)@ + escaped_char(c));
}

/// Appends a text as a string, between quotes.
pub fn append_quoted(out: &mut String, text: &str)
    ensures
        final(out)@ == old(out)@ + quoted(text@),
{
    let chars = chars_of(text);
    push_char(out, '"');
    let mut i: usize = 0;
    assert(chars@.take(0) =~= Seq::<char>::empty());
    while i < chars.len()
        invariant
            i <= chars@.len(),
            out@ == old(out)@ + seq!['"'] + escaped(chars@.take(i as int)),
        decreases chars@.len() - i,
    {
        append_escaped_char(out, chars[i]);
        proof {
            assert(chars@.take(i + 1) =~= chars@.take(i as int).push(chars@[i as int]));
            lemma_escaped_push(chars@.take(i as int), chars@[i as int]);
            assert(out@ =~= old(out)@ + seq!['"'] + escaped(chars@.take(i + 1)));
        }
        i = i + 1;
    }
    assert(chars@.take(chars@.len() as int) =~= chars@);
    push_char(out, '"');
    assert(out@ =~= old(out)@ + quoted(text@));
}

/// Writes a configuration as the text of its file.
pub fn encode(protocol_id: u64, hostname: &str) -> (text: String)
    ensures
        text@ == encoded(protocol_id, hostname@),
{
    let mut text = String::new();
    push_char(&mut text, '{');
    append_quoted(&mut text, "protocol_id");
    push_char(&mut text, ':');
    append_decimal(&mut text, protocol_id);
    push_char(&mut text, ',');
    append_quoted(&mut text, "hostname");
    push_char(&mut text, ':');
    append_quoted(&mut text, hostname);
    push_char(&mut text, '}');
    assert(text@ =~= encoded(protocol_id, hostname@));
    text
}

/// Makes a character of its code. Trusted: `char::from_u32` of the
/// standard library returns the character with the given code, and `None`
/// where the code is a surrogate or lies above `0x10FFFF`.
#[verifier::external_body]
fn char_from_code(code: u32) -> (c: Option<char>)
    ensures
        c == (if is_scalar_value(code as int) {
            Some(code as char)
        } else {
            None
        }),
{
    char::from_u32(code)
}

fn skip_spaces_at(chars: &Vec<char>, pos: usize) -> (next: usize)
    requires
        pos <= chars@.len(),
    ensures
        pos <= next <= chars@.len(),
        chars@.skip(next as int) == skip_spaces(chars@.skip(pos as int)),
{
    let mut i: usize = pos;
    while i < chars.len() && (chars[i] == ' ' || chars[i] == '\t' || chars[i] == '\n' || chars[i]
        == '\r')
        invariant
            pos <= i <= chars@.len(),
            skip_spaces(chars@.skip(i as int)) == skip_spaces(chars@.skip(pos as int)),
        decreases chars@.len() - i,
    {
        proof {
            let s = chars@.skip(i as int);
            assert(s[0] == chars@[i as int]);
            assert(s.drop_first() =~= chars@.skip(i + 1));
        }
        i = i + 1;
    }
    proof {
        let s = chars@.skip(i as int);
        if i < chars@.len() {
            assert(s[0] == chars@[i as int]);
        }
    }
    i
}

fn expect_at(chars: &Vec<char>, pos: usize, c: char) -> (next: Option<usize>)
    requires
        pos <= chars@.len(),
    ensures
        match expect(chars@.skip(pos as int), c) {
            None => next is None,
            Some(rest) => next matches Some(n) && n == pos + 1 && pos < chars@.len() && rest
                == chars@.skip(pos + 1),
        },
{
    if pos < chars.len() && chars[pos] == c {
        proof {
            let s = chars@.skip(pos as int);
            assert(s[0] == chars@[pos as int]);
            assert(s.drop_first() =~= chars@.skip(pos + 1));
        }
        Some(pos + 1)
    } else {
        proof {
            let s = chars@.skip(pos as int);
            if pos < chars@.len() {
                assert(s[0] == chars@[pos as int]);
            }
        }
        None
    }
}

proof fn lemma_decimal_value_grows(digits: Seq<char>, n: int, m: int)
    requires
        0 <= n <= m <= digits.len(),
        forall|i: int| 0 <= i < m ==> is_digit(#[trigger] digits[i]),
    ensures
        decimal_value(digits.take(n)) <= decimal_value(digits.take(m)),
    decreases m - n,
{
    if n < m {
        lemma_decimal_value_grows(digits, n, m - 1);
        let longer = digits.take(m);
        assert(longer.drop_last() =~= digits.take(m - 1));
        assert(longer.last() == digits[m - 1]);
        assert(is_digit(digits[m - 1]));
    }
}

proof fn lemma_digits_len_bounds(s: Seq<char>)
    ensures
        digits_len(s) <= s.len(),
        forall|i: int| 0 <= i < digits_len(s) ==> is_digit(#[trigger] s[i]),
        digits_len(s) == s.len() || !is_digit(s[digits_len(s) as int]),
    decreases s.len(),
{
    if s.len() > 0 && is_digit(s[0]) {
        let t = s.drop_first();
        lemma_digits_len_bounds(t);
        assert forall|i: int| 0 <= i < digits_len(s) implies is_digit(#[trigger] s[i]) by {
            if i > 0 {
                assert(s[i] == t[i - 1]);
            }
        }
        if digits_len(s) < s.len() {
            assert(s[digits_len(s) as int] == t[digits_len(t) as int]);
        }
    }
}

fn number_at_pos(chars: &Vec<char>, pos: usize) -> (found: Option<(u64, usize)>)
    requires
        pos <= chars@.len(),
    ensures
        match number_at(chars@.skip(pos as int)) {
            None => found is None,
            Some((value, rest)) => found matches Some((v, next)) && v == value && pos < next
                <= chars@.len() && rest == chars@.skip(next as int),
        },
{
    let ghost s = chars@.skip(pos as int);
    let mut i: usize = pos;
    let mut value: u64 = 0;
    proof {
        assert(s.take(0) =~= Seq::<char>::empty());
        lemma_digits_len_bounds(s);
    }
    while i < chars.len() && '0' <= chars[i] && chars[i] <= '9'
        invariant
            pos <= i <= chars@.len(),
            s == chars@.skip(pos as int),
            forall|k: int| 0 <= k < i - pos ==> is_digit(#[trigger] s[k]),
            value == decimal_value(s.take(i - pos)),
            i - pos <= digits_len(s),
            digits_len(s) <= s.len(),
            forall|k: int| 0 <= k < digits_len(s) ==> is_digit(#[trigger] s[k]),
        decreases chars@.len() - i,
    {
        let digit: u64 = (chars[i] as u32 - '0' as u32) as u64;
        proof {
            assert(s[i - pos] == chars@[i as int]);
            let longer = s.take(i - pos + 1);
            assert(longer.drop_last() =~= s.take(i - pos));
            assert(longer.last() == s[i - pos]);
            if i - pos == digits_len(s) {
                lemma_digits_len_bounds(s);
                assert(false);
            }
        }
        if value > (u64::MAX - digit) / 10 {
            proof {
                assert(decimal_value(s.take(i - pos + 1)) > u64::MAX);
                lemma_decimal_value_grows(s, i - pos + 1, digits_len(s) as int);
            }
            return None;
        }
        value = value * 10 + digit;
        i = i + 1;
    }
    proof {
        if i < chars@.len() {
            assert(s[i - pos] == chars@[i as int]);
        }
        lemma_digits_len(s, i - pos);
        assert(chars@.skip(pos as int).skip(i - pos) =~= chars@.skip(i as int));
        if i > pos {
            assert(s[0] == chars@[pos as int]);
        }
    }
    if i == pos || (i - pos > 1 && chars[pos] == '0') {
        None
    } else {
        Some((value, i))
    }
}

fn hex_digit(c: char) -> (value: Option<u32>)
    ensures
        match hex_value(c) {
            None => value is None,
            Some(v) => value == Some(v as u32) && 0 <= v < 16,
        },
{
    if '0' <= c && c <= '9' {
        Some(c as u32 - '0' as u32)
    } else if 'a' <= c && c <= 'f' {
        Some(c as u32 - 'a' as u32 + 10)
    } else if 'A' <= c && c <= 'F' {
        Some(c as u32 - 'A' as u32 + 10)
    } else {
        None
    }
}

fn unescape_at(chars: &Vec<char>, pos: usize) -> (found: Option<(char, usize)>)
    requires
        pos <= chars@.len(),
    ensures
        match unescape(chars@.skip(pos as int)) {
            None => found is None,
            Some((c, n)) => found matches Some((d, k)) && d == c && k == n && 1 <= n && pos + n
                <= chars@.len(),
        },
{
    let ghost s = chars@.skip(pos as int);
    if pos >= chars.len() {
        return None;
    }
    let c = chars[pos];
    assert(s[0] == c);
    if c == '"' {
        Some(('"', 1))
    } else if c == '\\' {
        Some(('\\', 1))
    } else if c == '/' {
        Some(('/', 1))
    } else if c == 'b' {
        Some(('\u{8}', 1))
    } else if c == 'f' {
        Some(('\u{c}', 1))
    } else if c == 'n' {
        Some(('\n', 1))
    } else if c == 'r' {
        Some(('\r', 1))
    } else if c == 't' {
        Some(('\t', 1))
    } else if c == 'u' && chars.len() - pos >= 5 {
        assert(s[1] == chars@[pos + 1] && s[2] == chars@[pos + 2] && s[3] == chars@[pos + 3]
            && s[4] == chars@[pos + 4]);
        let a = match hex_digit(chars[pos + 1]) {
            Some(v) => v,
            None => {
                return None;
            },
        };
        let b = match hex_digit(chars[pos + 2]) {
            Some(v) => v,
            None => {
                return None;
            },
        };
        let c3 = match hex_digit(chars[pos + 3]) {
            Some(v) => v,
            None => {
                return None;
            },
        };
        let d = match hex_digit(chars[pos + 4]) {
            Some(v) => v,
            None => {
                return None;
            },
        };
        let code: u32 = ((a * 16 + b) * 16 + c3) * 16 + d;
        match char_from_code(code) {
            Some(decoded) => Some((decoded, 5)),
            None => None,
        }
    } else {
        None
    }
}

/// What is still to be read of a string, put behind what has been read.
spec fn resumed(read: Seq<char>, found: Option<(Seq<char>, Seq<char>)>) -> Option<
    (Seq<char>, Seq<char>),
> {
    match found {
        None => None,
        Some((text, rest)) => Some((read + text, rest)),
    }
}

fn unquoted_at(chars: &Vec<char>, pos: usize) -> (found: Option<(String, usize)>)
    requires
        pos <= chars@.len(),
    ensures
        match unquoted(chars@.skip(pos as int)) {
            None => found is None,
            Some((text, rest)) => found matches Some((value, next)) && value@ == text && pos
                < next <= chars@.len() && rest == chars@.skip(next as int),
        },
{
    let mut value = String::new();
    let mut i: usize = pos;
    let ghost whole = unquoted(chars@.skip(pos as int));
    assert(resumed(value@, unquoted(chars@.skip(i as int))) == whole) by {
        match unquoted(chars@.skip(i as int)) {
            None => {},
            Some((text, rest)) => {
                assert(value@ + text =~= text);
            },
        }
    }
    loop
        invariant
            pos <= i <= chars@.len(),
            whole == unquoted(chars@.skip(pos as int)),
            resumed(value@, unquoted(chars@.skip(i as int))) == whole,
        decreases chars@.len() - i,
    {
        let ghost s = chars@.skip(i as int);
        if i >= chars.len() {
            return None;
        }
        let c = chars[i];
        assert(s[0] == c);
        assert(s.drop_first() =~= chars@.skip(i + 1));
        if c == '"' {
            assert(value@ + Seq::<char>::empty() =~= value@);
            return Some((value, i + 1));
        } else if c == '\\' {
            match unescape_at(chars, i + 1) {
                None => {
                    return None;
                },
                Some((decoded, n)) => {
                    let ghost before = value@;
                    push_char(&mut value, decoded);
                    proof {
                        assert(s.skip(1 + n as int) =~= chars@.skip(i + 1 + n));
                        match unquoted(chars@.skip(i + 1 + n)) {
                            None => {},
                            Some((text, rest)) => {
                                assert(before + (seq![decoded] + text) =~= before.push(decoded)
                                    + text);
                            },
                        }
                    }
                    i = i + 1 + n;
                },
            }
        } else if ' ' > c {
            return None;
        } else {
            let ghost before = value@;
            push_char(&mut value, c);
            proof {
                match unquoted(chars@.skip(i + 1)) {
                    None => {},
                    Some((text, rest)) => {
                        assert(before + (seq![c] + text) =~= before.push(c) + text);
                    },
                }
            }
            i = i + 1;
        }
    }
}

fn string_at_pos(chars: &Vec<char>, pos: usize) -> (found: Option<(String, usize)>)
    requires
        pos <= chars@.len(),
    ensures
        match string_at(chars@.skip(pos as int)) {
            None => found is None,
            Some((text, rest)) => found matches Some((value, next)) && value@ == text && pos
                < next <= chars@.len() && rest == chars@.skip(next as int),
        },
{
    match expect_at(chars, pos, '"') {
        None => None,
        Some(next) => unquoted_at(chars, next),
    }
}

/// A member as it is read: its value, with the text where it is one.
enum ReadMember {
    ProtocolId(u64),
    Hostname(String),
}

impl ReadMember {
    spec fn model(self) -> Member {
        match self {
            ReadMember::ProtocolId(value) => Member::ProtocolId(value),
            ReadMember::Hostname(value) => Member::Hostname(value@),
        }
    }
}

fn member_at_pos(chars: &Vec<char>, pos: usize) -> (found: Option<(ReadMember, usize)>)
    requires
        pos <= chars@.len(),
    ensures
        match member_at(chars@.skip(pos as int)) {
            None => found is None,
            Some((member, rest)) => found matches Some((value, next)) && value.model() == member
                && next <= chars@.len() && rest == chars@.skip(next as int),
        },
{
    let start = skip_spaces_at(chars, pos);
    let (key, after_key) = match string_at_pos(chars, start) {
        None => {
            return None;
        },
        Some(found) => found,
    };
    let colon = skip_spaces_at(chars, after_key);
    let after_colon = match expect_at(chars, colon, ':') {
        None => {
            return None;
        },
        Some(next) => next,
    };
    let value_at = skip_spaces_at(chars, after_colon);
    if key == String::from_str("protocol_id") {
        match number_at_pos(chars, value_at) {
            None => None,
            Some((value, next)) => Some((ReadMember::ProtocolId(value), next)),
        }
    } else if key == String::from_str("hostname") {
        match string_at_pos(chars, value_at) {
            None => None,
            Some((value, next)) => Some((ReadMember::Hostname(value), next)),
        }
    } else {
        None
    }
}

fn members_at_pos(chars: &Vec<char>, pos: usize) -> (found: Option<(ReadMember, ReadMember, usize)>)
    requires
        pos <= chars@.len(),
    ensures
        match members_at(chars@.skip(pos as int)) {
            None => found is None,
            Some((first, second, rest)) => found matches Some((one, two, next)) && one.model()
                == first && two.model() == second && next <= chars@.len() && rest == chars@.skip(
                next as int,
            ),
        },
{
    let (first, after_first) = match member_at_pos(chars, pos) {
        None => {
            return None;
        },
        Some(found) => found,
    };
    let comma = skip_spaces_at(chars, after_first);
    let after_comma = match expect_at(chars, comma, ',') {
        None => {
            return None;
        },
        Some(next) => next,
    };
    match member_at_pos(chars, after_comma) {
        None => None,
        Some((second, next)) => Some((first, second, next)),
    }
}

/// Reads a configuration from the text of its file.
pub fn parse(text: &str) -> (config: Option<(u64, String)>)
    ensures
        match parsed(text@) {
            None => config is None,
            Some((protocol_id, hostname)) => config matches Some((id, name)) && id == protocol_id
                && name@ == hostname,
        },
{
    let chars = chars_of(text);
    assert(chars@.skip(0) =~= text@);
    let open = skip_spaces_at(&chars, 0);
    let inside = match expect_at(&chars, open, '{') {
        None => {
            return None;
        },
        Some(next) => next,
    };
    let (first, second, after) = match members_at_pos(&chars, inside) {
        None => {
            return None;
        },
        Some(found) => found,
    };
    let close = skip_spaces_at(&chars, after);
    let rest = match expect_at(&chars, close, '}') {
        None => {
            return None;
        },
        Some(next) => next,
    };
    let end = skip_spaces_at(&chars, rest);
    if end != chars.len() {
        return None;
    }
    match (first, second) {
        (ReadMember::ProtocolId(protocol_id), ReadMember::Hostname(hostname)) => Some(
            (protocol_id, hostname),
        ),
        (ReadMember::Hostname(hostname), ReadMember::ProtocolId(protocol_id)) => Some(
            (protocol_id, hostname),
        ),
        _ => None,
    }
}

/// Reads a configuration from the text of a file, whoever wrote it.
pub fn read_config(text: &str) -> (config: Option<(u64, String)>)
    ensures
        match config_of(text@) {
            None => config is None,
            Some((protocol_id, hostname)) => config matches Some((id, name)) && id == protocol_id
                && name@ == hostname,
        },
{
    match parse(text) {
        Some(config) => Some(config),
        None => combine_members(
            read_number_member(text, "protocol_id"),
            read_string_member(text, "hostname"),
        ),
    }
}

} // verus!
