//! The text of literal values: escaped strings, integers and floats.

use vstd::prelude::*;

verus! {

/// Whether `c` is a control character: general category Cc, which is
/// U+0000 to U+001F and U+007F to U+009F.
pub open spec fn is_control(c: char) -> bool {
    (c as u32) < 0x20 || (0x7f <= (c as u32) && (c as u32) <= 0x9f)
}

/// The lower-case hexadecimal digit for a value below sixteen.
pub open spec fn hex_digit(d: nat) -> char {
    if d < 10 {
        (0x30 + d) as char
    } else {
        (0x57 + d) as char
    }
}

/// The four lower-case hexadecimal digits of a value below 0x10000.
pub open spec fn hex4(v: nat) -> Seq<char> {
    seq![
        hex_digit(v / 0x1000 % 16),
        hex_digit(v / 0x100 % 16),
        hex_digit(v / 0x10 % 16),
        hex_digit(v % 16),
    ]
}

/// How one character of a string stands inside a quoted literal.
pub open spec fn escape_char(c: char) -> Seq<char> {
    if c == '"' {
        seq!['\\', '"']
    } else if c == '\\' {
        seq!['\\', '\\']
    } else if c == '\n' {
        seq!['\\', 'n']
    } else if c == '\r' {
        seq!['\\', 'r']
    } else if c == '\t' {
        seq!['\\', 't']
    } else if is_control(c) {
        seq!['\\', 'u'] + hex4(c as nat)
    } else {
        seq![c]
    }
}

/// The escaped form of a string: the escaped forms of its characters, in
/// order.
pub open spec fn escape(s: Seq<char>) -> Seq<char>
    decreases s.len(),
{
    if s.len() == 0 {
        Seq::empty()
    } else {
        escape(s.drop_last()) + escape_char(s.last())
    }
}

/// The value of a hexadecimal digit.
pub open spec fn hex_value(c: char) -> nat {
    if '0' <= c && c <= '9' {
        (c as nat - 0x30) as nat
    } else if 'a' <= c && c <= 'f' {
        (c as nat - 0x57) as nat
    } else {
        (c as nat - 0x37) as nat
    }
}

/// The character that a one-letter escape stands for.
pub open spec fn unescape_char(c: char) -> char {
    if c == 'n' {
        '\n'
    } else if c == 'r' {
        '\r'
    } else if c == 't' {
        '\t'
    } else {
        c
    }
}

/// The string that an escaped text stands for: a backslash with `u` and four
/// hexadecimal digits gives the character of that number, a backslash with
/// any other character gives the character that this escape stands for, and
/// every other character gives itself.
pub open spec fn unescape(t: Seq<char>) -> Seq<char>
    decreases t.len(),
{
    if t.len() == 0 {
        Seq::empty()
    } else if t[0] != '\\' {
        seq![t[0]] + unescape(t.skip(1))
    } else if t.len() >= 6 && t[1] == 'u' {
        seq![
            (hex_value(t[2]) * 0x1000 + hex_value(t[3]) * 0x100 + hex_value(t[4]) * 0x10
                + hex_value(t[5])) as char,
        ] + unescape(t.skip(6))
    } else if t.len() >= 2 {
        seq![unescape_char(t[1])] + unescape(t.skip(2))
    } else {
        Seq::empty()
    }
}

/// The escaped form of a string is the escaped form of its first character
/// and then that of the rest.
pub proof fn lemma_escape_front(c: char, s: Seq<char>)
    ensures
        escape(seq![c] + s) == escape_char(c) + escape(s),
    decreases s.len(),
{
    let whole = seq![c] + s;
    if s.len() == 0 {
        assert(whole.drop_last() =~= Seq::<char>::empty());
        assert(escape(whole.drop_last()) =~= Seq::<char>::empty());
        assert(Seq::<char>::empty() + escape_char(c) =~= escape_char(c) + Seq::<char>::empty());
    } else {
        assert(whole.drop_last() =~= seq![c] + s.drop_last());
        lemma_escape_front(c, s.drop_last());
        assert((escape_char(c) + escape(s.drop_last())) + escape_char(s.last()) =~= escape_char(c)
            + (escape(s.drop_last()) + escape_char(s.last())));
    }
}

/// Reading an escaped character back gives the character.
pub proof fn lemma_unescape_char(c: char, rest: Seq<char>)
    ensures
        unescape(escape_char(c) + rest) == seq![c] + unescape(rest),
{
    let t = escape_char(c) + rest;
    if c == '"' || c == '\\' || c == '\n' || c == '\r' || c == '\t' {
        assert(t.skip(2) =~= rest);
    } else if is_control(c) {
        let v = c as nat;
        assert(t.skip(6) =~= rest);
        assert(v / 0x1000 % 16 == 0);
        assert(v / 0x100 % 16 == 0);
        assert(hex_value(t[2]) == 0);
        assert(hex_value(t[3]) == 0);
        assert(hex_value(t[4]) == v / 0x10 % 16);
        assert(hex_value(t[5]) == v % 16);
    } else {
        assert(t.skip(1) =~= rest);
    }
}

/// Escaping loses nothing: reading the escaped form of a string back gives
/// the string, whatever quotes, backslashes, line breaks and control
/// characters it holds.
pub proof fn lemma_escape_round_trip(s: Seq<char>)
    ensures
        unescape(escape(s)) == s,
    decreases s.len(),
{
    if s.len() == 0 {
    } else {
        let rest = s.skip(1);
        assert(s =~= seq![s[0]] + rest);
        lemma_escape_front(s[0], rest);
        lemma_unescape_char(s[0], escape(rest));
        lemma_escape_round_trip(rest);
    }
}

fn hex_digit_of(d: u32) -> (res: char)
    requires
        d < 16,
    ensures
        res == hex_digit(d as nat),
{
    if d < 10 {
        (0x30 + d as u8) as char
    } else {
        (0x57 + d as u8) as char
    }
}

fn char_is_control(c: char) -> (res: bool)
    ensures
        res == is_control(c),
{
    let v = c as u32;
    v < 0x20 || (0x7f <= v && v <= 0x9f)
}

/// Append the escaped form of `c` to `out`.
fn push_escaped(out: &mut String, c: char)
    ensures
        final(out)@ == old(out)@ + escape_char(c),
{
    if c == '"' {
        out.push('\\');
        out.push('"');
    } else if c == '\\' {
        out.push('\\');
        out.push('\\');
    } else if c == '\n' {
        out.push('\\');
        out.push('n');
    } else if c == '\r' {
        out.push('\\');
        out.push('r');
    } else if c == '\t' {
        out.push('\\');
        out.push('t');
    } else if char_is_control(c) {
        let v = c as u32;
        out.push('\\');
        out.push('u');
        out.push(hex_digit_of(v / 0x1000 % 16));
        out.push(hex_digit_of(v / 0x100 % 16));
        out.push(hex_digit_of(v / 0x10 % 16));
        out.push(hex_digit_of(v % 16));
    } else {
        out.push(c);
    }
    assert(out@ =~= old(out)@ + escape_char(c));
}

/// Escape a string for use between double quotes.
pub fn escape_string(s: &str) -> (res: String)
    ensures
        res@ == escape(s@),
{
    let mut result = String::new();
    for ch in it: s.chars()
        invariant
            it.seq() == s@,
            result@ == escape(s@.take(it.index() as int)),
    {
        proof {
            let i = it.index() as int;
            assert(s@.take(i + 1).drop_last() =~= s@.take(i));
        }
        push_escaped(&mut result, ch);
    }
    proof {
        assert(s@.take(s@.len() as int) =~= s@);
    }
    result
}

/// Whether a number's decimal text already shows that it is no integer: it
/// holds a decimal point or an exponent.
pub open spec fn has_fraction_mark(s: Seq<char>) -> bool {
    s.contains('.') || s.contains('e') || s.contains('E')
}

/// The text of a float whose shortest decimal text is `natural`: that text,
/// with `.0` added where it would otherwise read as an integer.
pub open spec fn float_text(natural: Seq<char>) -> Seq<char> {
    if has_fraction_mark(natural) {
        natural
    } else {
        natural + seq!['.', '0']
    }
}

/// The text of a float never reads as an integer: it holds a decimal point
/// or an exponent, and where the number's own text holds neither, it ends in
/// `.0`.
pub proof fn lemma_float_text_is_marked(natural: Seq<char>)
    ensures
        has_fraction_mark(float_text(natural)),
        !has_fraction_mark(natural) ==> float_text(natural) == natural + seq!['.', '0'],
{
    if !has_fraction_mark(natural) {
        let text = natural + seq!['.', '0'];
        assert(text[natural.len() as int] == '.');
    }
}

/// Render a float, given its shortest decimal text that reads back to the
/// same number: the result always shows a decimal point or an exponent.
pub fn format_float(natural: &str) -> (res: String)
    ensures
        res@ == float_text(natural@),
{
    let mut marked = false;
    for ch in it: natural.chars()
        invariant
            it.seq() == natural@,
            marked == has_fraction_mark(natural@.take(it.index() as int)),
    {
        proof {
            let i = it.index() as int;
            let before = natural@.take(i);
            let after = natural@.take(i + 1);
            assert(after =~= before.push(ch));
            assert(forall|c: char| after.contains(c) <==> before.contains(c) || c == ch) by {
                assert forall|c: char| after.contains(c) implies before.contains(c) || c == ch by {
                    let j = choose|j: int| 0 <= j < after.len() && after[j] == c;
                    if j < i {
                        assert(before[j] == c);
                    }
                }
                assert forall|c: char| before.contains(c) || c == ch implies after.contains(c) by {
                    if before.contains(c) {
                        let j = choose|j: int| 0 <= j < before.len() && before[j] == c;
                        assert(after[j] == c);
                    } else {
                        assert(after[i] == c);
                    }
                }
            }
        }
        if ch == '.' || ch == 'e' || ch == 'E' {
            marked = true;
        }
    }
    proof {
        assert(natural@.take(natural@.len() as int) =~= natural@);
        reveal_strlit(".0");
        assert(".0"@ =~= seq!['.', '0']);
    }
    let mut res = natural.to_owned();
    if !marked {
        res.append(".0");
    }
    res
}

/// The decimal digit for a value below ten.
pub open spec fn digit(d: nat) -> char {
    (0x30 + d) as char
}

/// The decimal digits of a natural number, without leading zeros.
pub open spec fn decimal(n: nat) -> Seq<char>
    decreases n,
{
    if n < 10 {
        seq![digit(n)]
    } else {
        decimal(n / 10).push(digit(n % 10))
    }
}

/// The decimal text of an integer: a minus sign where it is negative, then
/// the digits of its magnitude.
pub open spec fn integer_text(v: int) -> Seq<char> {
    if v < 0 {
        seq!['-'] + decimal((-v) as nat)
    } else {
        decimal(v as nat)
    }
}

/// Append the decimal digits of `n` to `out`.
fn push_decimal(out: &mut String, n: u64)
    ensures
        final(out)@ == old(out)@ + decimal(n as nat),
    decreases n,
{
    if n >= 10 {
        push_decimal(out, n / 10);
    }
    let d = (n % 10) as u8;
    out.push((0x30 + d) as char);
    assert(out@ =~= old(out)@ + decimal(n as nat));
}

/// Render an integer in decimal.
pub fn format_integer(value: i64) -> (res: String)
    ensures
        res@ == integer_text(value as int),
{
    let mut res = String::new();
    if value < 0 {
        res.push('-');
        let magnitude = (-(value + 1)) as u64 + 1;
        push_decimal(&mut res, magnitude);
    } else {
        push_decimal(&mut res, value as u64);
    }
    assert(res@ =~= integer_text(value as int));
    res
}

} // verus!
