use vstd::prelude::*;
use vstd::string::*;

verus! {

/// Relies on `String::push`: the character is appended at the end.
pub assume_specification[ String::push ](s: &mut String, ch: char)
    ensures
        final(s)@ == old(s)@.push(ch),
;

/// The lower-case hexadecimal digit of `n`, for `n < 16`.
pub open spec fn hex_digit(n: u32) -> char
    recommends
        n < 16,
{
    seq!['0', '1', '2', '3', '4', '5', '6', '7', '8', '9', 'a', 'b', 'c', 'd', 'e', 'f'][n as int]
}

/// How one character stands inside a JSON string literal: the quote, the
/// backslash and the control characters are escaped, all else is kept.
pub open spec fn escape_char(c: char) -> Seq<char> {
    if c == '"' {
        seq!['\\', '"']
    } else if c == '\\' {
        seq!['\\', '\\']
    } else if c == '\n' {
        seq!['\\', 'n']
    } else if c == '\r' {
        seq!['\\', 'r']
    } else if c == '\t' {
        seq!['\\', 't']
    } else if c == '\x08' {
        seq!['\\', 'b']
    } else if c == '\x0c' {
        seq!['\\', 'f']
    } else if (c as u32) < 0x20 {
        seq!['\\', 'u', '0', '0', hex_digit((c as u32) / 16), hex_digit((c as u32) % 16)]
    } else {
        seq![c]
    }
}

/// The body of a JSON string literal that holds `s`.
pub open spec fn escaped(s: Seq<char>) -> Seq<char>
    decreases s.len(),
{
    if s.len() == 0 {
        Seq::empty()
    } else {
        escaped(s.drop_last()) + escape_char(s.last())
    }
}

/// The opening of the POST body, up to the message's first character.
pub open spec fn body_head() -> Seq<char> {
    seq!['{', '"', 't', 'e', 'x', 't', '"', ':', ' ', '"']
}

/// The close of the POST body, after the message's last character.
pub open spec fn body_tail() -> Seq<char> {
    seq!['"', '}']
}

/// The POST body for a message: `{"text": "<message>"}`, with the message
/// escaped as a JSON string.
pub open spec fn body_of(message: Seq<char>) -> Seq<char> {
    body_head() + escaped(message) + body_tail()
}

/// Escaping works character by character: the escape of two joined texts
/// is the two escapes joined.
pub proof fn lemma_escaped_concat(a: Seq<char>, b: Seq<char>)
    ensures
        escaped(a + b) == escaped(a) + escaped(b),
    decreases b.len(),
{
    if b.len() == 0 {
        assert(a + b =~= a);
        assert(escaped(a) + escaped(b) =~= escaped(a));
    } else {
        let ab = a + b;
        assert(ab.drop_last() =~= a + b.drop_last());
        assert(ab.last() == b.last());
        lemma_escaped_concat(a, b.drop_last());
        assert(escaped(ab) =~= escaped(a) + escaped(b));
    }
}

/// A double quote in a message stands in the body as a backslash and a
/// quote, so it never closes the JSON string early; the text around it is
/// escaped as it would be alone.
pub proof fn lemma_quote_in_body(before: Seq<char>, after: Seq<char>)
    ensures
        body_of(before + seq!['"'] + after) == body_head() + escaped(before) + seq!['\\', '"']
            + escaped(after) + body_tail(),
{
    lemma_escaped_concat(before + seq!['"'], after);
    lemma_escaped_concat(before, seq!['"']);
    let q = seq!['"'];
    assert(q.drop_last() =~= Seq::<char>::empty());
    assert(q.last() == '"');
    assert(escaped(q.drop_last()) == Seq::<char>::empty());
    assert(escaped(q) =~= seq!['\\', '"']);
    assert(body_of(before + seq!['"'] + after) =~= body_head() + escaped(before) + seq![
        '\\',
        '"',
    ] + escaped(after) + body_tail());
}

fn push_hex_digit(out: &mut String, n: u32)
    requires
        n < 16,
    ensures
        final(out)@ == old(out)@.push(hex_digit(n)),
{
    let c = if n == 0 { '0' } else if n == 1 { '1' } else if n == 2 { '2' } else if n == 3 {
        '3'
    } else if n == 4 { '4' } else if n == 5 { '5' } else if n == 6 { '6' } else if n == 7 {
        '7'
    } else if n == 8 { '8' } else if n == 9 { '9' } else if n == 10 { 'a' } else if n == 11 {
        'b'
    } else if n == 12 { 'c' } else if n == 13 { 'd' } else if n == 14 { 'e' } else { 'f' };
    out.push(c);
}

fn push_escaped(out: &mut String, c: char)
    ensures
        final(out)@ == old(out)@ + escape_char(c),
{
    let ghost before = out@;
    if c == '"' {
        out.push('\\');
        out.push('"');
    } else if c == '\\' {
        out.push('\\');
        out.push('\\');
    } else if c == '\n' {
        out.push('\\');
        out.push('n');
    } else if c == '\r' {
        out.push('\\');
        out.push('r');
    } else if c == '\t' {
        out.push('\\');
        out.push('t');
    } else if c == '\x08' {
        out.push('\\');
        out.push('b');
    } else if c == '\x0c' {
        out.push('\\');
        out.push('f');
    } else if (c as u32) < 0x20 {
        let code = c as u32;
        out.push('\\');
        out.push('u');
        out.push('0');
        out.push('0');
        push_hex_digit(out, code / 16);
        push_hex_digit(out, code % 16);
    } else {
        out.push(c);
    }
    assert(out@ =~= before + escape_char(c));
}

/// Builds the JSON body that carries `message`: `{"text": "<message>"}`,
/// where a quote, a backslash or a control character in the message is
/// escaped, so the body is valid JSON for every message.
pub fn generate_post_body(message: String) -> (body: String)
    ensures
        body@ == body_of(message@),
{
    let mut out = String::new();
    out.push('{');
    out.push('"');
    out.push('t');
    out.push('e');
    out.push('x');
    out.push('t');
    out.push('"');
    out.push(':');
    out.push(' ');
    out.push('"');
    assert(out@ =~= body_head());
    let text = message.as_str();
    let n = text.unicode_len();
    let mut i: usize = 0;
    while i < n
        invariant
            i <= n,
            n == message@.len(),
            text@ == message@,
            out@ == body_head() + escaped(message@.subrange(0, i as int)),
        decreases n - i,
    {
        let c = text.get_char(i);
        push_escaped(&mut out, c);
        proof {
            let next = message@.subrange(0, i + 1);
            assert(next.drop_last() =~= message@.subrange(0, i as int));
            assert(next.last() == c);
        }
        i = i + 1;
    }
    assert(message@.subrange(0, n as int) =~= message@);
    out.push('"');
    out.push('}');
    assert(out@ =~= body_of(message@));
    out
}

} // verus!
