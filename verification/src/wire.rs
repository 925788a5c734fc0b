use vstd::prelude::*;
use crate::text::{chars_of, digit_char, push_str_chars, string_from_chars};

verus! {

/// The character for one hexadecimal digit, lower case.
pub open spec fn hex_digit_char(d: nat) -> char {
    if d < 10 {
        digit_char(d)
    } else if d == 10 {
        'a'
    } else if d == 11 {
        'b'
    } else if d == 12 {
        'c'
    } else if d == 13 {
        'd'
    } else if d == 14 {
        'e'
    } else {
        'f'
    }
}

/// How one character is written inside a JSON string literal: quote and
/// backslash get a backslash escape, the named control characters get their
/// short escapes, every other control character below U+0020 is written as
/// `\u00..`, and everything else stands for itself.
pub open spec fn json_escape_char(c: char) -> Seq<char> {
    let code = c as u32;
    if c == '"' {
        seq!['\\', '"']
    } else if c == '\\' {
        seq!['\\', '\\']
    } else if code == 8 {
        seq!['\\', 'b']
    } else if code == 9 {
        seq!['\\', 't']
    } else if code == 10 {
        seq!['\\', 'n']
    } else if code == 12 {
        seq!['\\', 'f']
    } else if code == 13 {
        seq!['\\', 'r']
    } else if code < 32 {
        seq![
            '\\',
            'u',
            '0',
            '0',
            hex_digit_char((code / 16) as nat),
            hex_digit_char((code % 16) as nat),
        ]
    } else {
        seq![c]
    }
}

/// The JSON escaping of a whole string, character by character.
pub open spec fn json_escape(s: Seq<char>) -> Seq<char>
    decreases s.len(),
{
    if s.len() == 0 {
        Seq::empty()
    } else {
        json_escape_char(s[0]) + json_escape(s.drop_first())
    }
}

/// A JSON string literal: the escaped text between double quotes.
pub open spec fn json_string(s: Seq<char>) -> Seq<char> {
    seq!['"'] + json_escape(s) + seq!['"']
}

/// Escaping distributes over appending one character at the end.
pub proof fn lemma_json_escape_snoc(s: Seq<char>, c: char)
    ensures
        json_escape(s.push(c)) == json_escape(s) + json_escape_char(c),
    decreases s.len(),
{
    if s.len() == 0 {
        assert(s.push(c).drop_first() =~= Seq::<char>::empty());
        assert(s.push(c)[0] == c);
        assert(json_escape(s.push(c)) == json_escape_char(c) + json_escape(Seq::<char>::empty()));
        assert(json_escape(s.push(c)) =~= json_escape(s) + json_escape_char(c));
    } else {
        assert(s.push(c).drop_first() =~= s.drop_first().push(c));
        assert(s.push(c)[0] == s[0]);
        lemma_json_escape_snoc(s.drop_first(), c);
        assert(json_escape(s.push(c)) == json_escape_char(s[0]) + (json_escape(s.drop_first())
            + json_escape_char(c)));
        assert(json_escape(s) == json_escape_char(s[0]) + json_escape(s.drop_first()));
        assert(json_escape(s.push(c)) =~= json_escape(s) + json_escape_char(c));
    }
}

/// The numeric value of one lower-case hexadecimal digit.
pub open spec fn hex_digit_val(c: char) -> nat {
    if c == '0' {
        0
    } else if c == '1' {
        1
    } else if c == '2' {
        2
    } else if c == '3' {
        3
    } else if c == '4' {
        4
    } else if c == '5' {
        5
    } else if c == '6' {
        6
    } else if c == '7' {
        7
    } else if c == '8' {
        8
    } else if c == '9' {
        9
    } else if c == 'a' {
        10
    } else if c == 'b' {
        11
    } else if c == 'c' {
        12
    } else if c == 'd' {
        13
    } else if c == 'e' {
        14
    } else {
        15
    }
}

/// The character a short backslash escape stands for.
pub open spec fn unescape_short(c: char) -> char {
    if c == 'b' {
        '\u{8}'
    } else if c == 't' {
        '\t'
    } else if c == 'n' {
        '\n'
    } else if c == 'f' {
        '\u{c}'
    } else if c == 'r' {
        '\r'
    } else if c == '"' {
        '"'
    } else {
        '\\'
    }
}

/// Reads one JSON string body up to and over its closing quote: the
/// decoded characters, and what follows the quote. `None` when the text
/// breaks off before the quote.
pub open spec fn scan_json_string(s: Seq<char>) -> Option<(Seq<char>, Seq<char>)>
    decreases s.len(),
{
    if s.len() == 0 {
        None
    } else if s[0] == '"' {
        Some((Seq::empty(), s.drop_first()))
    } else if s[0] == '\\' {
        if s.len() >= 6 && s[1] == 'u' {
            let code = ((hex_digit_val(s[2]) * 16 + hex_digit_val(s[3])) * 16 + hex_digit_val(
                s[4],
            )) * 16 + hex_digit_val(s[5]);
            match scan_json_string(s.skip(6)) {
                Some((v, r)) => Some((seq![(code as u32) as char] + v, r)),
                None => None,
            }
        } else if s.len() >= 2 {
            match scan_json_string(s.skip(2)) {
                Some((v, r)) => Some((seq![unescape_short(s[1])] + v, r)),
                None => None,
            }
        } else {
            None
        }
    } else {
        match scan_json_string(s.drop_first()) {
            Some((v, r)) => Some((seq![s[0]] + v, r)),
            None => None,
        }
    }
}

/// Hex digits decode back to their value.
proof fn lemma_hex_digit_val_of_char(d: nat)
    requires
        d < 16,
    ensures
        hex_digit_val(hex_digit_char(d)) == d,
{
}

/// Characters with the same code point are the same character.
proof fn lemma_char_eq_by_code(a: char, b: char)
    requires
        a as u32 == b as u32,
    ensures
        a == b,
{
    vstd::utf8::char_u32_cast(a, a as u32);
    vstd::utf8::char_u32_cast(b, b as u32);
}

/// Scanning undoes escaping: the escaped text of `v`, a closing quote, and
/// anything placed after it scan back to exactly `v` and that remainder.
pub proof fn lemma_scan_escaped(v: Seq<char>, rest: Seq<char>)
    ensures
        scan_json_string(json_escape(v) + seq!['"'] + rest) == Some((v, rest)),
    decreases v.len(),
{
    let s = json_escape(v) + seq!['"'] + rest;
    if v.len() == 0 {
        assert(json_escape(v) =~= Seq::<char>::empty());
        assert(s =~= seq!['"'] + rest);
        assert(s[0] == '"');
        assert(s.drop_first() =~= rest);
        assert(v =~= Seq::<char>::empty());
    } else {
        let c = v[0];
        let e = json_escape_char(c);
        let tail = json_escape(v.drop_first()) + seq!['"'] + rest;
        assert(json_escape(v) == e + json_escape(v.drop_first()));
        assert(s =~= e + tail);
        assert(tail.len() >= 1);
        lemma_scan_escaped(v.drop_first(), rest);
        let code = c as u32;
        if c == '"' || c == '\\' || code == 8 || code == 9 || code == 10 || code == 12 || code
            == 13 {
            if code == 8 {
                lemma_char_eq_by_code(c, '\u{8}');
            } else if code == 9 {
                lemma_char_eq_by_code(c, '\t');
            } else if code == 10 {
                lemma_char_eq_by_code(c, '\n');
            } else if code == 12 {
                lemma_char_eq_by_code(c, '\u{c}');
            } else if code == 13 {
                lemma_char_eq_by_code(c, '\r');
            }
            assert(unescape_short(e[1]) == c);
            assert(e.len() == 2);
            assert(s[0] == '\\');
            assert(s[1] == e[1]);
            assert(s[1] != 'u');
            assert(s.skip(2) =~= tail);
            assert(scan_json_string(s) == Some((seq![c] + v.drop_first(), rest)));
            assert(seq![c] + v.drop_first() =~= v);
        } else if code < 32 {
            assert(e.len() == 6);
            assert(s[0] == '\\' && s[1] == 'u' && s[2] == '0' && s[3] == '0');
            assert(s[4] == hex_digit_char((code / 16) as nat) && s[5] == hex_digit_char(
                (code % 16) as nat,
            ));
            assert(s.len() >= 6);
            assert(s.skip(6) =~= tail);
            lemma_hex_digit_val_of_char((code / 16) as nat);
            lemma_hex_digit_val_of_char((code % 16) as nat);
            assert(hex_digit_val(s[2]) == 0 && hex_digit_val(s[3]) == 0);
            let decoded = ((hex_digit_val(s[2]) * 16 + hex_digit_val(s[3])) * 16 + hex_digit_val(
                s[4],
            )) * 16 + hex_digit_val(s[5]);
            assert(decoded == (code / 16) * 16 + code % 16);
            assert(decoded == code as nat);
            assert(decoded as u32 == code);
            vstd::utf8::char_u32_cast(c, code);
            assert((decoded as u32) as char == c);
            assert(scan_json_string(s) == Some((seq![c] + v.drop_first(), rest)));
            assert(seq![c] + v.drop_first() =~= v);
        } else {
            assert(e =~= seq![c]);
            assert(s[0] == c);
            assert(s[0] != '"' && s[0] != '\\');
            assert(s.drop_first() =~= tail);
            assert(scan_json_string(s) == Some((seq![c] + v.drop_first(), rest)));
            assert(seq![c] + v.drop_first() =~= v);
        }
    }
}

fn hex_digit(d: u32) -> (c: char)
    requires
        d < 16,
    ensures
        c == hex_digit_char(d as nat),
{
    if d == 0 {
        '0'
    } else if d == 1 {
        '1'
    } else if d == 2 {
        '2'
    } else if d == 3 {
        '3'
    } else if d == 4 {
        '4'
    } else if d == 5 {
        '5'
    } else if d == 6 {
        '6'
    } else if d == 7 {
        '7'
    } else if d == 8 {
        '8'
    } else if d == 9 {
        '9'
    } else if d == 10 {
        'a'
    } else if d == 11 {
        'b'
    } else if d == 12 {
        'c'
    } else if d == 13 {
        'd'
    } else if d == 14 {
        'e'
    } else {
        'f'
    }
}

/// Appends the JSON escaping of one character to `out`.
fn push_escaped_char(c: char, out: &mut Vec<char>)
    ensures
        final(out)@ == old(out)@ + json_escape_char(c),
{
    if c == '"' {
        out.push('\\');
        out.push('"');
    } else if c == '\\' {
        out.push('\\');
        out.push('\\');
    } else {
        let code = c as u32;
        if code == 8 {
            out.push('\\');
            out.push('b');
        } else if code == 9 {
            out.push('\\');
            out.push('t');
        } else if code == 10 {
            out.push('\\');
            out.push('n');
        } else if code == 12 {
            out.push('\\');
            out.push('f');
        } else if code == 13 {
            out.push('\\');
            out.push('r');
        } else if code < 32 {
            out.push('\\');
            out.push('u');
            out.push('0');
            out.push('0');
            out.push(hex_digit(code / 16));
            out.push(hex_digit(code % 16));
        } else {
            out.push(c);
        }
    }
    assert(out@ =~= old(out)@ + json_escape_char(c));
}

/// Appends the JSON string literal for `s` to `out`.
pub fn push_json_string(s: &str, out: &mut Vec<char>)
    ensures
        final(out)@ == old(out)@ + json_string(s@),
{
    out.push('"');
    let chars = chars_of(s);
    let n = chars.len();
    let mut i: usize = 0;
    while i < n
        invariant
            n == s@.len(),
            chars@ == s@,
            i <= n,
            out@ == old(out)@ + seq!['"'] + json_escape(s@.subrange(0, i as int)),
        decreases n - i,
    {
        push_escaped_char(chars[i], out);
        proof {
            lemma_json_escape_snoc(s@.subrange(0, i as int), s@[i as int]);
            assert(s@.subrange(0, i as int).push(s@[i as int]) =~= s@.subrange(0, i + 1 as int));
        }
        i = i + 1;
    }
    proof {
        assert(s@.subrange(0, n as int) =~= s@);
    }
    out.push('"');
    assert(out@ =~= old(out)@ + json_string(s@));
}

/// The wire payload of one send: a JSON object with exactly the five
/// fields `From`, `To`, `Subject`, `HtmlBody` and `TextBody`, in that
/// order, each holding the corresponding argument as a JSON string.
pub open spec fn email_request_body(
    from: Seq<char>,
    to: Seq<char>,
    subject: Seq<char>,
    html: Seq<char>,
    text: Seq<char>,
) -> Seq<char> {
    "{\"From\":"@ + json_string(from) + ",\"To\":"@ + json_string(to) + ",\"Subject\":"@
        + json_string(subject) + ",\"HtmlBody\":"@ + json_string(html) + ",\"TextBody\":"@
        + json_string(text) + "}"@
}

/// One labelled field of the payload: the given label (the text from the
/// previous delimiter through the colon), an opening quote, then a JSON
/// string. Gives the decoded value and what follows its closing quote.
pub open spec fn scan_field(s: Seq<char>, label: Seq<char>) -> Option<(Seq<char>, Seq<char>)> {
    if (label + seq!['"']).is_prefix_of(s) {
        scan_json_string(s.skip(label.len() as int + 1))
    } else {
        None
    }
}

/// Reads a rendered payload back: the five field values, in their fixed
/// order, when `s` has the shape [`email_request_body`] produces.
pub open spec fn parse_email_request_body(s: Seq<char>) -> Option<
    (Seq<char>, Seq<char>, Seq<char>, Seq<char>, Seq<char>),
> {
    match scan_field(s, "{\"From\":"@) {
        Some((from, r1)) => match scan_field(r1, ",\"To\":"@) {
            Some((to, r2)) => match scan_field(r2, ",\"Subject\":"@) {
                Some((subject, r3)) => match scan_field(r3, ",\"HtmlBody\":"@) {
                    Some((html, r4)) => match scan_field(r4, ",\"TextBody\":"@) {
                        Some((text, r5)) => if r5 == "}"@ {
                            Some((from, to, subject, html, text))
                        } else {
                            None
                        },
                        None => None,
                    },
                    None => None,
                },
                None => None,
            },
            None => None,
        },
        None => None,
    }
}

/// Scanning one well-shaped field gives its value and the remainder.
proof fn lemma_scan_field(label: Seq<char>, v: Seq<char>, rest: Seq<char>)
    ensures
        scan_field(label + json_string(v) + rest, label) == Some((v, rest)),
{
    let s = label + json_string(v) + rest;
    let p = label + seq!['"'];
    assert(s.subrange(0, p.len() as int) =~= p);
    assert(p.is_prefix_of(s));
    assert(s.skip(label.len() as int + 1) =~= json_escape(v) + seq!['"'] + rest);
    lemma_scan_escaped(v, rest);
}

/// Law: the rendered payload holds exactly the five fields with the values
/// passed to the send — parsing it back recovers each of them.
pub proof fn lemma_body_fields_recoverable(
    from: Seq<char>,
    to: Seq<char>,
    subject: Seq<char>,
    html: Seq<char>,
    text: Seq<char>,
)
    ensures
        parse_email_request_body(email_request_body(from, to, subject, html, text)) == Some(
            (from, to, subject, html, text),
        ),
{
    let r5 = "}"@;
    let r4 = ",\"TextBody\":"@ + json_string(text) + r5;
    let r3 = ",\"HtmlBody\":"@ + json_string(html) + r4;
    let r2 = ",\"Subject\":"@ + json_string(subject) + r3;
    let r1 = ",\"To\":"@ + json_string(to) + r2;
    let body = email_request_body(from, to, subject, html, text);
    assert(body =~= "{\"From\":"@ + json_string(from) + r1);
    lemma_scan_field("{\"From\":"@, from, r1);
    lemma_scan_field(",\"To\":"@, to, r2);
    lemma_scan_field(",\"Subject\":"@, subject, r3);
    lemma_scan_field(",\"HtmlBody\":"@, html, r4);
    lemma_scan_field(",\"TextBody\":"@, text, r5);
}

/// Law: the payload determines its inputs — equal rendered bodies can only
/// come from equal sender, recipient, subject and content values.
pub proof fn lemma_body_injective(
    from1: Seq<char>,
    to1: Seq<char>,
    subject1: Seq<char>,
    html1: Seq<char>,
    text1: Seq<char>,
    from2: Seq<char>,
    to2: Seq<char>,
    subject2: Seq<char>,
    html2: Seq<char>,
    text2: Seq<char>,
)
    requires
        email_request_body(from1, to1, subject1, html1, text1) == email_request_body(
            from2,
            to2,
            subject2,
            html2,
            text2,
        ),
    ensures
        from1 == from2,
        to1 == to2,
        subject1 == subject2,
        html1 == html2,
        text1 == text2,
{
    lemma_body_fields_recoverable(from1, to1, subject1, html1, text1);
    lemma_body_fields_recoverable(from2, to2, subject2, html2, text2);
}

/// Renders the wire payload for one send.
pub fn render_email_request_body(
    from: &str,
    to: &str,
    subject: &str,
    html: &str,
    text: &str,
) -> (r: String)
    ensures
        r@ == email_request_body(from@, to@, subject@, html@, text@),
{
    let mut out: Vec<char> = Vec::new();
    push_str_chars("{\"From\":", &mut out);
    push_json_string(from, &mut out);
    push_str_chars(",\"To\":", &mut out);
    push_json_string(to, &mut out);
    push_str_chars(",\"Subject\":", &mut out);
    push_json_string(subject, &mut out);
    push_str_chars(",\"HtmlBody\":", &mut out);
    push_json_string(html, &mut out);
    push_str_chars(",\"TextBody\":", &mut out);
    push_json_string(text, &mut out);
    push_str_chars("}", &mut out);
    assert(out@ =~= email_request_body(from@, to@, subject@, html@, text@));
    string_from_chars(&out)
}

} // verus!
