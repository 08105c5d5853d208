use vstd::prelude::*;

verus! {

/// Relies on std's `String::push`: it appends the given character to the end
/// of the string.
pub assume_specification[ String::push ](s: &mut String, ch: char)
    ensures
        final (s)@ == old(s)@.push(ch),
;

/// The character for one digit value below sixteen: `0`-`9` then `a`-`f`.
pub open spec fn digit_char(n: nat) -> char
    recommends
        n < 16,
{
    if n < 10 {
        ((0x30 + n) as u8) as char
    } else {
        ((0x57 + n) as u8) as char
    }
}

/// The character for one digit value below sixteen.
pub fn digit_char_exec(n: u8) -> (c: char)
    requires
        n < 16,
    ensures
        c == digit_char(n as nat),
{
    if n < 10 {
        (0x30 + n) as char
    } else {
        (0x57 + n) as char
    }
}

/// The decimal rendering of a natural number, most significant digit first,
/// with no leading zero except for the number zero itself.
pub open spec fn dec_str(n: nat) -> Seq<char>
    decreases n,
{
    if n < 10 {
        seq![digit_char(n)]
    } else {
        dec_str(n / 10) + seq![digit_char(n % 10)]
    }
}

/// Render a number in decimal.
pub fn u64_to_dec(n: u64) -> (r: String)
    ensures
        r@ == dec_str(n as nat),
    decreases n,
{
    if n < 10 {
        let mut s = String::new();
        s.push(digit_char_exec(n as u8));
        proof {
            assert(s@ =~= seq![digit_char(n as nat)]);
        }
        s
    } else {
        let mut s = u64_to_dec(n / 10);
        s.push(digit_char_exec((n % 10) as u8));
        proof {
            assert(s@ =~= dec_str((n / 10) as nat) + seq![digit_char((n % 10) as nat)]);
        }
        s
    }
}

/// Whether a character is a decimal digit.
pub open spec fn is_digit_char(c: char) -> bool {
    0x30 <= (c as u32) && (c as u32) <= 0x39
}

/// The decimal rendering is never empty and holds digits alone, so it stands
/// as a JSON number wherever the envelope places it.
pub proof fn lemma_dec_str_digits(n: nat)
    ensures
        dec_str(n).len() > 0,
        forall|i: int| 0 <= i < dec_str(n).len() ==> is_digit_char(#[trigger] dec_str(n)[i]),
    decreases n,
{
    if n < 10 {
        assert(is_digit_char(digit_char(n)));
    } else {
        lemma_dec_str_digits(n / 10);
        assert(is_digit_char(digit_char(n % 10)));
        assert(forall|i: int|
            0 <= i < dec_str(n).len() ==> is_digit_char(#[trigger] dec_str(n)[i]));
    }
}

/// How one character stands inside a JSON string literal: the quote and the
/// backslash escaped with a backslash, control characters in `\u00XX` form,
/// every other character as itself.
pub open spec fn escape_char(c: char) -> Seq<char> {
    if c == '"' {
        "\\\""@
    } else if c == '\\' {
        "\\\\"@
    } else if (c as u32) < 0x20 {
        "\\u00"@ + seq![
            digit_char(((c as u32) / 16) as nat),
            digit_char(((c as u32) % 16) as nat),
        ]
    } else {
        seq![c]
    }
}

/// The body of a JSON string literal for the given characters.
pub open spec fn escaped(s: Seq<char>) -> Seq<char>
    decreases s.len(),
{
    if s.len() == 0 {
        Seq::empty()
    } else {
        escape_char(s[0]) + escaped(s.drop_first())
    }
}

/// Escaping a string one character longer appends that character's escape.
pub proof fn lemma_escaped_push(s: Seq<char>, c: char)
    ensures
        escaped(s.push(c)) == escaped(s) + escape_char(c),
    decreases s.len(),
{
    if s.len() == 0 {
        assert(s.push(c)[0] == c);
        assert(s.push(c).drop_first() =~= s);
        assert(escaped(s.push(c)) == escape_char(c) + escaped(s));
        assert(escaped(s) == Seq::<char>::empty());
        assert(escaped(s.push(c)) =~= escaped(s) + escape_char(c));
    } else {
        assert(s.push(c)[0] == s[0]);
        assert(s.push(c).drop_first() =~= s.drop_first().push(c));
        lemma_escaped_push(s.drop_first(), c);
        assert(escaped(s.push(c)) == escape_char(s[0]) + (escaped(s.drop_first())
            + escape_char(c)));
        assert(escape_char(s[0]) + (escaped(s.drop_first()) + escape_char(c)) =~= (escape_char(
            s[0],
        ) + escaped(s.drop_first())) + escape_char(c));
    }
}

/// Append the characters of `s`, escaped for a JSON string literal, to `out`.
pub fn append_escaped(out: &mut String, s: &str)
    ensures
        final (out)@ == old(out)@ + escaped(s@),
{
    let n = s.unicode_len();
    let mut i: usize = 0;
    proof {
        assert(s@.take(0) =~= Seq::<char>::empty());
        assert(old(out)@ + escaped(s@.take(0)) =~= old(out)@);
    }
    while i < n
        invariant
            n as nat == s@.len(),
            i <= n,
            out@ == old(out)@ + escaped(s@.take(i as int)),
        decreases n - i,
    {
        let c = s.get_char(i);
        let ghost prev = out@;
        if c == '"' {
            out.append("\\\"");
        } else if c == '\\' {
            out.append("\\\\");
        } else if (c as u32) < 0x20 {
            out.append("\\u00");
            let code = c as u32;
            out.push(digit_char_exec((code / 16) as u8));
            out.push(digit_char_exec((code % 16) as u8));
            proof {
                assert(out@ =~= prev + escape_char(c));
            }
        } else {
            out.push(c);
            proof {
                assert(out@ =~= prev + escape_char(c));
            }
        }
        proof {
            assert(s@.take(i as int + 1) =~= s@.take(i as int).push(s@[i as int]));
            lemma_escaped_push(s@.take(i as int), c);
            assert(out@ =~= old(out)@ + escaped(s@.take(i as int + 1)));
        }
        i = i + 1;
    }
    proof {
        assert(s@.take(n as int) =~= s@);
    }
}

/// Whether a character is a lower-case hexadecimal digit.
pub open spec fn is_hex_char(c: char) -> bool {
    (0x30 <= (c as u32) && (c as u32) <= 0x39) || (0x61 <= (c as u32) && (c as u32) <= 0x66)
}

/// Whether a character sequence is a well-formed JSON string-literal body:
/// a scan meets no raw quote, no raw control character, and every backslash
/// opens a complete escape, so the scan ends exactly at the end.
pub open spec fn literal_body_ok(t: Seq<char>) -> bool
    decreases t.len(),
{
    if t.len() == 0 {
        true
    } else if t[0] == '"' {
        false
    } else if t[0] == '\\' {
        if t.len() < 2 {
            false
        } else if t[1] == '"' || t[1] == '\\' {
            literal_body_ok(t.skip(2))
        } else if t[1] == 'u' {
            t.len() >= 6 && t[2] == '0' && t[3] == '0' && is_hex_char(t[4]) && is_hex_char(t[5])
                && literal_body_ok(t.skip(6))
        } else {
            false
        }
    } else {
        (t[0] as u32) >= 0x20 && literal_body_ok(t.skip(1))
    }
}

/// Escaping always yields a well-formed JSON string-literal body, whatever
/// the characters of the input.
pub proof fn lemma_escaped_body_ok(s: Seq<char>)
    ensures
        literal_body_ok(escaped(s)),
    decreases s.len(),
{
    reveal_strlit("\\\"");
    reveal_strlit("\\\\");
    reveal_strlit("\\u00");
    if s.len() == 0 {
    } else {
        lemma_escaped_body_ok(s.drop_first());
        let c = s[0];
        let t = escaped(s);
        let rest = escaped(s.drop_first());
        assert(t == escape_char(c) + rest);
        if c == '"' {
            assert(t.skip(2) =~= rest);
        } else if c == '\\' {
            assert(t.skip(2) =~= rest);
        } else if (c as u32) < 0x20 {
            let hi = digit_char((((c as u32) / 16) as nat));
            let lo = digit_char((((c as u32) % 16) as nat));
            assert(is_hex_char(hi));
            assert(is_hex_char(lo));
            assert(t.skip(6) =~= rest);
            assert(t[0] == '\\' && t[1] == 'u' && t[2] == '0' && t[3] == '0' && t[4] == hi && t[5]
                == lo);
        } else {
            assert(t.skip(1) =~= rest);
        }
    }
}

/// The value of a lower-case hexadecimal digit character.
pub open spec fn hex_val(c: char) -> nat
    recommends
        is_hex_char(c),
{
    if (c as u32) <= 0x39 {
        ((c as u32) - 0x30) as nat
    } else {
        ((c as u32) - 0x57) as nat
    }
}

/// What a JSON string-literal body denotes: the characters it spells once
/// every escape is folded back, `None` when it is not well-formed.
pub open spec fn unescaped(t: Seq<char>) -> Option<Seq<char>>
    decreases t.len(),
{
    if t.len() == 0 {
        Some(Seq::empty())
    } else if t[0] == '\\' {
        if t.len() >= 2 && (t[1] == '"' || t[1] == '\\') {
            match unescaped(t.skip(2)) {
                Some(r) => Some(seq![t[1]] + r),
                None => None,
            }
        } else if t.len() >= 6 && t[1] == 'u' && t[2] == '0' && t[3] == '0' && is_hex_char(t[4])
            && is_hex_char(t[5]) {
            match unescaped(t.skip(6)) {
                Some(r) => Some(seq![(((16 * hex_val(t[4]) + hex_val(t[5])) as u8) as char)] + r),
                None => None,
            }
        } else {
            None
        }
    } else if t[0] == '"' {
        None
    } else {
        match unescaped(t.skip(1)) {
            Some(r) => Some(seq![t[0]] + r),
            None => None,
        }
    }
}

/// Two characters with the same code point are the same character.
proof fn char_eq_from_value(c: char, d: char)
    requires
        c as u32 == d as u32,
    ensures
        c == d,
{
}

/// Escaping loses nothing: folding the escapes back gives exactly the
/// characters that were escaped, whatever they are.
pub proof fn lemma_escape_round_trip(s: Seq<char>)
    ensures
        unescaped(escaped(s)) == Some(s),
    decreases s.len(),
{
    reveal_strlit("\\\"");
    reveal_strlit("\\\\");
    reveal_strlit("\\u00");
    if s.len() == 0 {
    } else {
        lemma_escape_round_trip(s.drop_first());
        let c = s[0];
        let t = escaped(s);
        let rest = escaped(s.drop_first());
        assert(t == escape_char(c) + rest);
        if c == '"' {
            assert(t[0] == '\\' && t[1] == '"');
            assert(t.skip(2) =~= rest);
            assert(seq![c] + s.drop_first() =~= s);
        } else if c == '\\' {
            assert(t[0] == '\\' && t[1] == '\\');
            assert(t.skip(2) =~= rest);
            assert(seq![c] + s.drop_first() =~= s);
        } else if (c as u32) < 0x20 {
            let hi = digit_char((((c as u32) / 16) as nat));
            let lo = digit_char((((c as u32) % 16) as nat));
            assert(t[0] == '\\' && t[1] == 'u' && t[2] == '0' && t[3] == '0' && t[4] == hi && t[5]
                == lo);
            assert(t.len() >= 6);
            assert(t.skip(6) =~= rest);
            assert(hex_val(hi) == (c as u32) / 16);
            assert(hex_val(lo) == (c as u32) % 16);
            let n = 16 * hex_val(hi) + hex_val(lo);
            assert(n == c as u32);
            assert(((n as u8) as char) as u32 == c as u32);
            char_eq_from_value(((n as u8) as char), c);
            assert(seq![c] + s.drop_first() =~= s);
        } else {
            assert(t[0] == c);
            assert(t.skip(1) =~= rest);
            assert(seq![c] + s.drop_first() =~= s);
        }
    }
}

/// A JSON string literal: the escaped characters between two quotes.
pub open spec fn json_string_of(s: Seq<char>) -> Seq<char> {
    "\""@ + escaped(s) + "\""@
}

/// Append the JSON string literal for `s` to `out`.
pub fn append_json_string(out: &mut String, s: &str)
    ensures
        final (out)@ == old(out)@ + json_string_of(s@),
{
    out.append("\"");
    append_escaped(out, s);
    out.append("\"");
    proof {
        assert(old(out)@ + ("\""@ + escaped(s@) + "\""@) =~= ((old(out)@ + "\""@) + escaped(s@))
            + "\""@);
    }
}

/// The JSON rendering of a boolean.
pub open spec fn render_bool(b: bool) -> Seq<char> {
    if b {
        "true"@
    } else {
        "false"@
    }
}

/// The `data` member of a successful offer response: an object with the
/// offer encoding under the key `offer`.
pub open spec fn offer_data_json(offer: Seq<char>) -> Seq<char> {
    "{\"offer\":"@ + json_string_of(offer) + "}"@
}

/// The `data` member of a health response: the configuration flag, a fixed
/// status, and the server timestamp.
pub open spec fn health_data_json(timestamp: nat, certificates_loaded: bool) -> Seq<char> {
    "{\"config\":{\"certificates_loaded\":"@ + render_bool(certificates_loaded)
        + "},\"status\":\"ok\",\"timestamp\":"@ + dec_str(timestamp) + "}"@
}

/// The uniform response envelope of both endpoints: a success flag, a
/// message, and an optional data member rendered as `null` when absent.
pub open spec fn render_envelope(success: bool, message: Seq<char>, data: Option<Seq<char>>) -> Seq<
    char,
> {
    "{\"success\":"@ + render_bool(success) + ",\"message\":"@ + json_string_of(message)
        + ",\"data\":"@ + (match data {
        None => "null"@,
        Some(d) => d,
    }) + "}"@
}

/// Build the envelope for a message and a pre-rendered optional data member.
pub fn build_envelope(success: bool, message: &str, data: Option<&String>) -> (r: String)
    ensures
        r@ == render_envelope(
            success,
            message@,
            match data {
                None => None,
                Some(d) => Some(d@),
            },
        ),
{
    let mut out = String::from_str("{\"success\":");
    if success {
        out.append("true");
    } else {
        out.append("false");
    }
    out.append(",\"message\":");
    append_json_string(&mut out, message);
    out.append(",\"data\":");
    match data {
        None => out.append("null"),
        Some(d) => out.append(d.as_str()),
    }
    out.append("}");
    proof {
        let dataseq = match data {
            None => "null"@,
            Some(d) => d@,
        };
        assert(out@ =~= "{\"success\":"@ + render_bool(success) + ",\"message\":"@
            + json_string_of(message@) + ",\"data\":"@ + dataseq + "}"@);
    }
    out
}

} // verus!
