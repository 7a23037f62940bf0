//! The JSON shape of a response line.
//!
//! A response is always serialized to one line of the fixed form
//! `{"status":S,"message":M,"details":D}`, where `M` is a JSON string,
//! and `D` is either `null` or an object `{"endpoint_id":E}` with `E` a
//! JSON string. Strings are escaped as compact JSON serializers do: `"`
//! and `\` get a backslash, the common control characters get their
//! two-character escapes, and the remaining control characters below
//! space are written as `\u00XX` with lowercase hex digits. All other
//! characters, newline included, can therefore never appear raw in the
//! line, which keeps it a single line.

use vstd::prelude::*;

verus! {

/// The lowercase hex digit for `n`, for `0 <= n < 16`.
pub open spec fn hex_char(n: int) -> char {
    if n == 0 {
        '0'
    } else if n == 1 {
        '1'
    } else if n == 2 {
        '2'
    } else if n == 3 {
        '3'
    } else if n == 4 {
        '4'
    } else if n == 5 {
        '5'
    } else if n == 6 {
        '6'
    } else if n == 7 {
        '7'
    } else if n == 8 {
        '8'
    } else if n == 9 {
        '9'
    } else if n == 10 {
        'a'
    } else if n == 11 {
        'b'
    } else if n == 12 {
        'c'
    } else if n == 13 {
        'd'
    } else if n == 14 {
        'e'
    } else {
        'f'
    }
}

/// What one character contributes to a JSON string: itself, unless it is
/// a quote, a backslash, or a control character below space, which are
/// escaped.
pub open spec fn escape_char(c: char) -> Seq<char> {
    if c == '"' {
        "\\\""@
    } else if c == '\\' {
        "\\\\"@
    } else if c == '\u{8}' {
        "\\b"@
    } else if c == '\t' {
        "\\t"@
    } else if c == '\n' {
        "\\n"@
    } else if c == '\u{c}' {
        "\\f"@
    } else if c == '\r' {
        "\\r"@
    } else if (c as u32) < 32 {
        "\\u00"@ + seq![
            if (c as u32) < 16 {
                '0'
            } else {
                '1'
            },
            hex_char(((c as u32) % 16) as int),
        ]
    } else {
        seq![c]
    }
}

/// The JSON string-escaping of a character sequence.
pub open spec fn escape_seq(s: Seq<char>) -> Seq<char>
    decreases s.len(),
{
    if s.len() == 0 {
        Seq::empty()
    } else {
        escape_seq(s.drop_last()) + escape_char(s.last())
    }
}

/// A JSON string: the escaped characters between quotes.
pub open spec fn json_string(s: Seq<char>) -> Seq<char> {
    "\""@ + escape_seq(s) + "\""@
}

/// The `details` field: `null`, or an object holding the endpoint id.
pub open spec fn json_details(details: Option<Seq<char>>) -> Seq<char> {
    match details {
        Option::None => "null"@,
        Option::Some(id) => "{\"endpoint_id\":"@ + json_string(id) + "}"@,
    }
}

/// The whole response line. `status` is spliced in raw: it is always one
/// of the two fixed words, never user input.
pub open spec fn json_line(status: Seq<char>, message: Seq<char>, details: Option<Seq<char>>) -> Seq<
    char,
> {
    "{\"status\":\""@ + status + "\",\"message\":"@ + json_string(message) + ",\"details\":"@
        + json_details(details) + "}"@
}

/// Relies on String::push: appends exactly the one character.
#[verifier::external_body]
fn push_char(out: &mut String, c: char)
    ensures
        final(out)@ == old(out)@.push(c),
{
    out.push(c);
}

/// The lowercase hex digit for `n < 16`, as a one-character string.
fn hex_digit(n: u32) -> (r: &'static str)
    requires
        n < 16,
    ensures
        r@ == seq![hex_char(n as int)],
{
    proof {
        reveal_strlit("0");
        reveal_strlit("1");
        reveal_strlit("2");
        reveal_strlit("3");
        reveal_strlit("4");
        reveal_strlit("5");
        reveal_strlit("6");
        reveal_strlit("7");
        reveal_strlit("8");
        reveal_strlit("9");
        reveal_strlit("a");
        reveal_strlit("b");
        reveal_strlit("c");
        reveal_strlit("d");
        reveal_strlit("e");
        reveal_strlit("f");
    }
    let r: &'static str = if n == 0 {
        "0"
    } else if n == 1 {
        "1"
    } else if n == 2 {
        "2"
    } else if n == 3 {
        "3"
    } else if n == 4 {
        "4"
    } else if n == 5 {
        "5"
    } else if n == 6 {
        "6"
    } else if n == 7 {
        "7"
    } else if n == 8 {
        "8"
    } else if n == 9 {
        "9"
    } else if n == 10 {
        "a"
    } else if n == 11 {
        "b"
    } else if n == 12 {
        "c"
    } else if n == 13 {
        "d"
    } else if n == 14 {
        "e"
    } else {
        "f"
    };
    proof {
        assert(r@ =~= seq![hex_char(n as int)]);
    }
    r
}

/// Appends the JSON string-escaping of `s` to `out`.
fn append_escaped(out: &mut String, s: &str)
    ensures
        final(out)@ == old(out)@ + escape_seq(s@),
{
    let n = s.unicode_len();
    let mut i: usize = 0;
    proof {
        assert(out@ =~= old(out)@ + escape_seq(s@.take(0)));
    }
    while i < n
        invariant
            n == s@.len(),
            i <= n,
            out@ == old(out)@ + escape_seq(s@.take(i as int)),
        decreases n - i,
    {
        let ghost pre = s@.take(i as int);
        let ghost nxt = s@.take(i as int + 1);
        proof {
            assert(nxt.drop_last() =~= pre);
            assert(nxt.last() == s@[i as int]);
        }
        let c = s.get_char(i);
        if c == '"' {
            out.append("\\\"");
        } else if c == '\\' {
            out.append("\\\\");
        } else if c == '\u{8}' {
            out.append("\\b");
        } else if c == '\t' {
            out.append("\\t");
        } else if c == '\n' {
            out.append("\\n");
        } else if c == '\u{c}' {
            out.append("\\f");
        } else if c == '\r' {
            out.append("\\r");
        } else if (c as u32) < 32 {
            out.append("\\u00");
            if (c as u32) < 16 {
                out.append("0");
            } else {
                out.append("1");
            }
            out.append(hex_digit((c as u32) % 16));
            proof {
                reveal_strlit("0");
                reveal_strlit("1");
                assert(out@ =~= old(out)@ + escape_seq(nxt));
            }
        } else {
            push_char(out, c);
        }
        proof {
            assert(out@ =~= old(out)@ + escape_seq(nxt));
        }
        i = i + 1;
    }
    proof {
        assert(s@.take(n as int) =~= s@);
    }
}

/// Appends the JSON string form of `s` — quotes around its escaping — to
/// `out`.
fn append_json_string(out: &mut String, s: &str)
    ensures
        final(out)@ == old(out)@ + json_string(s@),
{
    out.append("\"");
    append_escaped(out, s);
    out.append("\"");
    proof {
        assert(out@ =~= old(out)@ + json_string(s@));
    }
}

/// Builds the one response line for the given status word, message and
/// optional endpoint id.
pub fn render_json_line(status: &str, message: &str, details: Option<&str>) -> (r: String)
    ensures
        r@ == json_line(status@, message@, details.deep_view()),
{
    let mut out = String::new();
    out.append("{\"status\":\"");
    out.append(status);
    out.append("\",\"message\":");
    append_json_string(&mut out, message);
    out.append(",\"details\":");
    match details {
        Option::Some(id) => {
            out.append("{\"endpoint_id\":");
            append_json_string(&mut out, id);
            out.append("}");
        },
        Option::None => {
            out.append("null");
        },
    }
    out.append("}");
    proof {
        assert(out@ =~= json_line(status@, message@, details.deep_view()));
    }
    out
}

} // verus!
