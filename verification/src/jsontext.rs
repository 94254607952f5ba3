//! JSON text handling for dispatch results: validity of a document is
//! checked through serde_json, while the `{"output": ...}` wrapping of raw
//! text, including string escaping, is verified character by character.
use vstd::prelude::*;
use vstd::string::{StrSliceExecFns, StringExecFns};

verus! {

/// Whether serde_json accepts the text as a JSON document.
pub uninterp spec fn json_ok(s: Seq<char>) -> bool;

/// Relies on `serde_json::from_str::<Value>`: whether a text parses as a
/// JSON document is a function of the text alone.
#[verifier::external_body]
pub fn is_valid_json(s: &str) -> (r: bool)
    ensures
        r == json_ok(s@),
{
    serde_json::from_str::<serde_json::Value>(s).is_ok()
}

/// The lower-case hex digit for `v`.
pub open spec fn hex_digit(v: int) -> char {
    if v == 0 {
        '0'
    } else if v == 1 {
        '1'
    } else if v == 2 {
        '2'
    } else if v == 3 {
        '3'
    } else if v == 4 {
        '4'
    } else if v == 5 {
        '5'
    } else if v == 6 {
        '6'
    } else if v == 7 {
        '7'
    } else if v == 8 {
        '8'
    } else if v == 9 {
        '9'
    } else if v == 10 {
        'a'
    } else if v == 11 {
        'b'
    } else if v == 12 {
        'c'
    } else if v == 13 {
        'd'
    } else if v == 14 {
        'e'
    } else {
        'f'
    }
}

/// How one character appears inside a JSON string literal: quote, backslash
/// and control characters are escaped, everything else stands as itself.
pub open spec fn escape_char(c: char) -> Seq<char> {
    if c == '"' {
        seq!['\\', '"']
    } else if c == '\\' {
        seq!['\\', '\\']
    } else if c == '\u{8}' {
        seq!['\\', 'b']
    } else if c == '\t' {
        seq!['\\', 't']
    } else if c == '\n' {
        seq!['\\', 'n']
    } else if c == '\u{c}' {
        seq!['\\', 'f']
    } else if c == '\r' {
        seq!['\\', 'r']
    } else if (c as u32) < 32 {
        seq!['\\', 'u', '0', '0', hex_digit((c as u32 as int) / 16), hex_digit((c as u32 as int) % 16)]
    } else {
        seq![c]
    }
}

/// A text escaped for use inside a JSON string literal.
pub open spec fn escape_text(s: Seq<char>) -> Seq<char>
    decreases s.len(),
{
    if s.len() == 0 {
        Seq::empty()
    } else {
        escape_text(s.drop_last()) + escape_char(s.last())
    }
}

/// Raw text wrapped as the JSON document `{"output":"<escaped text>"}`.
pub open spec fn wrap_output_text(s: Seq<char>) -> Seq<char> {
    "{\"output\":\""@ + escape_text(s) + "\"}"@
}

fn hex_digit_str(v: u32) -> (r: &'static str)
    requires
        v < 16,
    ensures
        r@ =~= seq![hex_digit(v as int)],
{
    proof {
        reveal_strlit("0");
        reveal_strlit("1");
        reveal_strlit("2");
        reveal_strlit("3");
        reveal_strlit("4");
        reveal_strlit("5");
        reveal_strlit("6");
        reveal_strlit("7");
        reveal_strlit("8");
        reveal_strlit("9");
        reveal_strlit("a");
        reveal_strlit("b");
        reveal_strlit("c");
        reveal_strlit("d");
        reveal_strlit("e");
        reveal_strlit("f");
    }
    if v == 0 {
        "0"
    } else if v == 1 {
        "1"
    } else if v == 2 {
        "2"
    } else if v == 3 {
        "3"
    } else if v == 4 {
        "4"
    } else if v == 5 {
        "5"
    } else if v == 6 {
        "6"
    } else if v == 7 {
        "7"
    } else if v == 8 {
        "8"
    } else if v == 9 {
        "9"
    } else if v == 10 {
        "a"
    } else if v == 11 {
        "b"
    } else if v == 12 {
        "c"
    } else if v == 13 {
        "d"
    } else if v == 14 {
        "e"
    } else {
        "f"
    }
}

proof fn lemma_escape_text_step(s: Seq<char>, i: int)
    requires
        0 <= i < s.len(),
    ensures
        escape_text(s.take(i + 1)) == escape_text(s.take(i)) + escape_char(s[i]),
{
    let t = s.take(i + 1);
    assert(t.drop_last() =~= s.take(i));
    assert(t.last() == s[i]);
}

/// Appends `s` to `out`, escaped as [`escape_text`] describes.
fn append_escaped(out: &mut String, s: &str)
    ensures
        final(out)@ == old(out)@ + escape_text(s@),
{
    let ghost base = out@;
    let slen: usize = s.unicode_len();
    let mut i: usize = 0;
    while i < slen
        invariant
            slen == s@.len(),
            0 <= i <= slen,
            out@ == base + escape_text(s@.take(i as int)),
        decreases slen - i,
    {
        let c = s.get_char(i);
        proof {
            lemma_escape_text_step(s@, i as int);
        }
        if c == '"' {
            out.append("\\\"");
            proof {
                reveal_strlit("\\\"");
            }
        } else if c == '\\' {
            out.append("\\\\");
            proof {
                reveal_strlit("\\\\");
            }
        } else if c == '\u{8}' {
            out.append("\\b");
            proof {
                reveal_strlit("\\b");
            }
        } else if c == '\t' {
            out.append("\\t");
            proof {
                reveal_strlit("\\t");
            }
        } else if c == '\n' {
            out.append("\\n");
            proof {
                reveal_strlit("\\n");
            }
        } else if c == '\u{c}' {
            out.append("\\f");
            proof {
                reveal_strlit("\\f");
            }
        } else if c == '\r' {
            out.append("\\r");
            proof {
                reveal_strlit("\\r");
            }
        } else {
            let cv: u32 = c as u32;
            if cv < 32 {
                out.append("\\u00");
                proof {
                    reveal_strlit("\\u00");
                }
                out.append(hex_digit_str(cv / 16));
                out.append(hex_digit_str(cv % 16));
            } else {
                let piece = s.substring_char(i, i + 1);
                assert(piece@ =~= seq![s@[i as int]]);
                out.append(piece);
            }
        }
        assert(out@ =~= base + escape_text(s@.take(i + 1)));
        i += 1;
    }
    assert(s@.take(slen as int) =~= s@);
}

/// Wraps raw text as the JSON document `{"output":"..."}` with the text
/// escaped as [`escape_text`] describes.
pub fn wrap_raw_output(s: &str) -> (r: String)
    ensures
        r@ == wrap_output_text(s@),
{
    let mut out: String = String::from_str("{\"output\":\"");
    append_escaped(&mut out, s);
    out.append("\"}");
    assert(out@ =~= wrap_output_text(s@));
    out
}

/// The client configuration document that points a tool client at the local
/// bridge: one server entry named `mcp-manager` running the given command,
/// with no arguments.
pub open spec fn client_config_text(command_path: Seq<char>) -> Seq<char> {
    "{\n  \"mcpServers\": {\n    \"mcp-manager\": {\n      \"command\": \""@ + escape_text(
        command_path,
    ) + "\",\n      \"args\": []\n    }\n  }\n}"@
}

/// Builds the client configuration document for the bridge at
/// `command_path`, as [`client_config_text`] describes.
pub fn generate_mcp_config(command_path: &str) -> (r: String)
    ensures
        r@ == client_config_text(command_path@),
{
    let mut out: String = String::from_str(
        "{\n  \"mcpServers\": {\n    \"mcp-manager\": {\n      \"command\": \"",
    );
    append_escaped(&mut out, command_path);
    out.append("\",\n      \"args\": []\n    }\n  }\n}");
    assert(out@ =~= client_config_text(command_path@));
    out
}

} // verus!
