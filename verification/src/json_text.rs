//! Compact JSON text of a value, written as `serde_json::to_string` writes
//! it: no spaces, strings escaped, object entries in their order.

use vstd::prelude::*;

use crate::json::{Json, JsonNumber};
use crate::text::{decimal, push_char, signed_decimal, u64_to_text, i64_to_text};

verus! {

/// A lower-case hexadecimal digit.
pub open spec fn hex_digit(d: nat) -> char {
    if d < 10 {
        ((d + 48) as u32) as char
    } else {
        ((d + 87) as u32) as char
    }
}

/// The escaped form of one character inside a JSON string.
pub open spec fn escape_char(c: char) -> Seq<char> {
    if c == '"' {
        seq!['\\', '"']
    } else if c == '\\' {
        seq!['\\', '\\']
    } else if c == '\n' {
        seq!['\\', 'n']
    } else if c == '\r' {
        seq!['\\', 'r']
    } else if c == '\t' {
        seq!['\\', 't']
    } else if c as u32 == 8 {
        seq!['\\', 'b']
    } else if c as u32 == 12 {
        seq!['\\', 'f']
    } else if (c as u32) < 32 {
        seq!['\\', 'u', '0', '0', hex_digit((c as u32 / 16) as nat), hex_digit((c as u32 % 16) as nat)]
    } else {
        seq![c]
    }
}

/// The escaped form of a character sequence.
pub open spec fn escape_text(s: Seq<char>) -> Seq<char>
    decreases s.len(),
{
    if s.len() == 0 {
        Seq::empty()
    } else {
        escape_text(s.drop_last()) + escape_char(s.last())
    }
}

/// A JSON string literal for `s`.
pub open spec fn quoted(s: Seq<char>) -> Seq<char> {
    seq!['"'] + escape_text(s) + seq!['"']
}

/// The text of a JSON number.
pub open spec fn number_text(n: JsonNumber) -> Seq<char> {
    match n {
        JsonNumber::PosInt(u) => decimal(u as nat),
        JsonNumber::NegInt(i) => signed_decimal(i as int),
        JsonNumber::Float(t) => t@,
    }
}

/// The compact JSON text of a value.
pub open spec fn json_text(j: Json) -> Seq<char>
    decreases j, 1int,
{
    match j {
        Json::Null => "null"@,
        Json::Bool(b) => if b { "true"@ } else { "false"@ },
        Json::Number(n) => number_text(n),
        Json::Str(s) => quoted(s@),
        Json::Array(v) => {
            proof {
                assert(decreases_to!(j => v));
                assert(decreases_to!(v => v@));
            }
            seq!['['] + items_text(v@) + seq![']']
        },
        Json::Object(v) => {
            proof {
                assert(decreases_to!(j => v));
                assert(decreases_to!(v => v@));
            }
            seq!['{'] + entries_text(v@) + seq!['}']
        },
    }
}

/// The texts of array items, separated by commas.
pub open spec fn items_text(s: Seq<Json>) -> Seq<char>
    decreases s, 0int,
{
    if s.len() == 0 {
        Seq::empty()
    } else {
        proof {
            assert(decreases_to!(s => s[s.len() - 1]));
            assert(decreases_to!(s => s.subrange(0, s.len() - 1)));
        }
        if s.len() == 1 {
            json_text(s[0])
        } else {
            items_text(s.subrange(0, s.len() - 1)) + seq![','] + json_text(s[s.len() - 1])
        }
    }
}

/// The texts of object entries (`"key":value`), separated by commas.
pub open spec fn entries_text(s: Seq<(String, Json)>) -> Seq<char>
    decreases s, 0int,
{
    if s.len() == 0 {
        Seq::empty()
    } else {
        proof {
            assert(decreases_to!(s => s[s.len() - 1]));
            assert(decreases_to!(s[s.len() - 1] => s[s.len() - 1].1));
            assert(decreases_to!(s => s.subrange(0, s.len() - 1)));
        }
        let last = quoted(s[s.len() - 1].0@) + seq![':'] + json_text(s[s.len() - 1].1);
        if s.len() == 1 {
            last
        } else {
            entries_text(s.subrange(0, s.len() - 1)) + seq![','] + last
        }
    }
}

/// The hexadecimal digit for `d < 16`.
fn hex_char(d: u32) -> (c: char)
    requires
        d < 16,
    ensures
        c == hex_digit(d as nat),
{
    if d < 10 {
        assert(((d + 48) as u32) < 0xD800);
        ((d + 48) as u8) as char
    } else {
        ((d + 87) as u8) as char
    }
}

/// Appends the escaped form of `s` to `out`.
pub fn push_escaped(out: &mut String, s: &str)
    ensures
        final(out)@ == old(out)@ + escape_text(s@),
{
    let cs = crate::text::to_chars(s);
    let ghost start = out@;
    let mut i: usize = 0;
    while i < cs.len()
        invariant
            i <= cs.len(),
            cs@ == s@,
            out@ == start + escape_text(cs@.take(i as int)),
        decreases cs.len() - i,
    {
        let c = cs[i];
        let ghost before = out@;
        let code = c as u32;
        if c == '"' {
            push_char(out, '\\');
            push_char(out, '"');
        } else if c == '\\' {
            push_char(out, '\\');
            push_char(out, '\\');
        } else if c == '\n' {
            push_char(out, '\\');
            push_char(out, 'n');
        } else if c == '\r' {
            push_char(out, '\\');
            push_char(out, 'r');
        } else if c == '\t' {
            push_char(out, '\\');
            push_char(out, 't');
        } else if code == 8 {
            push_char(out, '\\');
            push_char(out, 'b');
        } else if code == 12 {
            push_char(out, '\\');
            push_char(out, 'f');
        } else if code < 32 {
            push_char(out, '\\');
            push_char(out, 'u');
            push_char(out, '0');
            push_char(out, '0');
            push_char(out, hex_char(code / 16));
            push_char(out, hex_char(code % 16));
        } else {
            push_char(out, c);
        }
        assert(out@ =~= before + escape_char(c));
        assert(cs@.take(i + 1).drop_last() =~= cs@.take(i as int));
        i = i + 1;
    }
    assert(cs@.take(cs.len() as int) =~= cs@);
}

/// Appends the JSON string literal for `s` to `out`.
pub fn push_quoted(out: &mut String, s: &str)
    ensures
        final(out)@ == old(out)@ + quoted(s@),
{
    let ghost start = out@;
    push_char(out, '"');
    push_escaped(out, s);
    push_char(out, '"');
    assert(out@ =~= start + quoted(s@));
}

/// Appends the compact JSON text of `j` to `out`.
pub fn write_json(j: &Json, out: &mut String)
    ensures
        final(out)@ == old(out)@ + json_text(*j),
    decreases j,
{
    let ghost start = out@;
    match j {
        Json::Null => out.append("null"),
        Json::Bool(b) => if *b {
            out.append("true")
        } else {
            out.append("false")
        },
        Json::Number(JsonNumber::PosInt(u)) => {
            let t = u64_to_text(*u);
            out.append(t.as_str());
        },
        Json::Number(JsonNumber::NegInt(n)) => {
            let t = i64_to_text(*n);
            out.append(t.as_str());
        },
        Json::Number(JsonNumber::Float(t)) => out.append(t.as_str()),
        Json::Str(s) => push_quoted(out, s.as_str()),
        Json::Array(v) => {
            push_char(out, '[');
            let mut i: usize = 0;
            while i < v.len()
                invariant
                    i <= v.len(),
                    *j == Json::Array(*v),
                    out@ == start + seq!['['] + items_text(v@.take(i as int)),
                decreases v.len() - i,
            {
                proof {
                    assert(decreases_to!(*j => (*j)->Array_0));
                    assert(decreases_to!(*v => v@));
                    assert(decreases_to!(v@ => v@[i as int]));
                }
                let ghost t = v@.take(i + 1);
                assert(t.subrange(0, t.len() - 1) =~= v@.take(i as int));
                assert(t[t.len() - 1] == v@[i as int]);
                if i > 0 {
                    push_char(out, ',');
                }
                write_json(&v[i], out);
                i = i + 1;
            }
            push_char(out, ']');
            assert(v@.take(v.len() as int) =~= v@);
        },
        Json::Object(v) => {
            push_char(out, '{');
            let mut i: usize = 0;
            while i < v.len()
                invariant
                    i <= v.len(),
                    *j == Json::Object(*v),
                    out@ == start + seq!['{'] + entries_text(v@.take(i as int)),
                decreases v.len() - i,
            {
                proof {
                    assert(decreases_to!(*j => (*j)->Object_0));
                    assert(decreases_to!(*v => v@));
                    assert(decreases_to!(v@ => v@[i as int]));
                    assert(decreases_to!(v@[i as int] => v@[i as int].1));
                }
                let ghost t = v@.take(i + 1);
                assert(t.subrange(0, t.len() - 1) =~= v@.take(i as int));
                assert(t[t.len() - 1] == v@[i as int]);
                if i > 0 {
                    push_char(out, ',');
                }
                push_quoted(out, v[i].0.as_str());
                push_char(out, ':');
                write_json(&v[i].1, out);
                i = i + 1;
            }
            push_char(out, '}');
            assert(v@.take(v.len() as int) =~= v@);
        },
    }
}

/// The compact JSON text of `j`, written as `serde_json::to_string` writes
/// it, object entries in their stored order. (serde_json's own map keeps
/// its keys sorted, each once; an object read from it comes in that order.)
pub fn to_json_text(j: &Json) -> (r: String)
    ensures
        r@ == json_text(*j),
{
    let mut out = String::new();
    write_json(j, &mut out);
    out
}

} // verus!
