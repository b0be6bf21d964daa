//! Verified JSON encoding of the fixed shapes this crate puts on the
//! wire: strings with escaping, string arrays, optional strings,
//! booleans and integers.

use vstd::prelude::*;

verus! {

use crate::numfmt::spec_dec;
use crate::numfmt::spec_dec_signed;
use crate::numfmt::i64_to_string;
use crate::numfmt::u64_to_string;
use vstd::string::StrSliceExecFns;
use vstd::string::StringExecFns;

/// How one character is written inside a JSON string: quote and
/// backslash get a backslash escape, the common control characters get
/// their short escapes, other control characters the `\u00..` form, and
/// everything else stands for itself.
pub open spec fn spec_escape_char(c: char) -> Seq<char> {
    if c == '"' {
        seq!['\\', '"']
    } else if c == '\\' {
        seq!['\\', '\\']
    } else if c == '\n' {
        seq!['\\', 'n']
    } else if c == '\r' {
        seq!['\\', 'r']
    } else if c == '\t' {
        seq!['\\', 't']
    } else if c as int == 8 {
        seq!['\\', 'b']
    } else if c as int == 12 {
        seq!['\\', 'f']
    } else if (c as int) < 32 {
        seq!['\\', 'u', '0', '0', spec_hex_digit((c as int) / 16), spec_hex_digit((c as int) % 16)]
    } else {
        seq![c]
    }
}

/// Lowercase hexadecimal digit.
pub open spec fn spec_hex_digit(d: int) -> char {
    if d < 10 {
        ((48 + d) as u32) as char
    } else {
        ((87 + d) as u32) as char
    }
}

/// A whole string escaped for inclusion in JSON.
pub open spec fn spec_escape(s: Seq<char>) -> Seq<char>
    decreases s.len(),
{
    if s.len() == 0 {
        Seq::empty()
    } else {
        spec_escape(s.drop_last()) + spec_escape_char(s.last())
    }
}

/// A JSON string token: the escaped text between double quotes.
pub open spec fn spec_json_str(s: Seq<char>) -> Seq<char> {
    seq!['"'] + spec_escape(s) + seq!['"']
}

/// An optional JSON string: `null` when absent.
pub open spec fn spec_json_opt_str(s: Option<Seq<char>>) -> Seq<char> {
    match s {
        Some(v) => spec_json_str(v),
        None => "null"@,
    }
}

/// An optional JSON integer: `null` when absent.
pub open spec fn spec_json_opt_i64(n: Option<int>) -> Seq<char> {
    match n {
        Some(v) => spec_dec_signed(v),
        None => "null"@,
    }
}

/// A JSON array of strings.
pub open spec fn spec_json_str_array(items: Seq<Seq<char>>) -> Seq<char> {
    seq!['['] + spec_json_str_items(items) + seq![']']
}

/// The comma-separated items of a string array.
pub open spec fn spec_json_str_items(items: Seq<Seq<char>>) -> Seq<char>
    decreases items.len(),
{
    if items.len() == 0 {
        Seq::empty()
    } else if items.len() == 1 {
        spec_json_str(items[0])
    } else {
        spec_json_str_items(items.drop_last()) + seq![','] + spec_json_str(items.last())
    }
}

/// A JSON boolean.
pub open spec fn spec_json_bool(b: bool) -> Seq<char> {
    if b {
        "true"@
    } else {
        "false"@
    }
}

fn hex_digit_str(d: u32) -> (r: &'static str)
    requires
        d < 16,
    ensures
        r@ == seq![spec_hex_digit(d as int)],
{
    proof {
        reveal_strlit("0");
        reveal_strlit("1");
        reveal_strlit("2");
        reveal_strlit("3");
        reveal_strlit("4");
        reveal_strlit("5");
        reveal_strlit("6");
        reveal_strlit("7");
        reveal_strlit("8");
        reveal_strlit("9");
        reveal_strlit("a");
        reveal_strlit("b");
        reveal_strlit("c");
        reveal_strlit("d");
        reveal_strlit("e");
        reveal_strlit("f");
    }
    match d {
        0 => "0",
        1 => "1",
        2 => "2",
        3 => "3",
        4 => "4",
        5 => "5",
        6 => "6",
        7 => "7",
        8 => "8",
        9 => "9",
        10 => "a",
        11 => "b",
        12 => "c",
        13 => "d",
        14 => "e",
        _ => "f",
    }
}

/// Append `s`, escaped for JSON, onto `out`.
pub fn append_escaped(out: &mut String, s: &str)
    ensures
        final(out)@ == old(out)@ + spec_escape(s@),
{
    let n = s.unicode_len();
    let mut i: usize = 0;
    while i < n
        invariant
            n == s@.len(),
            i <= n,
            out@ == old(out)@ + spec_escape(s@.take(i as int)),
        decreases n - i,
    {
        let ghost prefix = s@.take(i as int);
        let c = s.get_char(i);
        let code: u32 = c as u32;
        if c == '"' {
            out.append("\\\"");
            proof {
                reveal_strlit("\\\"");
                assert("\\\""@ =~= spec_escape_char(c));
            }
        } else if c == '\\' {
            out.append("\\\\");
            proof {
                reveal_strlit("\\\\");
                assert("\\\\"@ =~= spec_escape_char(c));
            }
        } else if c == '\n' {
            out.append("\\n");
            proof {
                reveal_strlit("\\n");
                assert("\\n"@ =~= spec_escape_char(c));
            }
        } else if c == '\r' {
            out.append("\\r");
            proof {
                reveal_strlit("\\r");
                assert("\\r"@ =~= spec_escape_char(c));
            }
        } else if c == '\t' {
            out.append("\\t");
            proof {
                reveal_strlit("\\t");
                assert("\\t"@ =~= spec_escape_char(c));
            }
        } else if code == 8 {
            out.append("\\b");
            proof {
                reveal_strlit("\\b");
                assert("\\b"@ =~= spec_escape_char(c));
            }
        } else if code == 12 {
            out.append("\\f");
            proof {
                reveal_strlit("\\f");
                assert("\\f"@ =~= spec_escape_char(c));
            }
        } else if code < 32 {
            out.append("\\u00");
            out.append(hex_digit_str(code / 16));
            out.append(hex_digit_str(code % 16));
            proof {
                reveal_strlit("\\u00");
                assert("\\u00"@ + seq![spec_hex_digit(code as int / 16)] + seq![
                    spec_hex_digit(code as int % 16),
                ] =~= spec_escape_char(c));
            }
        } else {
            let piece = s.substring_char(i, i + 1);
            proof {
                assert(piece@ =~= seq![c]);
                assert(seq![c] =~= spec_escape_char(c));
            }
            out.append(piece);
        }
        proof {
            assert(s@.take(i + 1).drop_last() =~= prefix);
            assert(s@.take(i + 1).last() == c);
            assert(spec_escape(s@.take(i + 1)) == spec_escape(prefix) + spec_escape_char(c));
            assert(out@ =~= old(out)@ + spec_escape(s@.take(i + 1)));
        }
        i = i + 1;
    }
    proof {
        assert(s@.take(n as int) =~= s@);
    }
}

/// Append `s` as a quoted, escaped JSON string token onto `out`.
pub fn append_json_str(out: &mut String, s: &str)
    ensures
        final(out)@ == old(out)@ + spec_json_str(s@),
{
    out.append("\"");
    append_escaped(out, s);
    out.append("\"");
    proof {
        reveal_strlit("\"");
        assert("\""@ =~= seq!['"']);
        assert(out@ =~= old(out)@ + spec_json_str(s@));
    }
}

/// Append an optional string as JSON (`null` when absent) onto `out`.
pub fn append_json_opt_str(out: &mut String, s: &Option<String>)
    ensures
        final(out)@ == old(out)@ + spec_json_opt_str(
            match *s {
                Some(v) => Some(v@),
                None => None,
            },
        ),
{
    match s {
        Some(v) => append_json_str(out, v.as_str()),
        None => out.append("null"),
    }
}

/// Append an optional integer as JSON (`null` when absent) onto `out`.
pub fn append_json_opt_i64(out: &mut String, n: &Option<i64>)
    ensures
        final(out)@ == old(out)@ + spec_json_opt_i64(
            match *n {
                Some(v) => Some(v as int),
                None => None,
            },
        ),
{
    match n {
        Some(v) => out.append(i64_to_string(*v).as_str()),
        None => out.append("null"),
    }
}

/// Append a JSON boolean onto `out`.
pub fn append_json_bool(out: &mut String, b: bool)
    ensures
        final(out)@ == old(out)@ + spec_json_bool(b),
{
    if b {
        out.append("true");
    } else {
        out.append("false");
    }
}

/// Append a JSON array of strings onto `out`.
pub fn append_json_str_array(out: &mut String, items: &Vec<String>)
    ensures
        final(out)@ == old(out)@ + spec_json_str_array(items@.map_values(|v: String| v@)),
{
    let ghost views = items@.map_values(|v: String| v@);
    out.append("[");
    let n = items.len();
    let mut i: usize = 0;
    while i < n
        invariant
            n == items@.len(),
            views == items@.map_values(|v: String| v@),
            i <= n,
            out@ == old(out)@ + "["@ + spec_json_str_items(views.take(i as int)),
        decreases n - i,
    {
        if i > 0 {
            out.append(",");
            proof {
                reveal_strlit(",");
            }
        }
        append_json_str(out, items[i].as_str());
        proof {
            assert(views.take(i + 1).drop_last() =~= views.take(i as int));
            assert(views.take(i + 1).last() == views[i as int]);
            if i == 0 {
                assert(out@ =~= old(out)@ + "["@ + spec_json_str_items(views.take(i + 1)));
            } else {
                assert(out@ =~= old(out)@ + "["@ + spec_json_str_items(views.take(i + 1)));
            }
        }
        i = i + 1;
    }
    out.append("]");
    proof {
        reveal_strlit("[");
        reveal_strlit("]");
        assert(views.take(n as int) =~= views);
        assert("["@ =~= seq!['[']);
        assert("]"@ =~= seq![']']);
        assert(out@ =~= old(out)@ + spec_json_str_array(views));
    }
}

/// Append an unsigned integer in decimal onto `out`.
pub fn append_u64(out: &mut String, n: u64)
    ensures
        final(out)@ == old(out)@ + spec_dec(n as int),
{
    out.append(u64_to_string(n).as_str());
}

/// Append a signed integer in decimal onto `out`.
pub fn append_i64(out: &mut String, n: i64)
    ensures
        final(out)@ == old(out)@ + spec_dec_signed(n as int),
{
    out.append(i64_to_string(n).as_str());
}

} // verus!
