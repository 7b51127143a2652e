//! Rendering a JSON document tree as JSON text.
//!
//! The renderer writes the canonical compact form: no whitespace, object
//! entries in stored order, and string literals with `"`, `\`, and
//! control characters escaped. Its contract states the produced text
//! exactly, character for character.

use vstd::prelude::*;
use crate::json::JsonValue;
use crate::label::chars_to_string;
use crate::model::TaskConfiguration;
use crate::decode::spec_decode_document;
use crate::encode::encode_document;

verus! {

/// The lower-case hexadecimal digit of a nibble.
pub open spec fn spec_hex_char(n: u32) -> char {
    if n < 10 {
        ((48 + n) as u8) as char
    } else {
        ((87 + n) as u8) as char
    }
}

/// How one character is written inside a JSON string literal: quotes and
/// backslashes are escaped, control characters take the `\u00..` form,
/// everything else stands as itself.
pub open spec fn spec_escape_char(c: char) -> Seq<char> {
    if c == '"' {
        seq!['\\', '"']
    } else if c == '\\' {
        seq!['\\', '\\']
    } else if (c as u32) < 32 {
        seq!['\\', 'u', '0', '0', spec_hex_char(c as u32 / 16), spec_hex_char(c as u32 % 16)]
    } else {
        seq![c]
    }
}

/// A string's characters, escaped in order.
pub open spec fn spec_escape(s: Seq<char>) -> Seq<char>
    decreases s.len(),
{
    if s.len() == 0 {
        Seq::<char>::empty()
    } else {
        spec_escape(s.drop_last()) + spec_escape_char(s.last())
    }
}

/// A JSON string literal: the escaped characters between quotes.
pub open spec fn spec_render_string(s: Seq<char>) -> Seq<char> {
    seq!['"'] + spec_escape(s) + seq!['"']
}

/// The text of one JSON value.
pub open spec fn spec_render(v: JsonValue) -> Seq<char>
    decreases v,
{
    match v {
        JsonValue::Null => "null"@,
        JsonValue::Bool(b) => if b {
            "true"@
        } else {
            "false"@
        },
        JsonValue::Num(s) => s@,
        JsonValue::Str(s) => spec_render_string(s@),
        JsonValue::Arr(items) => seq!['['] + spec_render_items(items@) + seq![']'],
        JsonValue::Obj(entries) => seq!['{'] + spec_render_entries(entries@) + seq!['}'],
    }
}

/// The comma-separated texts of an array's elements.
pub open spec fn spec_render_items(items: Seq<JsonValue>) -> Seq<char>
    decreases items,
{
    if items.len() == 0 {
        Seq::<char>::empty()
    } else if items.len() == 1 {
        spec_render(items[0])
    } else {
        spec_render_items(items.drop_last()) + seq![','] + spec_render(items.last())
    }
}

/// The comma-separated `"key":value` texts of an object's entries.
pub open spec fn spec_render_entries(entries: Seq<(String, JsonValue)>) -> Seq<char>
    decreases entries,
{
    if entries.len() == 0 {
        Seq::<char>::empty()
    } else if entries.len() == 1 {
        spec_render_string(entries[0].0@) + seq![':'] + spec_render(entries[0].1)
    } else {
        spec_render_entries(entries.drop_last()) + seq![','] + spec_render_string(
            entries.last().0@,
        ) + seq![':'] + spec_render(entries.last().1)
    }
}

/// Append a string's characters, unescaped.
fn push_str_chars(s: &str, out: &mut Vec<char>)
    ensures
        final(out)@ == old(out)@ + s@,
{
    let n = s.unicode_len();
    let mut i: usize = 0;
    while i < n
        invariant
            n == s@.len(),
            i <= n,
            out@ == old(out)@ + s@.take(i as int),
        decreases n - i,
    {
        out.push(s.get_char(i));
        proof {
            assert(s@.take(i + 1) =~= s@.take(i as int).push(s@[i as int]));
        }
        i = i + 1;
    }
    assert(s@.take(n as int) =~= s@);
}

/// Append a JSON string literal for `s`.
fn push_string_literal(s: &str, out: &mut Vec<char>)
    ensures
        final(out)@ == old(out)@ + spec_render_string(s@),
{
    out.push('"');
    let n = s.unicode_len();
    let mut i: usize = 0;
    while i < n
        invariant
            n == s@.len(),
            i <= n,
            out@ == old(out)@ + seq!['"'] + spec_escape(s@.take(i as int)),
        decreases n - i,
    {
        let c = s.get_char(i);
        if c == '"' {
            out.push('\\');
            out.push('"');
        } else if c == '\\' {
            out.push('\\');
            out.push('\\');
        } else {
            let u = c as u32;
            if u < 32 {
                out.push('\\');
                out.push('u');
                out.push('0');
                out.push('0');
                let hi = u / 16;
                let lo = u % 16;
                let hic: char = if hi < 10 {
                    ((48 + hi) as u8) as char
                } else {
                    ((87 + hi) as u8) as char
                };
                let loc: char = if lo < 10 {
                    ((48 + lo) as u8) as char
                } else {
                    ((87 + lo) as u8) as char
                };
                out.push(hic);
                out.push(loc);
            } else {
                out.push(c);
            }
        }
        proof {
            assert(s@.take(i + 1).drop_last() =~= s@.take(i as int));
            assert(s@.take(i + 1).last() == s@[i as int]);
            assert(out@ =~= old(out)@ + seq!['"'] + spec_escape(s@.take(i + 1)));
        }
        i = i + 1;
    }
    out.push('"');
    proof {
        assert(s@.take(n as int) =~= s@);
        assert(out@ =~= old(out)@ + spec_render_string(s@));
    }
}

/// Append the text of one value.
#[verifier::loop_isolation(false)]
fn render_value(v: &JsonValue, out: &mut Vec<char>)
    ensures
        final(out)@ == old(out)@ + spec_render(*v),
    decreases *v,
{
    match v {
        JsonValue::Null => {
            push_str_chars("null", out);
        },
        JsonValue::Bool(b) => {
            if *b {
                push_str_chars("true", out);
            } else {
                push_str_chars("false", out);
            }
        },
        JsonValue::Num(s) => {
            push_str_chars(s.as_str(), out);
        },
        JsonValue::Str(s) => {
            push_string_literal(s.as_str(), out);
        },
        JsonValue::Arr(items) => {
            out.push('[');
            let mut i: usize = 0;
            while i < items.len()
                invariant
                    i <= items@.len(),
                    out@ == old(out)@ + seq!['['] + spec_render_items(items@.take(i as int)),
                decreases items@.len() - i,
            {
                if i > 0 {
                    out.push(',');
                }
                render_value(&items[i], out);
                proof {
                    assert(items@.take(i + 1).drop_last() =~= items@.take(i as int));
                    assert(items@.take(i + 1).last() == items@[i as int]);
                    assert(out@ =~= old(out)@ + seq!['['] + spec_render_items(items@.take(i + 1)));
                }
                i = i + 1;
            }
            out.push(']');
            proof {
                assert(items@.take(items@.len() as int) =~= items@);
                assert(out@ =~= old(out)@ + spec_render(*v));
            }
        },
        JsonValue::Obj(entries) => {
            out.push('{');
            let mut i: usize = 0;
            while i < entries.len()
                invariant
                    i <= entries@.len(),
                    out@ == old(out)@ + seq!['{'] + spec_render_entries(entries@.take(i as int)),
                decreases entries@.len() - i,
            {
                if i > 0 {
                    out.push(',');
                }
                push_string_literal(entries[i].0.as_str(), out);
                out.push(':');
                render_value(&entries[i].1, out);
                proof {
                    assert(entries@.take(i + 1).drop_last() =~= entries@.take(i as int));
                    assert(entries@.take(i + 1).last() == entries@[i as int]);
                    assert(out@ =~= old(out)@ + seq!['{'] + spec_render_entries(
                        entries@.take(i + 1),
                    ));
                }
                i = i + 1;
            }
            out.push('}');
            proof {
                assert(entries@.take(entries@.len() as int) =~= entries@);
                assert(out@ =~= old(out)@ + spec_render(*v));
            }
        },
    }
}

/// The text of a JSON value, exactly as `spec_render` states it.
pub fn render(v: &JsonValue) -> (r: String)
    ensures
        r@ == spec_render(*v),
{
    let mut out: Vec<char> = Vec::new();
    render_value(v, &mut out);
    chars_to_string(out)
}

/// Re-serialize a document as JSON text: the text of a document tree
/// that decodes back to exactly this document.
pub fn serialize_document(tc: &TaskConfiguration) -> (r: String)
    ensures
        exists|j: JsonValue| spec_decode_document(j) == Some(tc@) && r@ == spec_render(j),
{
    let doc = encode_document(tc);
    let r = render(&doc);
    proof {
        assert(spec_decode_document(doc) == Some(tc@) && r@ == spec_render(doc));
    }
    r
}

} // verus!
