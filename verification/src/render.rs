//! Rendering a JSON document to its wire text.
//!
//! The transport layer sends exactly the characters this module
//! produces: object and array punctuation, decimal numbers, and strings
//! with the escapes JSON requires — quote, backslash, and every control
//! character below the space character.

use vstd::prelude::*;
use vstd::string::{StringExecFns, StrSliceExecFns};
use crate::ids::{hex_char, spec_hex_char};
use crate::json::{JsonModel, JsonValue};
use crate::strings::push_char;

verus! {

/// The characters standing for one text character inside a JSON string:
/// the character itself, its short escape, or a `\u00..` escape.
pub open spec fn spec_escape_char(c: char) -> Seq<char> {
    if c == '"' {
        seq!['\\', '"']
    } else if c == '\\' {
        seq!['\\', '\\']
    } else if c == '\n' {
        seq!['\\', 'n']
    } else if c == '\r' {
        seq!['\\', 'r']
    } else if c == '\t' {
        seq!['\\', 't']
    } else if c == '\u{0008}' {
        seq!['\\', 'b']
    } else if c == '\u{000C}' {
        seq!['\\', 'f']
    } else if (c as u32) < 32 {
        seq!['\\', 'u', '0', '0', spec_hex_char((c as u32 / 16) as u128), spec_hex_char(
            (c as u32 % 16) as u128,
        )]
    } else {
        seq![c]
    }
}

/// The escaped form of a whole text.
pub open spec fn spec_escape(s: Seq<char>) -> Seq<char>
    decreases s.len(),
{
    if s.len() == 0 {
        Seq::empty()
    } else {
        spec_escape(s.drop_last()) + spec_escape_char(s.last())
    }
}

fn push_escaped_char(out: &mut String, c: char)
    ensures
        (*final(out))@ == (*old(out))@ + spec_escape_char(c),
{
    let ghost before = out@;
    if c == '"' {
        push_char(out, '\\');
        push_char(out, '"');
    } else if c == '\\' {
        push_char(out, '\\');
        push_char(out, '\\');
    } else if c == '\n' {
        push_char(out, '\\');
        push_char(out, 'n');
    } else if c == '\r' {
        push_char(out, '\\');
        push_char(out, 'r');
    } else if c == '\t' {
        push_char(out, '\\');
        push_char(out, 't');
    } else if c == '\u{0008}' {
        push_char(out, '\\');
        push_char(out, 'b');
    } else if c == '\u{000C}' {
        push_char(out, '\\');
        push_char(out, 'f');
    } else if (c as u32) < 32 {
        push_char(out, '\\');
        push_char(out, 'u');
        push_char(out, '0');
        push_char(out, '0');
        push_char(out, hex_char((c as u32 / 16) as u128));
        push_char(out, hex_char((c as u32 % 16) as u128));
    } else {
        push_char(out, c);
    }
    proof {
        assert(out@ =~= before + spec_escape_char(c));
    }
}

/// Appends the escaped form of a text.
fn push_escaped(out: &mut String, s: &str)
    ensures
        (*final(out))@ == (*old(out))@ + spec_escape(s@),
{
    let ghost before = out@;
    let n = s.unicode_len();
    let mut i: usize = 0;
    while i < n
        invariant
            i <= n,
            n == s@.len(),
            out@ == before + spec_escape(s@.take(i as int)),
        decreases n - i,
    {
        push_escaped_char(out, s.get_char(i));
        i += 1;
        proof {
            assert(s@.take(i as int).drop_last() =~= s@.take(i - 1));
            assert(out@ =~= before + spec_escape(s@.take(i as int)));
        }
    }
    proof {
        assert(s@.take(n as int) =~= s@);
    }
}

/// The decimal text of an unsigned number, without leading zeros.
pub open spec fn spec_dec(n: nat) -> Seq<char>
    decreases n,
{
    if n < 10 {
        seq![spec_hex_char(n as u128)]
    } else {
        spec_dec(n / 10).push(spec_hex_char((n % 10) as u128))
    }
}

/// The decimal text of a signed number: a minus sign before the
/// magnitude for negative values.
pub open spec fn spec_dec_signed(n: int) -> Seq<char> {
    if n >= 0 {
        spec_dec(n as nat)
    } else {
        seq!['-'] + spec_dec((-n) as nat)
    }
}

/// Appends the decimal text of an unsigned number.
fn push_dec(out: &mut String, n: u64)
    ensures
        (*final(out))@ == (*old(out))@ + spec_dec(n as nat),
{
    let ghost before = out@;
    // Collect digits from the least significant end, then write them
    // out reversed.
    let mut rev: Vec<char> = Vec::new();
    rev.push(hex_char((n % 10) as u128));
    let mut rest: u64 = n / 10;
    proof {
        assert(rev@.reverse() =~= seq![spec_hex_char((n % 10) as u128)]);
        if rest > 0 {
            assert(spec_dec(n as nat) == spec_dec(rest as nat).push(
                spec_hex_char((n % 10) as u128),
            ));
            assert(spec_dec(n as nat) =~= spec_dec(rest as nat) + rev@.reverse());
        } else {
            assert(spec_dec(n as nat) =~= rev@.reverse());
        }
    }
    while rest > 0
        invariant
            rev@.len() > 0,
            rest > 0 ==> spec_dec(n as nat) == spec_dec(rest as nat) + rev@.reverse(),
            rest == 0 ==> spec_dec(n as nat) == rev@.reverse(),
        decreases rest,
    {
        let ghost rev_before = rev@;
        let ghost rest_before = rest;
        rev.push(hex_char((rest % 10) as u128));
        rest = rest / 10;
        proof {
            assert(rev@.reverse() =~= seq![spec_hex_char((rest_before % 10) as u128)]
                + rev_before.reverse());
            if rest > 0 {
                assert(spec_dec(rest_before as nat) == spec_dec(rest as nat).push(
                    spec_hex_char((rest_before % 10) as u128),
                ));
                assert(spec_dec(rest as nat) + rev@.reverse() =~= spec_dec(rest_before as nat)
                    + rev_before.reverse());
            } else {
                assert(spec_dec(rest_before as nat) =~= seq![
                    spec_hex_char((rest_before % 10) as u128),
                ]);
                assert(rev@.reverse() =~= spec_dec(rest_before as nat) + rev_before.reverse());
            }
        }
    }
    let ghost digits = rev@;
    let count = rev.len();
    let mut i: usize = 0;
    while i < count
        invariant
            i <= count,
            count == digits.len(),
            rev@ == digits,
            spec_dec(n as nat) == digits.reverse(),
            out@ == before + digits.reverse().take(i as int),
        decreases count - i,
    {
        push_char(out, rev[count - 1 - i]);
        i += 1;
        proof {
            assert(out@ =~= before + digits.reverse().take(i as int));
        }
    }
    proof {
        assert(digits.reverse().take(count as int) =~= digits.reverse());
    }
}

/// Appends the decimal text of a signed number.
fn push_dec_signed(out: &mut String, n: i64)
    ensures
        (*final(out))@ == (*old(out))@ + spec_dec_signed(n as int),
{
    if n >= 0 {
        push_dec(out, n as u64);
    } else {
        let ghost before = out@;
        push_char(out, '-');
        let magnitude: u64 = #[verifier::truncate] ((-(n as i128)) as u64);
        proof {
            assert(magnitude as nat == (-(n as int)) as nat);
        }
        push_dec(out, magnitude);
        proof {
            assert(out@ =~= before + spec_dec_signed(n as int));
        }
    }
}

/// The wire text of a document.
pub open spec fn spec_render(m: JsonModel) -> Seq<char>
    decreases m,
{
    match m {
        JsonModel::Null => "null"@,
        JsonModel::Bool(b) => if b {
            "true"@
        } else {
            "false"@
        },
        JsonModel::UInt(n) => spec_dec(n as nat),
        JsonModel::Int(n) => spec_dec_signed(n as int),
        JsonModel::Str(s) => seq!['"'] + spec_escape(s) + seq!['"'],
        JsonModel::Arr(items) => seq!['['] + spec_render_items(items) + seq![']'],
        JsonModel::Obj(entries) => seq!['{'] + spec_render_entries(entries) + seq!['}'],
    }
}

/// The comma-separated wire text of an array's items.
pub open spec fn spec_render_items(items: Seq<JsonModel>) -> Seq<char>
    decreases items,
{
    if items.len() == 0 {
        Seq::empty()
    } else if items.len() == 1 {
        spec_render(items.last())
    } else {
        spec_render_items(items.drop_last()) + seq![','] + spec_render(items.last())
    }
}

/// The comma-separated wire text of an object's entries, each a quoted
/// escaped key, a colon, and the value.
pub open spec fn spec_render_entries(entries: Seq<(Seq<char>, JsonModel)>) -> Seq<char>
    decreases entries,
{
    if entries.len() == 0 {
        Seq::empty()
    } else {
        let one = seq!['"'] + spec_escape(entries.last().0) + seq!['"', ':'] + spec_render(
            entries.last().1,
        );
        if entries.len() == 1 {
            one
        } else {
            spec_render_entries(entries.drop_last()) + seq![','] + one
        }
    }
}

#[verifier::loop_isolation(false)]
#[verifier::rlimit(60)]
fn push_rendered(out: &mut String, v: &JsonValue)
    ensures
        (*final(out))@ == (*old(out))@ + spec_render(v@),
    decreases *v,
{
    let ghost before = out@;
    match v {
        JsonValue::Null => {
            out.append("null");
        }
        JsonValue::Bool(b) => {
            if *b {
                out.append("true");
            } else {
                out.append("false");
            }
        }
        JsonValue::UInt(n) => {
            push_dec(out, *n);
        }
        JsonValue::Int(n) => {
            push_dec_signed(out, *n);
        }
        JsonValue::Str(s) => {
            push_char(out, '"');
            push_escaped(out, s.as_str());
            push_char(out, '"');
            proof {
                assert(out@ =~= before + spec_render(v@));
            }
        }
        JsonValue::Arr(items) => {
            push_char(out, '[');
            let n = items.len();
            let mut i: usize = 0;
            while i < n
                invariant
                    i <= n,
                    n == items@.len(),
                    out@ == before + seq!['['] + spec_render_items(
                        crate::json::spec_item_models(items@).take(i as int),
                    ),
                decreases n - i,
                {
                    if i > 0 {
                        push_char(out, ',');
                    }
                    proof {
                        assert(decreases_to!(*v => v->Arr_0));
                        assert(decreases_to!(v->Arr_0 => v->Arr_0@));
                        assert(decreases_to!(v->Arr_0@ => v->Arr_0@[i as int]));
                        assert(decreases_to!(*v => items@[i as int]));
                    }
                    push_rendered(out, &items[i]);
                    i += 1;
                    proof {
                        crate::json::lemma_item_models(items@);
                        let models = crate::json::spec_item_models(items@);
                        assert(models.take(i as int).drop_last() =~= models.take(i - 1));
                        assert(models.take(i as int).last() == items@[i - 1]@);
                        assert(out@ =~= before + seq!['['] + spec_render_items(
                            models.take(i as int),
                        ));
                    }
                }
            push_char(out, ']');
            proof {
                let models = crate::json::spec_item_models(items@);
                crate::json::lemma_item_models(items@);
                assert(models.take(n as int) =~= models);
                assert(out@ =~= before + spec_render(v@));
            }
        }
        JsonValue::Obj(entries) => {
            push_char(out, '{');
            let n = entries.len();
            let mut i: usize = 0;
            while i < n
                invariant
                    i <= n,
                    n == entries@.len(),
                    out@ == before + seq!['{'] + spec_render_entries(
                        crate::json::spec_entry_models(entries@).take(i as int),
                    ),
                decreases n - i,
                {
                    if i > 0 {
                        push_char(out, ',');
                    }
                    push_char(out, '"');
                    push_escaped(out, entries[i].0.as_str());
                    push_char(out, '"');
                    push_char(out, ':');
                    proof {
                        assert(decreases_to!(*v => v->Obj_0));
                        assert(decreases_to!(v->Obj_0 => v->Obj_0@));
                        assert(decreases_to!(v->Obj_0@ => v->Obj_0@[i as int]));
                        assert(decreases_to!(v->Obj_0@[i as int] => v->Obj_0@[i as int].1));
                        assert(decreases_to!(*v => entries@[i as int].1));
                    }
                    push_rendered(out, &entries[i].1);
                    i += 1;
                    proof {
                        lemma_entry_model_fields(entries@);
                        let models = crate::json::spec_entry_models(entries@);
                        assert(models.take(i as int).drop_last() =~= models.take(i - 1));
                        assert(models.take(i as int).last() == (
                            entries@[i - 1].0@,
                            entries@[i - 1].1@,
                        ));
                        assert(out@ =~= before + seq!['{'] + spec_render_entries(
                            models.take(i as int),
                        ));
                    }
                }
            push_char(out, '}');
            proof {
                let models = crate::json::spec_entry_models(entries@);
                lemma_entry_model_fields(entries@);
                assert(models.take(n as int) =~= models);
                assert(out@ =~= before + spec_render(v@));
            }
        }
    }
}

proof fn lemma_entry_model_fields(entries: Seq<(String, JsonValue)>)
    ensures
        crate::json::spec_entry_models(entries).len() == entries.len(),
        forall|i: int|
            0 <= i < entries.len() ==> #[trigger] crate::json::spec_entry_models(entries)[i] == (
                entries[i].0@,
                entries[i].1@,
            ),
    decreases entries,
{
    if entries.len() > 0 {
        lemma_entry_model_fields(entries.drop_last());
    }
}

/// Renders a document to the exact characters the wire carries.
pub fn render(v: &JsonValue) -> (r: String)
    ensures
        r@ == spec_render(v@),
{
    let mut out = String::new();
    push_rendered(&mut out, v);
    out
}

} // verus!
