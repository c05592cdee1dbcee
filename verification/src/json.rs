//! Serialization of a front-matter record as pretty-printed JSON.
//!
//! The emitted text is an object with the four fields in order, two-space
//! indentation, and JSON string escaping; its exact shape is pinned down by
//! [`json_text`].

use vstd::prelude::*;
use vstd::string::StrSliceExecFns;
use vstd::string::StringExecFns;
use crate::front_matter::FrontMatter;
use crate::front_matter::FrontMatterImage;

verus! {

/// The lower-case hexadecimal digit for `n`.
pub open spec fn hex_digit(n: int) -> char {
    if n == 0 { '0' } else if n == 1 { '1' } else if n == 2 { '2' } else if n == 3 { '3' }
    else if n == 4 { '4' } else if n == 5 { '5' } else if n == 6 { '6' } else if n == 7 { '7' }
    else if n == 8 { '8' } else if n == 9 { '9' } else if n == 10 { 'a' } else if n == 11 { 'b' }
    else if n == 12 { 'c' } else if n == 13 { 'd' } else if n == 14 { 'e' } else { 'f' }
}

/// How one character reads inside a JSON string literal.
pub open spec fn escape_char(c: char) -> Seq<char> {
    if c == '"' { "\\\""@ }
    else if c == '\\' { "\\\\"@ }
    else if c == '\n' { "\\n"@ }
    else if c == '\r' { "\\r"@ }
    else if c == '\t' { "\\t"@ }
    else if (c as u32) < 32 {
        "\\u00"@ + seq![hex_digit(c as u32 as int / 16), hex_digit(c as u32 as int % 16)]
    } else {
        seq![c]
    }
}

/// A text with every character escaped for JSON.
pub open spec fn escape_text(s: Seq<char>) -> Seq<char>
    decreases s.len(),
{
    if s.len() == 0 {
        Seq::empty()
    } else {
        escape_char(s[0]) + escape_text(s.drop_first())
    }
}

/// A JSON string literal: the escaped text between double quotes.
pub open spec fn quoted(s: Seq<char>) -> Seq<char> {
    seq!['"'] + escape_text(s) + seq!['"']
}

/// The lines of a non-empty JSON array, one indented string per element.
pub open spec fn list_entries(items: Seq<Seq<char>>) -> Seq<char>
    decreases items.len(),
{
    if items.len() == 0 {
        Seq::empty()
    } else if items.len() == 1 {
        "    "@ + quoted(items[0])
    } else {
        list_entries(items.drop_last()) + ",\n    "@ + quoted(items.last())
    }
}

/// A JSON array of strings: `[]` when empty, otherwise one element per line.
pub open spec fn list_block(items: Seq<Seq<char>>) -> Seq<char> {
    if items.len() == 0 {
        "[]"@
    } else {
        "[\n"@ + list_entries(items) + "\n  ]"@
    }
}

/// The full JSON text emitted for a record.
pub open spec fn json_text(v: FrontMatterImage) -> Seq<char> {
    "{\n  \"title\": "@ + quoted(v.title) + ",\n  \"date\": "@ + quoted(v.date)
        + ",\n  \"categories\": "@ + list_block(v.categories) + ",\n  \"tags\": "@
        + list_block(v.tags) + "\n}"@
}

/// Relies on String::push: it appends the one character to the end.
#[verifier::external_body]
fn push_char(out: &mut String, c: char)
    ensures
        final(out)@ == old(out)@.push(c),
{
    out.push(c);
}

fn hex_char(d: u8) -> (c: char)
    requires
        d < 16,
    ensures
        c == hex_digit(d as int),
{
    match d {
        0 => '0',
        1 => '1',
        2 => '2',
        3 => '3',
        4 => '4',
        5 => '5',
        6 => '6',
        7 => '7',
        8 => '8',
        9 => '9',
        10 => 'a',
        11 => 'b',
        12 => 'c',
        13 => 'd',
        14 => 'e',
        _ => 'f',
    }
}

proof fn lemma_escape_text_snoc(s: Seq<char>, c: char)
    ensures
        escape_text(s.push(c)) == escape_text(s) + escape_char(c),
    decreases s.len(),
{
    if s.len() == 0 {
        assert(s.push(c) =~= seq![c]);
        assert(seq![c].drop_first() =~= Seq::<char>::empty());
        assert(escape_text(s) + escape_char(c) =~= escape_char(c));
        assert(escape_char(c) + escape_text(Seq::empty()) =~= escape_char(c));
    } else {
        assert(s.push(c).drop_first() =~= s.drop_first().push(c));
        lemma_escape_text_snoc(s.drop_first(), c);
        assert(s.push(c)[0] == s[0]);
        assert(escape_text(s.push(c)) =~= escape_text(s) + escape_char(c));
    }
}

fn append_escaped_char(out: &mut String, c: char)
    ensures
        final(out)@ == old(out)@ + escape_char(c),
{
    if c == '"' {
        out.append("\\\"");
    } else if c == '\\' {
        out.append("\\\\");
    } else if c == '\n' {
        out.append("\\n");
    } else if c == '\r' {
        out.append("\\r");
    } else if c == '\t' {
        out.append("\\t");
    } else {
        let v = c as u32;
        if v < 32 {
            out.append("\\u00");
            let hi = (v / 16) as u8;
            let lo = (v % 16) as u8;
            let h = hex_char(hi);
            push_char(out, h);
            let l = hex_char(lo);
            push_char(out, l);
            proof {
                assert(out@ =~= old(out)@ + escape_char(c));
            }
        } else {
            push_char(out, c);
            proof {
                assert(out@ =~= old(out)@ + escape_char(c));
            }
        }
    }
}

fn append_escaped(out: &mut String, s: &str)
    ensures
        final(out)@ == old(out)@ + escape_text(s@),
{
    let n = s.unicode_len();
    let mut k: usize = 0;
    proof {
        assert(s@.take(0) =~= Seq::<char>::empty());
        assert(old(out)@ + escape_text(s@.take(0)) =~= old(out)@);
    }
    while k < n
        invariant
            k <= n,
            n == s@.len(),
            out@ == old(out)@ + escape_text(s@.take(k as int)),
        decreases n - k,
    {
        let c = s.get_char(k);
        append_escaped_char(out, c);
        proof {
            lemma_escape_text_snoc(s@.take(k as int), c);
            assert(s@.take(k as int).push(c) =~= s@.take(k as int + 1));
            assert(out@ =~= old(out)@ + escape_text(s@.take(k as int + 1)));
        }
        k = k + 1;
    }
    proof {
        assert(s@.take(n as int) =~= s@);
    }
}

fn append_quoted(out: &mut String, s: &str)
    ensures
        final(out)@ == old(out)@ + quoted(s@),
{
    push_char(out, '"');
    append_escaped(out, s);
    push_char(out, '"');
    proof {
        assert(out@ =~= old(out)@ + quoted(s@));
    }
}

fn append_list(out: &mut String, items: &Vec<String>)
    ensures
        final(out)@ == old(out)@ + list_block(items.deep_view()),
{
    if items.len() == 0 {
        proof {
            assert(items.deep_view().len() == 0);
        }
        out.append("[]");
        return ;
    }
    out.append("[\n");
    let ghost base = old(out)@ + "[\n"@;
    let mut k: usize = 0;
    while k < items.len()
        invariant
            k <= items@.len(),
            1 <= items@.len(),
            base == old(out)@ + "[\n"@,
            k == 0 ==> out@ == base,
            k >= 1 ==> out@ == base + list_entries(items.deep_view().take(k as int)),
        decreases items@.len() - k,
    {
        if k == 0 {
            out.append("    ");
        } else {
            out.append(",\n    ");
        }
        append_quoted(out, items[k].as_str());
        proof {
            let dv = items.deep_view();
            assert(dv.len() == items@.len());
            assert(dv[k as int] == items@[k as int]@);
            if k == 0 {
                assert(dv.take(1).len() == 1);
                assert(dv.take(1)[0] == dv[0]);
                assert(out@ =~= base + list_entries(dv.take(1)));
            } else {
                assert(dv.take(k as int + 1).drop_last() =~= dv.take(k as int));
                assert(dv.take(k as int + 1).last() == dv[k as int]);
                assert(out@ =~= base + list_entries(dv.take(k as int + 1)));
            }
        }
        k = k + 1;
    }
    out.append("\n  ]");
    proof {
        assert(items.deep_view().take(items@.len() as int) =~= items.deep_view());
        assert(out@ =~= old(out)@ + list_block(items.deep_view()));
    }
}

/// Serialize a record as pretty-printed JSON, exactly [`json_text`] of it.
pub fn front_matter_json(fm: &FrontMatter) -> (r: String)
    ensures
        r@ == json_text(fm@),
{
    let mut out = String::new();
    out.append("{\n  \"title\": ");
    append_quoted(&mut out, fm.title.as_str());
    out.append(",\n  \"date\": ");
    append_quoted(&mut out, fm.date.as_str());
    out.append(",\n  \"categories\": ");
    append_list(&mut out, &fm.categories);
    out.append(",\n  \"tags\": ");
    append_list(&mut out, &fm.tags);
    out.append("\n}");
    proof {
        assert(out@ =~= json_text(fm@));
    }
    out
}

} // verus!
