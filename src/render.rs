//! Template rendering: the render context is encoded as JSON text and handed
//! to the template engine together with the template source.
use vstd::prelude::*;
use crate::text::{decimal, decimal_string, joined, push_char};

verus! {

pub open spec fn hex_digit(d: nat) -> char {
    if d < 10 {
        (((d as u8) + 48) as u8) as char
    } else {
        (((d as u8) + 87) as u8) as char
    }
}

/// JSON's escape of one character inside a string literal.
pub open spec fn json_escape_char(c: char) -> Seq<char> {
    if c == '"' {
        seq!['\\', '"']
    } else if c == '\\' {
        seq!['\\', '\\']
    } else if c == '\n' {
        seq!['\\', 'n']
    } else if c == '\r' {
        seq!['\\', 'r']
    } else if c == '\t' {
        seq!['\\', 't']
    } else if (c as u32) < 32 {
        seq!['\\', 'u', '0', '0', hex_digit((c as u32 / 16) as nat), hex_digit((c as u32 % 16) as nat)]
    } else {
        seq![c]
    }
}

pub open spec fn json_escape(s: Seq<char>) -> Seq<char>
    decreases s.len(),
{
    if s.len() == 0 {
        Seq::empty()
    } else {
        json_escape(s.drop_last()) + json_escape_char(s.last())
    }
}

/// A JSON string literal holding `s`.
pub open spec fn json_string(s: Seq<char>) -> Seq<char> {
    seq!['"'] + json_escape(s) + seq!['"']
}

pub open spec fn json_null() -> Seq<char> {
    seq!['n', 'u', 'l', 'l']
}

pub open spec fn json_opt_string(s: Option<Seq<char>>) -> Seq<char> {
    match s {
        Some(v) => json_string(v),
        None => json_null(),
    }
}

pub open spec fn json_member(key: Seq<char>, value: Seq<char>) -> Seq<char> {
    json_string(key) + seq![':'] + value
}

/// A JSON object from its members, each an unencoded key and an encoded value.
pub open spec fn json_object(members: Seq<(Seq<char>, Seq<char>)>) -> Seq<char> {
    seq!['{'] + joined(
        members.map_values(|m: (Seq<char>, Seq<char>)| json_member(m.0, m.1)),
        seq![','],
    ) + seq!['}']
}

pub fn write_json_string(out: &mut String, s: &str)
    ensures
        final(out)@ == old(out)@ + json_string(s@),
{
    let cs = crate::text::chars_of(s);
    push_char(out, '"');
    let mut i: usize = 0;
    while i < cs.len()
        invariant
            cs@ == s@,
            i <= cs.len(),
            out@ == old(out)@ + seq!['"'] + json_escape(s@.subrange(0, i as int)),
        decreases cs.len() - i,
    {
        let c = cs[i];
        let ghost before = out@;
        if c == '"' {
            push_char(out, '\\');
            push_char(out, '"');
        } else if c == '\\' {
            push_char(out, '\\');
            push_char(out, '\\');
        } else if c == '\n' {
            push_char(out, '\\');
            push_char(out, 'n');
        } else if c == '\r' {
            push_char(out, '\\');
            push_char(out, 'r');
        } else if c == '\t' {
            push_char(out, '\\');
            push_char(out, 't');
        } else if (c as u32) < 32 {
            let v = c as u32;
            let hi = (v / 16) as u8;
            let lo = (v % 16) as u8;
            push_char(out, '\\');
            push_char(out, 'u');
            push_char(out, '0');
            push_char(out, '0');
            push_char(out, (hi + 48) as char);
            if lo < 10 {
                push_char(out, (lo + 48) as char);
            } else {
                push_char(out, (lo + 87) as char);
            }
        } else {
            push_char(out, c);
        }
        assert(out@ =~= before + json_escape_char(c));
        let ghost p = s@.subrange(0, i + 1);
        assert(p.drop_last() =~= s@.subrange(0, i as int));
        i = i + 1;
    }
    assert(s@.subrange(0, s@.len() as int) =~= s@);
    push_char(out, '"');
    assert(out@ =~= old(out)@ + json_string(s@));
}

pub fn json_string_of(s: &str) -> (r: String)
    ensures
        r@ == json_string(s@),
{
    let mut r = String::new();
    write_json_string(&mut r, s);
    assert(Seq::<char>::empty() + json_string(s@) =~= json_string(s@));
    r
}

pub fn json_opt_string_of(s: &Option<String>) -> (r: String)
    ensures
        r@ == json_opt_string(match s {
            Some(v) => Some(v@),
            None => None,
        }),
{
    match s {
        Some(v) => json_string_of(v.as_str()),
        None => {
            let mut r = String::new();
            push_char(&mut r, 'n');
            push_char(&mut r, 'u');
            push_char(&mut r, 'l');
            push_char(&mut r, 'l');
            assert(r@ =~= json_null());
            r
        },
    }
}

pub fn json_number_of(n: u64) -> (r: String)
    ensures
        r@ == decimal(n as nat),
{
    decimal_string(n)
}

pub open spec fn members_view(m: Seq<(String, String)>) -> Seq<(Seq<char>, Seq<char>)> {
    m.map_values(|p: (String, String)| (p.0@, p.1@))
}

/// Encodes an object from unencoded keys and encoded values.
pub fn json_object_of(members: &Vec<(String, String)>) -> (r: String)
    ensures
        r@ == json_object(members_view(members@)),
{
    let ghost parts = members_view(members@).map_values(
        |m: (Seq<char>, Seq<char>)| json_member(m.0, m.1),
    );
    let mut r = String::new();
    push_char(&mut r, '{');
    let mut i: usize = 0;
    while i < members.len()
        invariant
            i <= members.len(),
            parts == members_view(members@).map_values(
                |m: (Seq<char>, Seq<char>)| json_member(m.0, m.1),
            ),
            r@ == seq!['{'] + joined(parts.subrange(0, i as int), seq![',']),
        decreases members.len() - i,
    {
        let ghost before = r@;
        if i > 0 {
            push_char(&mut r, ',');
        }
        write_json_string(&mut r, members[i].0.as_str());
        push_char(&mut r, ':');
        r.append(members[i].1.as_str());
        let ghost next = parts.subrange(0, i + 1);
        assert(next.drop_last() =~= parts.subrange(0, i as int));
        assert(next.last() == json_member(members@[i as int].0@, members@[i as int].1@));
        if i == 0 {
            assert(before =~= seq!['{']);
            assert(r@ =~= seq!['{'] + joined(next, seq![',']));
        } else {
            assert(r@ =~= seq!['{'] + joined(next, seq![',']));
        }
        i = i + 1;
    }
    assert(parts.subrange(0, members.len() as int) =~= parts);
    push_char(&mut r, '}');
    r
}

/// A template without `{`: it holds no tag, expression or comment.
pub open spec fn is_plain_text(t: Seq<char>) -> bool {
    forall|i: int| 0 <= i < t.len() ==> t[i] != '{'
}

/// Relies on `tera::Tera::one_off` (autoescaping off) with a `tera::Context`
/// made from the JSON text by `serde_json::from_str` and
/// `tera::Context::from_value`. A template without `{` is a single text node
/// and renders to itself. Other templates may read the process environment
/// (tera's `get_env`), so nothing more is stated of them.
#[verifier::external_body]
pub(crate) fn tera_render(template: &str, context_json: &str) -> (r: Result<String, String>)
    ensures
        r is Ok && is_plain_text(template@) ==> r->Ok_0@ == template@,
{
    let value: serde_json::Value = serde_json::from_str(context_json).map_err(|e| e.to_string())?;
    let context = tera::Context::from_value(value).map_err(|e| e.to_string())?;
    tera::Tera::one_off(template, &context, false).map_err(|e| e.to_string())
}

} // verus!
