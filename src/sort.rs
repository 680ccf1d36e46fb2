//! Sorting strings by their characters.
use vstd::prelude::*;
use crate::fields::strings_view;

verus! {

/// `a` sorts before or equal to `b`, comparing character by character.
pub open spec fn lex_le(a: Seq<char>, b: Seq<char>) -> bool
    decreases a.len(),
{
    if a.len() == 0 {
        true
    } else if b.len() == 0 {
        false
    } else if a[0] != b[0] {
        a[0] < b[0]
    } else {
        lex_le(a.drop_first(), b.drop_first())
    }
}

pub proof fn lemma_lex_total(a: Seq<char>, b: Seq<char>)
    ensures
        lex_le(a, b) || lex_le(b, a),
    decreases a.len(),
{
    if a.len() > 0 && b.len() > 0 && a[0] == b[0] {
        lemma_lex_total(a.drop_first(), b.drop_first());
    }
}

pub proof fn lemma_lex_trans(a: Seq<char>, b: Seq<char>, c: Seq<char>)
    requires
        lex_le(a, b),
        lex_le(b, c),
    ensures
        lex_le(a, c),
    decreases a.len(),
{
    if a.len() > 0 && b.len() > 0 && c.len() > 0 && a[0] == b[0] && b[0] == c[0] {
        lemma_lex_trans(a.drop_first(), b.drop_first(), c.drop_first());
    }
}

pub fn lex_le_exec(a: &str, b: &str) -> (r: bool)
    ensures
        r == lex_le(a@, b@),
{
    let x = crate::text::chars_of(a);
    let y = crate::text::chars_of(b);
    let mut i: usize = 0;
    assert(a@.subrange(0, a@.len() as int) =~= a@);
    assert(b@.subrange(0, b@.len() as int) =~= b@);
    while i < x.len() && i < y.len() && x[i] == y[i]
        invariant
            i <= x.len(),
            i <= y.len(),
            x@ == a@,
            y@ == b@,
            lex_le(a@, b@) == lex_le(a@.subrange(i as int, a@.len() as int), b@.subrange(
                i as int,
                b@.len() as int,
            )),
        decreases x.len() - i,
    {
        let ghost sa = a@.subrange(i as int, a@.len() as int);
        let ghost sb = b@.subrange(i as int, b@.len() as int);
        assert(sa.drop_first() =~= a@.subrange(i + 1, a@.len() as int));
        assert(sb.drop_first() =~= b@.subrange(i + 1, b@.len() as int));
        i = i + 1;
    }
    proof {
        assert(a@.subrange(0, a@.len() as int) =~= a@);
        assert(b@.subrange(0, b@.len() as int) =~= b@);
    }
    if i == x.len() {
        true
    } else if i == y.len() {
        false
    } else {
        x[i] < y[i]
    }
}

pub open spec fn sorted(v: Seq<Seq<char>>) -> bool {
    forall|a: int, b: int| 0 <= a < b < v.len() ==> lex_le(#[trigger] v[a], #[trigger] v[b])
}

/// The strings in ascending order.
pub fn sort_strings(v: &Vec<String>) -> (r: Vec<String>)
    ensures
        sorted(strings_view(r@)),
        strings_view(r@).to_multiset() == strings_view(v@).to_multiset(),
{
    let mut out: Vec<String> = Vec::new();
    let mut i: usize = 0;
    assert(strings_view(out@) =~= strings_view(v@.subrange(0, 0)));
    while i < v.len()
        invariant
            i <= v.len(),
            sorted(strings_view(out@)),
            strings_view(out@).to_multiset() == strings_view(v@.subrange(0, i as int)).to_multiset(),
        decreases v.len() - i,
    {
        let x = v[i].clone();
        let mut pos: usize = 0;
        while pos < out.len() && lex_le_exec(out[pos].as_str(), x.as_str())
            invariant
                pos <= out@.len(),
                forall|k: int| 0 <= k < pos ==> lex_le(#[trigger] strings_view(out@)[k], x@),
            decreases out@.len() - pos,
        {
            pos = pos + 1;
        }
        let ghost before = strings_view(out@);
        proof {
            if pos < out@.len() {
                lemma_lex_total(before[pos as int], x@);
            }
            assert forall|k: int| pos <= k < before.len() implies lex_le(x@, #[trigger] before[k])
                by {
                if k > pos {
                    lemma_lex_trans(x@, before[pos as int], before[k]);
                }
            }
        }
        out.insert(pos, x);
        proof {
            assert(strings_view(out@) =~= before.insert(pos as int, x@));
            before.insert_ensures(pos as int, x@);
            vstd::seq_lib::to_multiset_insert(before, pos as int, x@);
            assert(strings_view(v@.subrange(0, i + 1)) =~= strings_view(
                v@.subrange(0, i as int),
            ).push(x@));
            vstd::seq_lib::to_multiset_build(strings_view(v@.subrange(0, i as int)), x@);
            let after = strings_view(out@);
            assert forall|a: int, b: int| 0 <= a < b < after.len() implies lex_le(
                #[trigger] after[a],
                #[trigger] after[b],
            ) by {
                if b < pos {
                } else if b == pos {
                } else if a == pos {
                    assert(after[b] == before[b - 1]);
                } else if a < pos {
                    assert(after[b] == before[b - 1]);
                    lemma_lex_trans(after[a], x@, after[b]);
                } else {
                    assert(after[a] == before[a - 1] && after[b] == before[b - 1]);
                }
            }
        }
        i = i + 1;
    }
    assert(v@.subrange(0, v@.len() as int) =~= v@);
    out
}

} // verus!
