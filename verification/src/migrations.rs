//! Schema migrations: a migration script is run statement by statement,
//! splitting it at each `;` and skipping blank pieces.

use crate::text::{chars_of, is_whitespace, lemma_trimmed_is_part, string_of, trim, trimmed};
use vstd::prelude::*;

verus! {

/// The pieces of `s` between its `;` characters, as `str::split(';')`
/// produces them: one more piece than there are separators.
pub open spec fn split_at_semicolons(s: Seq<char>) -> Seq<Seq<char>>
    decreases s.len(),
{
    if s.len() == 0 {
        seq![Seq::empty()]
    } else {
        let p = split_at_semicolons(s.drop_last());
        if s.last() == ';' {
            p.push(Seq::empty())
        } else {
            p.update(p.len() - 1, p.last().push(s.last()))
        }
    }
}

/// A piece of a script as a statement: trimmed, and nothing if blank.
pub open spec fn as_statement(piece: Seq<char>) -> Option<Seq<char>> {
    if trimmed(piece).len() == 0 {
        None
    } else {
        Some(trimmed(piece))
    }
}

/// The statements of a migration script, in order.
pub open spec fn statements(sql: Seq<char>) -> Seq<Seq<char>> {
    split_at_semicolons(sql).filter_map(|p: Seq<char>| as_statement(p))
}

proof fn lemma_split_nonempty(s: Seq<char>)
    ensures
        split_at_semicolons(s).len() >= 1,
    decreases s.len(),
{
    if s.len() > 0 {
        lemma_split_nonempty(s.drop_last());
    }
}

proof fn lemma_pieces_have_no_semicolon(s: Seq<char>)
    ensures
        forall|i: int, j: int| 0 <= i < split_at_semicolons(s).len() && 0 <= j < split_at_semicolons(s)[i].len()
            ==> split_at_semicolons(s)[i][j] != ';',
    decreases s.len(),
{
    if s.len() > 0 {
        lemma_pieces_have_no_semicolon(s.drop_last());
        lemma_split_nonempty(s.drop_last());
        let p = split_at_semicolons(s.drop_last());
        if s.last() != ';' {
            let q = p.update(p.len() - 1, p.last().push(s.last()));
            assert forall|i: int, j: int| 0 <= i < q.len() && 0 <= j < q[i].len() implies q[i][j] != ';' by {
                if i == p.len() - 1 && j == p.last().len() {
                } else if i == p.len() - 1 {
                    assert(q[i][j] == p[i][j]);
                }
            }
        }
    }
}

/// Every statement of a script is non-blank, starts and ends with a
/// non-whitespace character, and holds no `;`.
pub proof fn lemma_statements_shape(sql: Seq<char>)
    ensures
        forall|k: int| 0 <= k < statements(sql).len() ==> {
            let st = #[trigger] statements(sql)[k];
            &&& st.len() > 0
            &&& !is_whitespace(st[0])
            &&& !is_whitespace(st.last())
            &&& forall|j: int| 0 <= j < st.len() ==> st[j] != ';'
        },
{
    let pieces = split_at_semicolons(sql);
    let f = |p: Seq<char>| as_statement(p);
    lemma_pieces_have_no_semicolon(sql);
    assert forall|k: int| 0 <= k < statements(sql).len() implies {
        let st = #[trigger] statements(sql)[k];
        &&& st.len() > 0
        &&& !is_whitespace(st[0])
        &&& !is_whitespace(st.last())
        &&& forall|j: int| 0 <= j < st.len() ==> st[j] != ';'
    } by {
        let st = statements(sql)[k];
        assert(pieces.filter_map(f).contains(st));
        pieces.lemma_filter_map_contains(f, st);
        let p = choose|p: Seq<char>| #[trigger] pieces.contains(p) && f(p) == Some(st);
        let i = choose|i: int| 0 <= i < pieces.len() && pieces[i] == p;
        lemma_trimmed_is_part(p);
        let (a, b) = choose|a: int, b: int| 0 <= a <= b <= p.len() && trimmed(p) == p.subrange(a, b);
        assert forall|j: int| 0 <= j < st.len() implies st[j] != ';' by {
            assert(st[j] == p[a + j]);
        }
    }
}

/// The statements of a migration script: the pieces between `;`
/// separators, trimmed, with blank pieces left out.
pub fn split_statements(sql: &str) -> (r: Vec<String>)
    ensures
        r@.map_values(|s: String| s@) == statements(sql@),
{
    let cs = chars_of(sql);
    let n = cs.len();
    let mut out: Vec<String> = Vec::new();
    let mut cur: Vec<char> = Vec::new();
    let ghost f = |p: Seq<char>| as_statement(p);
    assert(cs@.take(0) =~= Seq::<char>::empty());
    assert(split_at_semicolons(Seq::<char>::empty()).drop_last() =~= Seq::<Seq<char>>::empty());
    for i in 0..n
        invariant
            n == cs@.len(),
            cs@ == sql@,
            f == (|p: Seq<char>| as_statement(p)),
            split_at_semicolons(cs@.take(i as int)).len() >= 1,
            split_at_semicolons(cs@.take(i as int)).last() == cur@,
            out@.map_values(|s: String| s@) == split_at_semicolons(cs@.take(i as int)).drop_last().filter_map(f),
    {
        let c = cs[i];
        let ghost p = split_at_semicolons(cs@.take(i as int));
        assert(cs@.take(i + 1).drop_last() =~= cs@.take(i as int));
        assert(cs@.take(i + 1).last() == c);
        if c == ';' {
            let piece = string_of(cur.as_slice());
            let t = trim(piece.as_str());
            proof {
                assert(p.push(Seq::empty()).drop_last() =~= p);
                assert(p =~= p.drop_last().push(p.last()));
            }
            if !t.is_empty() {
                out.push(String::from_str(t));
                assert(out@.map_values(|s: String| s@) =~= p.filter_map(f));
            } else {
                assert(out@.map_values(|s: String| s@) =~= p.filter_map(f));
            }
            cur = Vec::new();
        } else {
            cur.push(c);
            let ghost q = p.update(p.len() - 1, p.last().push(c));
            assert(q.drop_last() =~= p.drop_last());
        }
    }
    let piece = string_of(cur.as_slice());
    let t = trim(piece.as_str());
    let ghost p = split_at_semicolons(cs@.take(n as int));
    assert(cs@.take(n as int) =~= cs@);
    proof {
        assert(p =~= p.drop_last().push(p.last()));
    }
    if !t.is_empty() {
        out.push(String::from_str(t));
    }
    assert(out@.map_values(|s: String| s@) =~= p.filter_map(f));
    out
}

} // verus!
