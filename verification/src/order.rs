//! Lexicographic order on character sequences, the order of `String`'s
//! `Ord` (UTF-8 preserves code-point order byte by byte), and an insertion
//! sort that is proved to permute its input into that order.
use vstd::prelude::*;
use vstd::seq_lib::to_multiset_insert;
use crate::text::chars_of;

verus! {

/// `a` sorts strictly before `b`.
pub open spec fn lex_lt(a: Seq<char>, b: Seq<char>) -> bool
    decreases a.len(),
{
    if b.len() == 0 {
        false
    } else if a.len() == 0 {
        true
    } else if (a[0] as u32) < (b[0] as u32) {
        true
    } else if a[0] == b[0] {
        lex_lt(a.drop_first(), b.drop_first())
    } else {
        false
    }
}

pub open spec fn lex_le(a: Seq<char>, b: Seq<char>) -> bool {
    a == b || lex_lt(a, b)
}

/// The sequence is in ascending order.
pub open spec fn sorted_lex(s: Seq<Seq<char>>) -> bool {
    forall|i: int, j: int| 0 <= i < j < s.len() ==> lex_le(#[trigger] s[i], #[trigger] s[j])
}

/// The character sequences of a list of strings.
pub open spec fn string_views(s: Seq<String>) -> Seq<Seq<char>> {
    s.map_values(|x: String| x@)
}

/// Distinct characters have distinct code points.
pub proof fn lemma_char_u32_injective(a: char, b: char)
    ensures
        a != b ==> (a as u32) != (b as u32),
{
    vstd::utf8::char_u32_cast(a, a as u32);
    vstd::utf8::char_u32_cast(b, b as u32);
}

pub proof fn lemma_lex_irreflexive(a: Seq<char>)
    ensures
        !lex_lt(a, a),
    decreases a.len(),
{
    if a.len() > 0 {
        lemma_lex_irreflexive(a.drop_first());
    }
}

pub proof fn lemma_lex_total(a: Seq<char>, b: Seq<char>)
    ensures
        a == b || lex_lt(a, b) || lex_lt(b, a),
    decreases a.len(),
{
    if a.len() > 0 && b.len() > 0 && a[0] == b[0] {
        lemma_lex_total(a.drop_first(), b.drop_first());
        if a.drop_first() == b.drop_first() {
            assert(a =~= seq![a[0]] + a.drop_first());
            assert(b =~= seq![b[0]] + b.drop_first());
        }
    } else if a.len() == 0 && b.len() == 0 {
        assert(a =~= b);
    } else if a.len() > 0 && b.len() > 0 && a[0] != b[0] {
        lemma_char_u32_injective(a[0], b[0]);
    }
}

pub proof fn lemma_lex_transitive(a: Seq<char>, b: Seq<char>, c: Seq<char>)
    requires
        lex_lt(a, b),
        lex_lt(b, c),
    ensures
        lex_lt(a, c),
    decreases a.len(),
{
    if a.len() > 0 && b.len() > 0 && c.len() > 0 && a[0] == b[0] && b[0] == c[0] {
        lemma_lex_transitive(a.drop_first(), b.drop_first(), c.drop_first());
    }
}

pub proof fn lemma_lex_lt_le(a: Seq<char>, b: Seq<char>, c: Seq<char>)
    requires
        lex_lt(a, b),
        lex_le(b, c),
    ensures
        lex_lt(a, c),
{
    if b != c {
        lemma_lex_transitive(a, b, c);
    }
}

/// `a` sorts strictly before `b`.
pub fn chars_lex_lt(a: &[char], b: &[char]) -> (r: bool)
    ensures
        r == lex_lt(a@, b@),
{
    let mut i: usize = 0;
    assert(a@.skip(0) =~= a@);
    assert(b@.skip(0) =~= b@);
    while i < a.len() && i < b.len()
        invariant
            0 <= i <= a.len(),
            i <= b.len(),
            lex_lt(a@, b@) == lex_lt(a@.skip(i as int), b@.skip(i as int)),
        decreases a.len() - i,
    {
        let x = a[i];
        let y = b[i];
        if (x as u32) < (y as u32) {
            return true;
        }
        if x != y {
            proof {
                lemma_char_u32_injective(x, y);
            }
            return false;
        }
        assert(a@.skip(i as int).drop_first() =~= a@.skip(i + 1));
        assert(b@.skip(i as int).drop_first() =~= b@.skip(i + 1));
        i += 1;
    }
    i < b.len()
}

/// Sorts names into ascending order (`sort_unstable` on `String`): the
/// result holds the same names, each as often as the input, in order.
pub fn sort_names(names: &[String]) -> (r: Vec<String>)
    ensures
        string_views(r@).to_multiset() == string_views(names@).to_multiset(),
        sorted_lex(string_views(r@)),
{
    let mut out: Vec<String> = Vec::new();
    let mut keys: Vec<Vec<char>> = Vec::new();
    let mut i: usize = 0;
    assert(string_views(names@.take(0)) =~= string_views(out@));
    while i < names.len()
        invariant
            0 <= i <= names.len(),
            keys.len() == out.len(),
            forall|k: int| 0 <= k < keys.len() ==> (#[trigger] keys@[k])@ == out@[k]@,
            sorted_lex(string_views(out@)),
            string_views(out@).to_multiset() == string_views(names@.take(i as int)).to_multiset(),
        decreases names.len() - i,
    {
        let name = names[i].clone();
        let key = chars_of(name.as_str());
        let mut pos: usize = 0;
        while pos < keys.len() && !chars_lex_lt(key.as_slice(), keys[pos].as_slice())
            invariant
                0 <= pos <= keys.len(),
                keys.len() == out.len(),
                forall|k: int| 0 <= k < keys.len() ==> (#[trigger] keys@[k])@ == out@[k]@,
                forall|k: int| 0 <= k < pos ==> !lex_lt(key@, #[trigger] out@[k]@),
            decreases keys.len() - pos,
        {
            pos += 1;
        }
        let ghost before = string_views(out@);
        let ghost x = name@;
        proof {
            assert forall|k: int| 0 <= k < pos implies lex_le(#[trigger] before[k], x) by {
                lemma_lex_total(before[k], x);
            }
            assert forall|k: int| pos <= k < before.len() implies lex_lt(x, #[trigger] before[k]) by {
                lemma_lex_lt_le(x, before[pos as int], before[k]);
            }
        }
        out.insert(pos, name);
        keys.insert(pos, key);
        proof {
            let after = string_views(out@);
            assert(after =~= before.insert(pos as int, x));
            to_multiset_insert(before, pos as int, x);
            broadcast use vstd::seq_lib::group_to_multiset_ensures;
            assert(names@.take(i + 1) =~= names@.take(i as int).push(names@[i as int]));
            assert(string_views(names@.take(i + 1)) =~= string_views(names@.take(i as int)).push(
                x,
            ));
            assert forall|a: int, b: int| 0 <= a < b < after.len() implies lex_le(
                #[trigger] after[a],
                #[trigger] after[b],
            ) by {
                if a < pos && b < pos {
                } else if a < pos && b == pos {
                } else if a < pos {
                    assert(after[b] == before[b - 1]);
                } else if a == pos {
                    assert(after[b] == before[b - 1]);
                } else {
                    assert(after[a] == before[a - 1]);
                    assert(after[b] == before[b - 1]);
                }
            }
            assert forall|k: int| 0 <= k < keys.len() implies (#[trigger] keys@[k])@ == out@[k]@ by {
                if k < pos {
                } else if k > pos {
                }
            }
        }
        i += 1;
    }
    assert(names@.take(names.len() as int) =~= names@);
    out
}

} // verus!
