use vstd::prelude::*;
use vstd::relations::{sorted_by, total_ordering};
use vstd::seq_lib::lemma_sorted_unique;

verus! {

/// The views of a list of strings.
pub open spec fn seq_views(s: Seq<String>) -> Seq<Seq<char>> {
    s.map_values(|x: String| x@)
}

/// Lexicographic order on character sequences, by code point; the
/// deterministic order in which endpoint identifiers are listed.
pub open spec fn lex_le(a: Seq<char>, b: Seq<char>) -> bool
    decreases a.len(),
{
    if a.len() == 0 {
        true
    } else if b.len() == 0 {
        false
    } else if a[0] != b[0] {
        (a[0] as u32) < (b[0] as u32)
    } else {
        lex_le(a.drop_first(), b.drop_first())
    }
}

/// The lexicographic order as a relation value, for vstd's predicates.
pub open spec fn lex_le_fn() -> spec_fn(Seq<char>, Seq<char>) -> bool {
    |a: Seq<char>, b: Seq<char>| lex_le(a, b)
}

/// A list of identifiers in lexicographic order.
pub open spec fn lex_sorted(s: Seq<Seq<char>>) -> bool {
    sorted_by(s, lex_le_fn())
}

proof fn lemma_lex_le_refl(a: Seq<char>)
    ensures
        lex_le(a, a),
    decreases a.len(),
{
    if a.len() != 0 {
        lemma_lex_le_refl(a.drop_first());
    }
}

proof fn lemma_lex_le_total(a: Seq<char>, b: Seq<char>)
    ensures
        lex_le(a, b) || lex_le(b, a),
    decreases a.len(),
{
    if a.len() != 0 && b.len() != 0 {
        if a[0] == b[0] {
            lemma_lex_le_total(a.drop_first(), b.drop_first());
        } else {
            vstd::utf8::char_u32_cast(a[0], a[0] as u32);
            vstd::utf8::char_u32_cast(b[0], b[0] as u32);
            assert((a[0] as u32) != (b[0] as u32));
        }
    }
}

proof fn lemma_lex_le_antisym(a: Seq<char>, b: Seq<char>)
    requires
        lex_le(a, b),
        lex_le(b, a),
    ensures
        a == b,
    decreases a.len(),
{
    if a.len() == 0 {
        assert(b.len() == 0);
        assert(a =~= b);
    } else {
        assert(b.len() != 0);
        assert(a[0] == b[0]);
        lemma_lex_le_antisym(a.drop_first(), b.drop_first());
        assert(a.drop_first().len() == a.len() - 1);
        assert(b.drop_first().len() == b.len() - 1);
        assert(a.drop_first() =~= b.drop_first());
        assert(a.len() == b.len());
        assert forall|j: int| 0 <= j < a.len() implies a[j] == b[j] by {
            if j > 0 {
                assert(a[j] == a.drop_first()[j - 1]);
                assert(b[j] == b.drop_first()[j - 1]);
            }
        }
        assert(a =~= b);
    }
}

proof fn lemma_lex_le_trans(a: Seq<char>, b: Seq<char>, c: Seq<char>)
    requires
        lex_le(a, b),
        lex_le(b, c),
    ensures
        lex_le(a, c),
    decreases a.len(),
{
    if a.len() != 0 && b.len() != 0 && c.len() != 0 && a[0] == b[0] && b[0] == c[0] {
        lemma_lex_le_trans(a.drop_first(), b.drop_first(), c.drop_first());
    }
}

/// The lexicographic order is a total order.
pub proof fn lemma_lex_total_ordering()
    ensures
        total_ordering(lex_le_fn()),
{
    assert forall|a: Seq<char>| #[trigger] lex_le_fn()(a, a) by {
        lemma_lex_le_refl(a);
    }
    assert forall|a: Seq<char>, b: Seq<char>|
        #[trigger] lex_le_fn()(a, b) && #[trigger] lex_le_fn()(b, a) implies a == b by {
        lemma_lex_le_antisym(a, b);
    }
    assert forall|a: Seq<char>, b: Seq<char>, c: Seq<char>|
        #[trigger] lex_le_fn()(a, b) && #[trigger] lex_le_fn()(b, c) implies lex_le_fn()(
        a,
        c,
    ) by {
        lemma_lex_le_trans(a, b, c);
    }
    assert forall|a: Seq<char>, b: Seq<char>| #[trigger]
        lex_le_fn()(a, b) || #[trigger] lex_le_fn()(b, a) by {
        lemma_lex_le_total(a, b);
    }
}

/// Two listings of the same endpoint multiset, each lexicographically
/// sorted, are the same list: sorting makes enumeration deterministic for a
/// fixed underlying endpoint set.
pub proof fn lemma_sorted_list_deterministic(a: Seq<Seq<char>>, b: Seq<Seq<char>>)
    requires
        lex_sorted(a),
        lex_sorted(b),
        a.to_multiset() == b.to_multiset(),
    ensures
        a == b,
{
    lemma_lex_total_ordering();
    lemma_sorted_unique(a, b, lex_le_fn());
}

proof fn lemma_lex_le_skip(a: Seq<char>, b: Seq<char>, i: int)
    requires
        0 <= i <= a.len(),
        i <= b.len(),
        forall|j: int| 0 <= j < i ==> a[j] == b[j],
    ensures
        lex_le(a, b) == lex_le(a.skip(i), b.skip(i)),
    decreases i,
{
    if i > 0 {
        assert(a[0] == b[0]);
        lemma_lex_le_skip(a.drop_first(), b.drop_first(), i - 1);
        assert(a.skip(i) =~= a.drop_first().skip(i - 1));
        assert(b.skip(i) =~= b.drop_first().skip(i - 1));
    } else {
        assert(a.skip(0) =~= a);
        assert(b.skip(0) =~= b);
    }
}

/// Lexicographic comparison of two strings: returns whether `a` comes no
/// later than `b`.
pub fn str_lex_le(a: &str, b: &str) -> (r: bool)
    ensures
        r == lex_le(a@, b@),
{
    let alen = a.unicode_len();
    let blen = b.unicode_len();
    let mut i: usize = 0;
    while i < alen && i < blen
        invariant
            i <= alen,
            i <= blen,
            alen == a@.len(),
            blen == b@.len(),
            forall|j: int| 0 <= j < i ==> a@[j] == b@[j],
        decreases alen - i,
    {
        let ca = a.get_char(i);
        let cb = b.get_char(i);
        if ca != cb {
            proof {
                lemma_lex_le_skip(a@, b@, i as int);
            }
            return (ca as u32) < (cb as u32);
        }
        i += 1;
    }
    proof {
        lemma_lex_le_skip(a@, b@, i as int);
    }
    alen <= blen
}

proof fn lemma_sorted_insert(s: Seq<Seq<char>>, i: int, x: Seq<char>)
    requires
        lex_sorted(s),
        0 <= i <= s.len(),
        forall|k: int| 0 <= k < i ==> lex_le(#[trigger] s[k], x),
        i < s.len() ==> lex_le(x, s[i]),
    ensures
        lex_sorted(s.insert(i, x)),
{
    let t = s.insert(i, x);
    assert forall|p: int, q: int| 0 <= p < q < t.len() implies #[trigger]
        lex_le_fn()(t[p], t[q]) by {
        if p < i && q < i {
            assert(lex_le_fn()(s[p], s[q]));
        } else if p < i && q == i {
            assert(lex_le(s[p], x));
        } else if p < i && q > i {
            assert(lex_le_fn()(s[p], s[q - 1]));
        } else if p == i && q > i {
            assert(lex_le(x, s[i]));
            if q - 1 > i {
                assert(lex_le_fn()(s[i], s[q - 1]));
                lemma_lex_le_trans(x, s[i], s[q - 1]);
            }
        } else {
            assert(p > i && q > i);
            assert(lex_le_fn()(s[p - 1], s[q - 1]));
        }
    }
}

fn insert_position(r: &Vec<String>, name: &String) -> (pos: usize)
    ensures
        pos <= r@.len(),
        forall|k: int| 0 <= k < pos ==> lex_le(#[trigger] seq_views(r@)[k], name@),
        pos < r@.len() ==> !lex_le(seq_views(r@)[pos as int], name@),
{
    let mut j: usize = 0;
    while j < r.len()
        invariant
            j <= r@.len(),
            forall|k: int| 0 <= k < j ==> lex_le(#[trigger] seq_views(r@)[k], name@),
        decreases r@.len() - j,
    {
        if !str_lex_le(r[j].as_str(), name.as_str()) {
            return j;
        }
        j += 1;
    }
    j
}

/// The given identifiers in lexicographic order: the result is sorted and
/// holds exactly the identifiers given, multiplicity included.
pub fn sorted_port_list(names: Vec<String>) -> (r: Vec<String>)
    ensures
        lex_sorted(seq_views(r@)),
        seq_views(r@).to_multiset() == seq_views(names@).to_multiset(),
{
    broadcast use vstd::multiset::group_multiset_axioms;

    let mut r: Vec<String> = Vec::new();
    let mut idx: usize = 0;
    proof {
        assert(seq_views(r@) =~= Seq::<Seq<char>>::empty());
        assert(seq_views(names@.take(0)) =~= Seq::<Seq<char>>::empty());
    }
    while idx < names.len()
        invariant
            idx <= names@.len(),
            lex_sorted(seq_views(r@)),
            seq_views(r@).to_multiset() == seq_views(names@.take(idx as int)).to_multiset(),
        decreases names@.len() - idx,
    {
        let ghost prev = r@;
        let name = names[idx].clone();
        assert(name@ == names@[idx as int]@);
        let pos = insert_position(&r, &name);
        proof {
            if pos < r@.len() {
                lemma_lex_le_total(seq_views(r@)[pos as int], name@);
            }
            lemma_sorted_insert(seq_views(r@), pos as int, name@);
        }
        r.insert(pos, name);
        proof {
            let e = names@[idx as int]@;
            let s0 = seq_views(prev);
            let t0 = seq_views(names@.take(idx as int));
            assert(seq_views(r@) =~= s0.insert(pos as int, e));
            vstd::seq_lib::to_multiset_insert(s0, pos as int, e);
            assert(names@.take(idx + 1) =~= names@.take(idx as int).push(names@[idx as int]));
            assert(seq_views(names@.take(idx + 1)) =~= t0.push(e));
            vstd::seq_lib::to_multiset_build(t0, e);
            assert(t0.push(e).to_multiset() == t0.to_multiset().insert(e));
            assert(seq_views(r@).to_multiset() == seq_views(names@.take(idx + 1)).to_multiset());
        }
        idx += 1;
    }
    proof {
        assert(names@.take(idx as int) =~= names@);
    }
    r
}

} // verus!
