//! The order of names (file names, permissions): code-point order, and a
//! stable sort by it.
use vstd::prelude::*;

use crate::text::chars_of;

verus! {

pub open spec fn strings_view(v: Seq<String>) -> Seq<Seq<char>> {
    v.map_values(|s: String| s@)
}

/// File names in code-point order (the order of their UTF-8 bytes): `a`
/// comes first or equals `b`.
pub open spec fn name_le(a: Seq<char>, b: Seq<char>) -> bool
    decreases a.len(),
{
    if a.len() == 0 {
        true
    } else if b.len() == 0 {
        false
    } else if a[0] != b[0] {
        (a[0] as u32) < (b[0] as u32)
    } else {
        name_le(a.drop_first(), b.drop_first())
    }
}

pub proof fn lemma_name_le_total(a: Seq<char>, b: Seq<char>)
    ensures
        name_le(a, b) || name_le(b, a),
    decreases a.len(),
{
    if a.len() > 0 && b.len() > 0 {
        if a[0] == b[0] {
            lemma_name_le_total(a.drop_first(), b.drop_first());
        } else {
            vstd::utf8::char_u32_cast(a[0], a[0] as u32);
            vstd::utf8::char_u32_cast(b[0], b[0] as u32);
        }
    }
}

pub proof fn lemma_name_le_trans(a: Seq<char>, b: Seq<char>, c: Seq<char>)
    requires
        name_le(a, b),
        name_le(b, c),
    ensures
        name_le(a, c),
    decreases a.len(),
{
    if a.len() > 0 && b.len() > 0 && c.len() > 0 && a[0] == b[0] && b[0] == c[0] {
        lemma_name_le_trans(a.drop_first(), b.drop_first(), c.drop_first());
    }
}

/// Whether `a` sorts before or equal to `b`.
pub fn name_le_exec(a: &str, b: &str) -> (r: bool)
    ensures
        r == name_le(a@, b@),
{
    let va = chars_of(a);
    let vb = chars_of(b);
    let mut i: usize = 0;
    assert(va@.skip(0) =~= va@);
    assert(vb@.skip(0) =~= vb@);
    while i < va.len() && i < vb.len() && va[i] == vb[i]
        invariant
            i <= va@.len(),
            i <= vb@.len(),
            name_le(va@, vb@) == name_le(va@.skip(i as int), vb@.skip(i as int)),
        decreases va@.len() - i,
    {
        assert(va@.skip(i as int).drop_first() =~= va@.skip(i + 1));
        assert(vb@.skip(i as int).drop_first() =~= vb@.skip(i + 1));
        i = i + 1;
    }
    if i == va.len() {
        assert(va@.skip(i as int).len() == 0);
        true
    } else if i == vb.len() {
        false
    } else {
        assert(va@.skip(i as int)[0] == va@[i as int]);
        assert(vb@.skip(i as int)[0] == vb@[i as int]);
        let ca = va[i];
        let cb = vb[i];
        (ca as u32) < (cb as u32)
    }
}

/// Where `x` goes into `s`: before the first name it sorts before or equals.
pub open spec fn insert_pos(x: Seq<char>, s: Seq<Seq<char>>) -> nat
    decreases s.len(),
{
    if s.len() == 0 {
        0
    } else if name_le(x, s[0]) {
        0
    } else {
        1 + insert_pos(x, s.drop_first())
    }
}

/// Names sorted ascending, equal names in the order they came (a stable
/// insertion sort).
pub open spec fn sort_names(s: Seq<Seq<char>>) -> Seq<Seq<char>>
    decreases s.len(),
{
    if s.len() == 0 {
        Seq::empty()
    } else {
        let rest = sort_names(s.drop_last());
        rest.insert(insert_pos(s.last(), rest) as int, s.last())
    }
}

pub open spec fn names_sorted(s: Seq<Seq<char>>) -> bool {
    forall|i: int, j: int| 0 <= i < j < s.len() ==> name_le(#[trigger] s[i], #[trigger] s[j])
}

proof fn lemma_insert_pos(x: Seq<char>, s: Seq<Seq<char>>)
    ensures
        insert_pos(x, s) <= s.len(),
        forall|m: int| 0 <= m < insert_pos(x, s) ==> !name_le(x, #[trigger] s[m]),
        insert_pos(x, s) < s.len() ==> name_le(x, s[insert_pos(x, s) as int]),
    decreases s.len(),
{
    if s.len() > 0 && !name_le(x, s[0]) {
        lemma_insert_pos(x, s.drop_first());
        assert forall|m: int| 0 <= m < insert_pos(x, s) implies !name_le(x, #[trigger] s[m]) by {
            if m > 0 {
                assert(s[m] == s.drop_first()[m - 1]);
            }
        }
    }
}

proof fn lemma_insert_sorted(x: Seq<char>, s: Seq<Seq<char>>)
    requires
        names_sorted(s),
    ensures
        names_sorted(s.insert(insert_pos(x, s) as int, x)),
{
    lemma_insert_pos(x, s);
    let p = insert_pos(x, s) as int;
    let t = s.insert(p, x);
    assert forall|i: int, j: int| 0 <= i < j < t.len() implies name_le(#[trigger] t[i], #[trigger] t[j]) by {
        if j < p {
            assert(t[i] == s[i] && t[j] == s[j]);
        } else if j == p {
            assert(t[i] == s[i]);
            lemma_name_le_total(x, s[i]);
        } else if i == p {
            assert(t[j] == s[j - 1]);
            if j - 1 > p {
                lemma_name_le_trans(x, s[p], s[j - 1]);
            }
        } else if i < p {
            assert(t[i] == s[i] && t[j] == s[j - 1]);
        } else {
            assert(t[i] == s[i - 1] && t[j] == s[j - 1]);
        }
    }
}

/// The insertion sort sorts and keeps every name.
pub proof fn lemma_sort_names(s: Seq<Seq<char>>)
    ensures
        names_sorted(sort_names(s)),
        sort_names(s).to_multiset() =~= s.to_multiset(),
        sort_names(s).len() == s.len(),
    decreases s.len(),
{
    broadcast use vstd::seq_lib::group_to_multiset_ensures;

    if s.len() > 0 {
        let rest = sort_names(s.drop_last());
        lemma_sort_names(s.drop_last());
        lemma_insert_sorted(s.last(), rest);
        lemma_insert_pos(s.last(), rest);
        assert(s.drop_last().push(s.last()) =~= s);
    }
}

/// `v` sorted by name.
pub fn sort_by_name(v: &Vec<String>) -> (r: Vec<String>)
    ensures
        strings_view(r@) == sort_names(strings_view(v@)),
{
    let mut out: Vec<String> = Vec::new();
    let mut i: usize = 0;
    while i < v.len()
        invariant
            i <= v@.len(),
            strings_view(out@) == sort_names(strings_view(v@.take(i as int))),
        decreases v@.len() - i,
    {
        let ghost sv = strings_view(out@);
        let x = &v[i];
        let mut k: usize = 0;
        assert(sv.skip(0) =~= sv);
        while k < out.len() && !name_le_exec(x.as_str(), out[k].as_str())
            invariant
                k <= out@.len(),
                sv == strings_view(out@),
                insert_pos(x@, sv) == k + insert_pos(x@, sv.skip(k as int)),
            decreases out@.len() - k,
        {
            assert(sv.skip(k as int).drop_first() =~= sv.skip(k + 1));
            assert(sv.skip(k as int)[0] == sv[k as int]);
            k = k + 1;
        }
        assert(sv.skip(0) =~= sv);
        if k < out.len() {
            assert(sv.skip(k as int)[0] == sv[k as int]);
        }
        assert(insert_pos(x@, sv) == k);
        out.insert(k, x.clone());
        assert(strings_view(v@.take(i + 1)).drop_last() =~= strings_view(v@.take(i as int)));
        assert(strings_view(v@.take(i + 1)).last() == x@);
        assert(strings_view(out@) =~= sv.insert(k as int, x@));
        i = i + 1;
    }
    assert(v@.take(v@.len() as int) =~= v@);
    out
}

} // verus!
