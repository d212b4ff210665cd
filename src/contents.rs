//! The contents of a directory as shown in a preview: directories first,
//! each group in natural order.
use vstd::prelude::*;
use std::cmp::Ordering;
use crate::functions::strings_view;

verus! {

/// What `natord::compare` returns for two strings.
pub uninterp spec fn natural_order(a: Seq<char>, b: Seq<char>) -> Ordering;

/// Relies on natord::compare: natural order of two strings (runs of digits
/// compare by value), whose result depends on the strings alone; swapping the
/// arguments swaps `Greater` and `Less`, as every branch of its comparison
/// loop does.
#[verifier::external_body]
fn natural_cmp(a: &str, b: &str) -> (r: Ordering)
    ensures
        r == natural_order(a@, b@),
        r == Ordering::Greater ==> natural_order(b@, a@) == Ordering::Less,
{
    natord::compare(a, b)
}

/// Whether `a` comes after `b` in natural order.
fn comes_after(a: &str, b: &str) -> (r: bool)
    ensures
        r == (natural_order(a@, b@) == Ordering::Greater),
        r ==> natural_order(b@, a@) == Ordering::Less,
{
    match natural_cmp(a, b) {
        Ordering::Greater => true,
        _ => false,
    }
}

/// No neighbour comes after the next one in natural order.
pub open spec fn is_natural_sorted(s: Seq<Seq<char>>) -> bool {
    forall|k: int| 0 < k < s.len() ==> natural_order(s[k - 1], #[trigger] s[k]) != Ordering::Greater
}

/// `r` holds the names of `s`, each as often, in natural order.
pub open spec fn arranges(r: Seq<Seq<char>>, s: Seq<Seq<char>>) -> bool {
    r.to_multiset() == s.to_multiset() && is_natural_sorted(r)
}

/// `x` placed into `s` after the last name that does not come after it.
pub open spec fn insert_stable(s: Seq<Seq<char>>, x: Seq<char>) -> Seq<Seq<char>>
    decreases s.len(),
{
    if s.len() == 0 || natural_order(s.last(), x) != Ordering::Greater {
        s.push(x)
    } else {
        insert_stable(s.drop_last(), x).push(s.last())
    }
}

/// `s` sorted in natural order by stable insertion: names that compare equal
/// keep their order in `s`.
pub open spec fn stable_sorted(s: Seq<Seq<char>>) -> Seq<Seq<char>>
    decreases s.len(),
{
    if s.len() == 0 {
        s
    } else {
        insert_stable(stable_sorted(s.drop_last()), s.last())
    }
}

/// Placing `x` after every name of `s` that does not come after it, at `j`,
/// is stable insertion.
proof fn lemma_insert_at(s: Seq<Seq<char>>, x: Seq<char>, j: int)
    requires
        0 <= j <= s.len(),
        forall|m: int| j <= m < s.len() ==> natural_order(#[trigger] s[m], x) == Ordering::Greater,
        j > 0 ==> natural_order(s[j - 1], x) != Ordering::Greater,
    ensures
        insert_stable(s, x) == s.insert(j, x),
    decreases s.len(),
{
    if j == s.len() {
        assert(s.push(x) =~= s.insert(j, x));
    } else {
        let t = s.drop_last();
        assert forall|m: int| j <= m < t.len() implies natural_order(#[trigger] t[m], x)
            == Ordering::Greater by {
            assert(t[m] == s[m]);
        }
        if j > 0 {
            assert(t[j - 1] == s[j - 1]);
        }
        lemma_insert_at(t, x, j);
        assert(t.insert(j, x).push(s.last()) =~= s.insert(j, x));
    }
}

/// Puts `x` into the sorted `r` after every name that does not come after it.
#[verifier::rlimit(60)]
fn insert_sorted(r: &mut Vec<String>, x: String)
    requires
        is_natural_sorted(strings_view(old(r)@)),
    ensures
        strings_view(final(r)@).to_multiset() == strings_view(old(r)@).to_multiset().insert(x@),
        is_natural_sorted(strings_view(final(r)@)),
        strings_view(final(r)@) == insert_stable(strings_view(old(r)@), x@),
{
    let ghost rs = strings_view(r@);
    let mut j: usize = r.len();
    while j > 0 && comes_after(r[j - 1].as_str(), x.as_str())
        invariant
            j <= r@.len(),
            rs == strings_view(r@),
            forall|m: int| j <= m < rs.len() ==> natural_order(x@, #[trigger] rs[m]) == Ordering::Less,
            forall|m: int| j <= m < rs.len() ==> natural_order(#[trigger] rs[m], x@) == Ordering::Greater,
        decreases j,
    {
        j = j - 1;
    }
    proof {
        if j > 0 {
            assert(natural_order(rs[j - 1], x@) != Ordering::Greater);
        }
        lemma_insert_at(rs, x@, j as int);
    }
    let ghost xv = x@;
    r.insert(j, x);
    assert(strings_view(r@) =~= rs.insert(j as int, xv));
    proof {
        vstd::seq_lib::to_multiset_insert(rs, j as int, xv);
    }
    assert(is_natural_sorted(strings_view(r@))) by {
        let s = strings_view(r@);
        assert forall|k: int| 0 < k < s.len() implies natural_order(s[k - 1], #[trigger] s[k])
            != Ordering::Greater by {
            if k < j {
                assert(s[k - 1] == rs[k - 1] && s[k] == rs[k]);
            } else if k == j {
            } else if k == j + 1 {
                assert(s[k] == rs[j as int]);
            } else {
                assert(s[k - 1] == rs[k - 2] && s[k] == rs[k - 1]);
            }
        }
    }
}

/// Sorts names in natural order; names that compare equal keep their order.
#[verifier::rlimit(60)]
pub fn sort_natural(v: &Vec<String>) -> (r: Vec<String>)
    ensures
        arranges(strings_view(r@), strings_view(v@)),
        strings_view(r@) == stable_sorted(strings_view(v@)),
{
    let mut r: Vec<String> = Vec::new();
    let mut i: usize = 0;
    assert(strings_view(r@) =~= strings_view(v@).take(0));
    while i < v.len()
        invariant
            i <= v@.len(),
            strings_view(r@).to_multiset() == strings_view(v@).take(i as int).to_multiset(),
            is_natural_sorted(strings_view(r@)),
            strings_view(r@) == stable_sorted(strings_view(v@).take(i as int)),
        decreases v@.len() - i,
    {
        let x = v[i].clone();
        insert_sorted(&mut r, x);
        assert(strings_view(v@).take(i + 1) =~= strings_view(v@).take(i as int).push(v@[i as int]@));
        assert(strings_view(v@).take(i + 1).drop_last() =~= strings_view(v@).take(i as int));
        proof {
            vstd::seq_lib::to_multiset_build(strings_view(v@).take(i as int), v@[i as int]@);
        }
        i = i + 1;
    }
    assert(strings_view(v@).take(i as int) =~= strings_view(v@));
    r
}

/// Names of the items whose directory flag is `want`, in order.
pub open spec fn names_of_kind(items: Seq<(Seq<char>, bool)>, want: bool) -> Seq<Seq<char>>
    decreases items.len(),
{
    if items.len() == 0 {
        Seq::empty()
    } else {
        let rest = names_of_kind(items.drop_last(), want);
        if items.last().1 == want {
            rest.push(items.last().0)
        } else {
            rest
        }
    }
}

pub open spec fn items_view(items: Seq<(String, bool)>) -> Seq<(Seq<char>, bool)> {
    items.map_values(|p: (String, bool)| (p.0@, p.1))
}

/// The names of a directory's items, each given with whether it is a
/// directory: the directories first, then the other items, each group in
/// natural order, names that compare equal keeping their order in `items`.
pub fn list_up_contents(items: &Vec<(String, bool)>) -> (r: Vec<String>)
    ensures
        ({
            let d = names_of_kind(items_view(items@), true);
            let f = names_of_kind(items_view(items@), false);
            let s = strings_view(r@);
            &&& s.len() == d.len() + f.len()
            &&& arranges(s.subrange(0, d.len() as int), d)
            &&& arranges(s.subrange(d.len() as int, s.len() as int), f)
            &&& s.subrange(0, d.len() as int) == stable_sorted(d)
            &&& s.subrange(d.len() as int, s.len() as int) == stable_sorted(f)
        }),
{
    let mut dir_v: Vec<String> = Vec::new();
    let mut file_v: Vec<String> = Vec::new();
    let mut i: usize = 0;
    while i < items.len()
        invariant
            i <= items@.len(),
            strings_view(dir_v@) == names_of_kind(items_view(items@).take(i as int), true),
            strings_view(file_v@) == names_of_kind(items_view(items@).take(i as int), false),
        decreases items@.len() - i,
    {
        let ghost pre = items_view(items@).take(i as int);
        let ghost next = items_view(items@).take(i + 1);
        assert(next.drop_last() =~= pre);
        let name = items[i].0.clone();
        let ghost dv = strings_view(dir_v@);
        let ghost fv = strings_view(file_v@);
        if items[i].1 {
            dir_v.push(name);
            assert(strings_view(dir_v@) =~= dv.push(items@[i as int].0@));
        } else {
            file_v.push(name);
            assert(strings_view(file_v@) =~= fv.push(items@[i as int].0@));
        }
        i = i + 1;
    }
    assert(items_view(items@).take(i as int) =~= items_view(items@));
    let mut result = sort_natural(&dir_v);
    let sorted_files = sort_natural(&file_v);
    let ghost sd = strings_view(result@);
    let ghost sf = strings_view(sorted_files@);
    proof {
        vstd::seq_lib::to_multiset_len(sd);
        vstd::seq_lib::to_multiset_len(sf);
        vstd::seq_lib::to_multiset_len(strings_view(dir_v@));
        vstd::seq_lib::to_multiset_len(strings_view(file_v@));
    }
    let mut k: usize = 0;
    while k < sorted_files.len()
        invariant
            k <= sorted_files@.len(),
            sf == strings_view(sorted_files@),
            strings_view(result@) == sd + sf.take(k as int),
        decreases sorted_files@.len() - k,
    {
        let ghost before = strings_view(result@);
        result.push(sorted_files[k].clone());
        assert(strings_view(result@) =~= before.push(sf[k as int]));
        assert(sf.take(k + 1) =~= sf.take(k as int).push(sf[k as int]));
        k = k + 1;
    }
    assert(sf.take(k as int) =~= sf);
    assert(strings_view(result@).subrange(0, sd.len() as int) =~= sd);
    assert(strings_view(result@).subrange(sd.len() as int, strings_view(result@).len() as int) =~= sf);
    result
}

} // verus!
