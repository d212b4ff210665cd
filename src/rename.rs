//! New names for pasted items that would collide with existing ones.
use vstd::prelude::*;
use crate::functions::{digit_char, digits, push_char, push_chars, push_digits, strings_view};
use crate::listing::chars_of;

verus! {

broadcast use vstd::seq_lib::seq_to_set_is_finite;

/// Index of the last `.` of `s`, or -1.
pub open spec fn last_dot(s: Seq<char>) -> int
    decreases s.len(),
{
    if s.len() == 0 {
        -1
    } else if s.last() == '.' {
        s.len() - 1
    } else {
        last_dot(s.drop_last())
    }
}

/// Where a file name splits into stem and extension: at its last `.`, unless
/// that `.` starts the name or the name is `..`; names without an extension
/// split at their end. Directory names always split at their end.
pub open spec fn split_point(name: Seq<char>, is_file: bool) -> int {
    let d = last_dot(name);
    if !is_file || name == seq!['.', '.'] || d <= 0 {
        name.len() as int
    } else {
        d
    }
}

/// `_` and `k` in decimal.
pub open spec fn suffix(k: nat) -> Seq<char> {
    seq!['_'] + digits(k, 10)
}

/// The `k`-th name tried for `name`: the name itself, then `_1`, `_2`, ...
/// put before the extension of a file or after the name of a directory.
pub open spec fn candidate(name: Seq<char>, k: nat, is_file: bool) -> Seq<char> {
    let p = split_point(name, is_file);
    if k == 0 {
        name
    } else {
        name.subrange(0, p) + suffix(k) + name.subrange(p, name.len() as int)
    }
}

/// The first candidate that no existing name takes.
pub open spec fn is_resolution(r: Seq<char>, name: Seq<char>, names: Seq<Seq<char>>, is_file: bool) -> bool {
    exists|k: nat|
        r == candidate(name, k, is_file) && !names.contains(r) && forall|j: nat|
            j < k ==> names.contains(#[trigger] candidate(name, j, is_file))
}

proof fn lemma_digits_len(n: nat)
    ensures
        digits(n, 10).len() >= 1,
        n >= 10 ==> digits(n, 10).len() >= 2,
    decreases n,
{
    if n >= 10 {
        lemma_digits_len(n / 10);
    }
}

proof fn lemma_digits_injective(a: nat, b: nat)
    requires
        digits(a, 10) == digits(b, 10),
    ensures
        a == b,
    decreases a,
{
    lemma_digits_len(a);
    lemma_digits_len(b);
    let da = digits(a, 10);
    let db = digits(b, 10);
    if a >= 10 && b >= 10 {
        assert(da.drop_last() =~= digits(a / 10, 10));
        assert(db.drop_last() =~= digits(b / 10, 10));
        assert(da.last() == digit_char(a % 10));
        assert(db.last() == digit_char(b % 10));
        assert(a % 10 == b % 10);
        lemma_digits_injective(a / 10, b / 10);
    } else if a < 10 && b < 10 {
        assert(da[0] == digit_char(a));
        assert(db[0] == digit_char(b));
    }
}

/// Different counters give different names.
proof fn lemma_candidate_injective(name: Seq<char>, k: nat, j: nat, is_file: bool)
    requires
        candidate(name, k, is_file) == candidate(name, j, is_file),
    ensures
        k == j,
{
    let p = split_point(name, is_file);
    assert(0 <= last_dot(name) < name.len() || last_dot(name) == -1) by {
        lemma_last_dot_range(name);
    }
    let ck = candidate(name, k, is_file);
    if k != 0 && j != 0 {
        lemma_digits_len(k);
        lemma_digits_len(j);
        let sk = suffix(k);
        let sj = suffix(j);
        let cj = candidate(name, j, is_file);
        assert(0 <= p <= name.len());
        assert(ck.len() == p + sk.len() + (name.len() - p));
        assert(cj.len() == p + sj.len() + (name.len() - p));
        assert(sk.len() == sj.len());
        assert(ck.subrange(p, p + sk.len()) =~= sk);
        assert(candidate(name, j, is_file).subrange(p, p + sj.len()) =~= sj);
        assert(sk.drop_first() =~= digits(k, 10));
        assert(sj.drop_first() =~= digits(j, 10));
        lemma_digits_injective(k, j);
    } else if k != 0 || j != 0 {
        lemma_digits_len(k);
        lemma_digits_len(j);
        assert(name.subrange(0, p) + name.subrange(p, name.len() as int) =~= name);
    }
}

proof fn lemma_last_dot_range(s: Seq<char>)
    ensures
        -1 <= last_dot(s) < s.len(),
        last_dot(s) >= 0 ==> s[last_dot(s)] == '.',
    decreases s.len(),
{
    if s.len() > 0 && s.last() != '.' {
        lemma_last_dot_range(s.drop_last());
    }
}

fn find_split(name: &Vec<char>, is_file: bool) -> (r: usize)
    ensures
        r == split_point(name@, is_file),
{
    let len = name.len();
    if !is_file || (len == 2 && name[0] == '.' && name[1] == '.') {
        assert(len == 2 && name@[0] == '.' && name@[1] == '.' ==> name@ =~= seq!['.', '.']);
        return len;
    }
    assert(name@ != seq!['.', '.']) by {
        if name@ == seq!['.', '.'] {
            assert(name@.len() == 2 && name@[0] == '.' && name@[1] == '.');
        }
    }
    let mut i: usize = len;
    assert(name@.subrange(0, len as int) =~= name@);
    while i > 0 && name[i - 1] != '.'
        invariant
            i <= len,
            len == name@.len(),
            last_dot(name@) == last_dot(name@.subrange(0, i as int)),
        decreases i,
    {
        assert(name@.subrange(0, i as int).drop_last() =~= name@.subrange(0, i - 1));
        i = i - 1;
    }
    if i <= 1 {
        len
    } else {
        i - 1
    }
}

/// Whether one of `names` is `s`.
fn contains_name(names: &Vec<String>, s: &String) -> (r: bool)
    ensures
        r == strings_view(names@).contains(s@),
{
    let mut i: usize = 0;
    while i < names.len()
        invariant
            i <= names@.len(),
            forall|j: int| 0 <= j < i ==> names@[j]@ != s@,
        decreases names@.len() - i,
    {
        if names[i] == *s {
            assert(strings_view(names@)[i as int] == s@);
            return true;
        }
        i = i + 1;
    }
    assert forall|j: int| 0 <= j < strings_view(names@).len() implies strings_view(names@)[j] != s@ by {
        assert(names@[j]@ != s@);
    }
    false
}

/// The `k`-th candidate for a name split at `p`.
fn build_candidate(name: &Vec<char>, p: usize, k: u64, is_file: bool) -> (r: String)
    requires
        p == split_point(name@, is_file),
        k >= 1,
    ensures
        r@ == candidate(name@, k as nat, is_file),
{
    let mut stem: Vec<char> = Vec::new();
    let mut rest: Vec<char> = Vec::new();
    let mut i: usize = 0;
    assert(0 <= p <= name@.len()) by {
        lemma_last_dot_range(name@);
    }
    while i < name.len()
        invariant
            i <= name@.len(),
            p <= name@.len(),
            i <= p ==> stem@ == name@.subrange(0, i as int) && rest@ == Seq::<char>::empty(),
            i > p ==> stem@ == name@.subrange(0, p as int) && rest@ == name@.subrange(
                p as int,
                i as int,
            ),
        decreases name@.len() - i,
    {
        if i < p {
            stem.push(name[i]);
        } else {
            rest.push(name[i]);
        }
        i = i + 1;
        assert(i <= p ==> stem@ =~= name@.subrange(0, i as int));
        assert(i > p ==> stem@ =~= name@.subrange(0, p as int));
        assert(i > p ==> rest@ =~= name@.subrange(p as int, i as int));
    }
    assert(stem@ =~= name@.subrange(0, p as int));
    assert(rest@ =~= name@.subrange(p as int, name@.len() as int));
    let mut r = String::new();
    push_chars(&mut r, &stem);
    push_char(&mut r, '_');
    push_digits(&mut r, k, 10);
    push_chars(&mut r, &rest);
    assert(r@ =~= candidate(name@, k as nat, is_file));
    r
}

/// The first of `name`, `name_1`, `name_2`, ... that none of `names` takes.
fn resolve(name: &str, names: &Vec<String>, is_file: bool) -> (r: String)
    requires
        names@.len() < usize::MAX,
    ensures
        is_resolution(r@, name@, strings_view(names@), is_file),
{
    let ghost all = strings_view(names@);
    let ghost taken = all.to_set();
    let chars = chars_of(name);
    let p = find_split(&chars, is_file);
    let mut count: usize = 1;
    let mut new_name = String::from_str(name);
    let ghost mut rest = taken;
    proof {
        all.lemma_cardinality_of_set();
    }
    while contains_name(names, &new_name)
        invariant
            chars@ == name@,
            p == split_point(name@, is_file),
            all == strings_view(names@),
            taken == all.to_set(),
            taken.len() <= all.len(),
            all.len() < usize::MAX,
            1 <= count,
            new_name@ == candidate(name@, (count - 1) as nat, is_file),
            forall|j: nat| j < count - 1 ==> all.contains(#[trigger] candidate(name@, j, is_file)),
            rest.finite(),
            rest.subset_of(taken),
            rest.len() + count - 1 == taken.len(),
            forall|x: Seq<char>|
                taken.contains(x) && !rest.contains(x) ==> exists|j: nat|
                    j < count - 1 && x == #[trigger] candidate(name@, j, is_file),
        decreases rest.len(),
    {
        let ghost cur = new_name@;
        proof {
            assert(taken.contains(cur));
            if !rest.contains(cur) {
                let j = choose|j: nat| j < count - 1 && cur == #[trigger] candidate(name@, j, is_file);
                lemma_candidate_injective(name@, j, (count - 1) as nat, is_file);
            }
            assert(rest.contains(cur));
            assert(rest.remove(cur).len() == rest.len() - 1);
            assert forall|x: Seq<char>|
                taken.contains(x) && !rest.remove(cur).contains(x) implies exists|j: nat|
                    j < count && x == #[trigger] candidate(name@, j, is_file) by {
                if x == cur {
                    assert(x == candidate(name@, (count - 1) as nat, is_file));
                } else {
                    assert(!rest.contains(x));
                }
            }
            rest = rest.remove(cur);
        }
        count = count + 1;
        new_name = build_candidate(&chars, p, count as u64 - 1, is_file);
    }
    new_name
}

/// A name for a pasted file that none of `name_set` takes: `file_name`
/// itself, else the first free `stem_N.ext` (or `name_N` without an
/// extension) for N = 1, 2, ...
pub fn rename_file(file_name: &str, name_set: &Vec<String>) -> (r: String)
    requires
        name_set@.len() < usize::MAX,
    ensures
        is_resolution(r@, file_name@, strings_view(name_set@), true),
{
    resolve(file_name, name_set, true)
}

/// A name for a pasted directory that none of `name_set` takes: `dir_name`
/// itself, else the first free `dir_name_N` for N = 1, 2, ...
pub fn rename_dir(dir_name: &str, name_set: &Vec<String>) -> (r: String)
    requires
        name_set@.len() < usize::MAX,
    ensures
        is_resolution(r@, dir_name@, strings_view(name_set@), false),
{
    resolve(dir_name, name_set, false)
}

} // verus!
