//! Entries of a directory listing and the substring filter over them.
use vstd::prelude::*;

verus! {

/// Kind of a filesystem item.
#[derive(Clone, Copy, Debug, PartialEq, Eq, Structural)]
pub enum FileType {
    File,
    Directory,
    Symlink,
}

/// Key by which a directory scan orders its entries.
#[derive(Clone, Copy, Debug, PartialEq, Eq, Structural)]
pub enum SortKey {
    Name,
    Time,
}

/// One item of a directory listing, as a directory scan reports it.
#[derive(Debug)]
pub struct Entry {
    pub file_name: String,
    pub file_path: String,
    pub file_type: FileType,
    pub selected: bool,
    pub file_size: u64,
    pub modified: Option<String>,
}

/// What an entry holds, as plain values.
pub struct EntryView {
    pub name: Seq<char>,
    pub path: Seq<char>,
    pub file_type: FileType,
    pub selected: bool,
    pub size: u64,
    pub modified: Option<Seq<char>>,
}

pub open spec fn opt_view(o: Option<String>) -> Option<Seq<char>> {
    match o {
        Some(s) => Some(s@),
        None => None,
    }
}

impl Entry {
    pub open spec fn view(&self) -> EntryView {
        EntryView {
            name: self.file_name@,
            path: self.file_path@,
            file_type: self.file_type,
            selected: self.selected,
            size: self.file_size,
            modified: opt_view(self.modified),
        }
    }

    /// A copy of the entry.
    pub fn duplicate(&self) -> (r: Entry)
        ensures
            r.view() == self.view(),
    {
        let modified = match &self.modified {
            Some(m) => Some(m.clone()),
            None => None,
        };
        Entry {
            file_name: self.file_name.clone(),
            file_path: self.file_path.clone(),
            file_type: self.file_type,
            selected: self.selected,
            file_size: self.file_size,
            modified,
        }
    }
}

/// What a listing holds, entry by entry.
pub open spec fn listing_view(l: Seq<Entry>) -> Seq<EntryView> {
    l.map_values(|e: Entry| e.view())
}

/// `needle` occurs in `hay` as a contiguous run of characters.
pub open spec fn has_substring(hay: Seq<char>, needle: Seq<char>) -> bool {
    exists|i: int|
        0 <= i && i + needle.len() <= hay.len() && #[trigger] hay.subrange(i, i + needle.len())
            == needle
}

/// The entries whose name contains `keyword`, in their order.
pub open spec fn filtered(l: Seq<EntryView>, keyword: Seq<char>) -> Seq<EntryView> {
    l.filter(|e: EntryView| has_substring(e.name, keyword))
}

/// The characters of `s`, in order.
pub fn chars_of(s: &str) -> (r: Vec<char>)
    ensures
        r@ == s@,
{
    let n = s.unicode_len();
    let mut r: Vec<char> = Vec::new();
    let mut i: usize = 0;
    while i < n
        invariant
            n == s@.len(),
            i <= n,
            r@ == s@.subrange(0, i as int),
        decreases n - i,
    {
        r.push(s.get_char(i));
        i = i + 1;
        assert(r@ =~= s@.subrange(0, i as int));
    }
    assert(r@ =~= s@);
    r
}

/// Case-sensitive substring test.
pub fn contains_chars(hay: &Vec<char>, needle: &Vec<char>) -> (r: bool)
    ensures
        r == has_substring(hay@, needle@),
{
    let n = needle.len();
    let hl = hay.len();
    if n == 0 {
        assert(hay@.subrange(0, 0 + needle@.len() as int) =~= needle@);
        return true;
    }
    if n > hl {
        assert forall|i: int|
            0 <= i && i + n <= hay@.len() implies #[trigger] hay@.subrange(i, i + n)
            != needle@ by {}
        return false;
    }
    let last = hl - n;
    let mut i: usize = 0;
    while i <= last
        invariant
            n == needle@.len(),
            n > 0,
            hl == hay@.len(),
            last + n == hl,
            i <= last + 1,
            forall|j: int| 0 <= j < i ==> #[trigger] hay@.subrange(j, j + n) != needle@,
        decreases last + 1 - i,
    {
        let mut k: usize = 0;
        while k < n && hay[i + k] == needle[k]
            invariant
                n == needle@.len(),
                i <= last,
                hl == hay@.len(),
                last + n == hl,
                k <= n,
                forall|m: int| 0 <= m < k ==> hay@[i + m] == needle@[m],
            decreases n - k,
        {
            k = k + 1;
        }
        if k == n {
            assert(hay@.subrange(i as int, i + n) =~= needle@);
            return true;
        }
        assert(hay@.subrange(i as int, i + n)[k as int] != needle@[k as int]);
        i = i + 1;
    }
    assert forall|j: int|
        0 <= j && j + n <= hay@.len() implies #[trigger] hay@.subrange(j, j + n) != needle@ by {
        assert(j < i);
    }
    false
}

/// The entries of `original` whose name contains `keyword`, always computed
/// afresh from `original`.
pub fn filter_listing(original: &Vec<Entry>, keyword: &Vec<char>) -> (r: Vec<Entry>)
    ensures
        listing_view(r@) == filtered(listing_view(original@), keyword@),
{
    let ghost p = |e: EntryView| has_substring(e.name, keyword@);
    let mut r: Vec<Entry> = Vec::new();
    let mut i: usize = 0;
    while i < original.len()
        invariant
            i <= original@.len(),
            p == (|e: EntryView| has_substring(e.name, keyword@)),
            listing_view(r@) == listing_view(original@).take(i as int).filter(p),
        decreases original@.len() - i,
    {
        let ghost before = listing_view(original@).take(i as int);
        let ghost after = listing_view(original@).take(i + 1);
        assert(after.drop_last() =~= before);
        assert(after.last() == original@[i as int].view());
        reveal_with_fuel(Seq::filter, 1);
        let name = chars_of(original[i].file_name.as_str());
        if contains_chars(&name, keyword) {
            let e = original[i].duplicate();
            r.push(e);
            assert(listing_view(r@) =~= before.filter(p).push(original@[i as int].view()));
        } else {
            assert(!p(after.last()));
        }
        i = i + 1;
    }
    assert(listing_view(original@).take(i as int) =~= listing_view(original@));
    r
}

} // verus!
