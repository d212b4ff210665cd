//! Text shown in the info bar and in previews.
use vstd::prelude::*;
use vstd::string::StringExecFns;
use vstd::utf8::is_ascii_chars;
use crate::errors::FxError;

verus! {

/// The character of a digit below 16.
pub open spec fn digit_char(d: nat) -> char {
    if d == 0 { '0' } else if d == 1 { '1' } else if d == 2 { '2' } else if d == 3 { '3' }
    else if d == 4 { '4' } else if d == 5 { '5' } else if d == 6 { '6' } else if d == 7 { '7' }
    else if d == 8 { '8' } else { '9' }
}

/// `n` written in decimal (`base` 10) or octal (`base` 8), without leading
/// zeros.
pub open spec fn digits(n: nat, base: nat) -> Seq<char>
    decreases n,
{
    if base == 10 {
        if n < 10 {
            seq![digit_char(n)]
        } else {
            digits(n / 10, 10).push(digit_char(n % 10))
        }
    } else if base == 8 {
        if n < 8 {
            seq![digit_char(n)]
        } else {
            digits(n / 8, 8).push(digit_char(n % 8))
        }
    } else {
        Seq::empty()
    }
}

/// Relies on String::push: appends one character.
#[verifier::external_body]
pub(crate) fn push_char(s: &mut String, c: char)
    ensures
        final(s)@ == old(s)@.push(c),
{
    s.push(c);
}

fn digit_of(d: u64) -> (c: char)
    requires
        d < 10,
    ensures
        c == digit_char(d as nat),
{
    if d == 0 { '0' } else if d == 1 { '1' } else if d == 2 { '2' } else if d == 3 { '3' }
    else if d == 4 { '4' } else if d == 5 { '5' } else if d == 6 { '6' } else if d == 7 { '7' }
    else if d == 8 { '8' } else { '9' }
}

/// Appends `n` written in base `base`.
pub(crate) fn push_digits(s: &mut String, n: u64, base: u64)
    requires
        base == 8 || base == 10,
    ensures
        final(s)@ == old(s)@ + digits(n as nat, base as nat),
    decreases n,
{
    if n >= base {
        assert(n / base < n) by (nonlinear_arith)
            requires
                n >= base,
                base >= 8,
        ;
        push_digits(s, n / base, base);
    }
    push_char(s, digit_of(n % base));
    assert(final(s)@ =~= old(s)@ + digits(n as nat, base as nat));
}

/// Appends every character of `t`.
pub(crate) fn push_chars(s: &mut String, v: &Vec<char>)
    ensures
        final(s)@ == old(s)@ + v@,
{
    let ghost t = v@;
    let mut i: usize = 0;
    while i < v.len()
        invariant
            v@ == t,
            i <= t.len(),
            s@ == old(s)@ + t.subrange(0, i as int),
        decreases t.len() - i,
    {
        push_char(s, v[i]);
        i = i + 1;
        assert(s@ =~= old(s)@ + t.subrange(0, i as int));
    }
    assert(t.subrange(0, i as int) =~= t);
}

pub open spec fn time_text(t: Seq<char>) -> Seq<char> {
    t.subrange(0, 10) + seq![' '] + t.subrange(11, 16)
}

/// Date and minutes of a modification time written `YYYY-MM-DD HH:MM:SS`;
/// empty when the time is unknown.
///
/// The time is cut at bytes 10, 11 and 16. A time written in that form is
/// ASCII, where each character is one byte, so the result is stated over
/// characters; text with other characters is not a modification time and is
/// not accepted.
pub fn format_time(time: &Option<String>) -> (r: String)
    requires
        time matches Some(t) ==> t@.len() >= 16 && is_ascii_chars(t@),
    ensures
        time matches Some(t) ==> r@ == time_text(t@),
        time is None ==> r@ == Seq::<char>::empty(),
{
    match time {
        Some(datetime) => {
            let d = datetime.as_str();
            let mut r = String::new();
            r.append(d.substring_ascii(0, 10));
            push_char(&mut r, ' ');
            r.append(d.substring_ascii(11, 16));
            assert(r@ =~= time_text(datetime@));
            r
        },
        None => String::new(),
    }
}

/// Progress of a batch: `i + 1` out of `all`, as `"2/4"`.
pub fn display_count(i: usize, all: usize) -> (r: String)
    requires
        i < usize::MAX,
    ensures
        r@ == digits((i + 1) as nat, 10) + seq!['/'] + digits(all as nat, 10),
{
    let mut r = String::new();
    push_digits(&mut r, (i + 1) as u64, 10);
    push_char(&mut r, '/');
    push_digits(&mut r, all as u64, 10);
    assert(r@ =~= digits((i + 1) as nat, 10) + seq!['/'] + digits(all as nat, 10));
    r
}

/// A size in bytes with the largest decimal unit that keeps it at least 1.
pub open spec fn size_text(byte: nat) -> Seq<char> {
    if byte < 1000 {
        digits(byte, 10) + seq!['B']
    } else if byte < 1_000_000 {
        digits(byte / 1000, 10) + seq!['K', 'B']
    } else if byte < 1_000_000_000 {
        digits(byte / 1_000_000, 10) + seq!['M', 'B']
    } else {
        digits(byte / 1_000_000_000, 10) + seq!['G', 'B']
    }
}

/// The size of an item as shown in the listing, such as `"2KB"`.
pub fn to_proper_size(byte: u64) -> (r: String)
    ensures
        r@ == size_text(byte as nat),
{
    let mut r = String::new();
    if byte < 1000 {
        push_digits(&mut r, byte, 10);
        push_char(&mut r, 'B');
    } else if byte < 1_000_000 {
        push_digits(&mut r, byte / 1_000, 10);
        push_char(&mut r, 'K');
        push_char(&mut r, 'B');
    } else if byte < 1_000_000_000 {
        push_digits(&mut r, byte / 1_000_000, 10);
        push_char(&mut r, 'M');
        push_char(&mut r, 'B');
    } else {
        push_digits(&mut r, byte / 1_000_000_000, 10);
        push_char(&mut r, 'G');
        push_char(&mut r, 'B');
    }
    assert(r@ =~= size_text(byte as nat));
    r
}

/// The last three octal digits of a mode, such as `"644"`.
pub open spec fn permissions_text(mode: nat) -> Seq<char> {
    let d = digits(mode, 8);
    if d.len() <= 3 {
        d
    } else {
        d.subrange(d.len() - 3, d.len() as int)
    }
}

/// The permission bits of a file mode in octal.
pub fn convert_to_permissions(permissions: u32) -> (r: String)
    ensures
        r@ == permissions_text(permissions as nat),
{
    let mut all = String::new();
    push_digits(&mut all, permissions as u64, 8);
    let n = all.as_str().unicode_len();
    let from = if n <= 3 { 0 } else { n - 3 };
    let mut r = String::new();
    r.append(all.as_str().substring_char(from, n));
    assert(r@ =~= permissions_text(permissions as nat));
    r
}

/// Whether every character of `s` is ASCII, which the line editor can show.
pub fn is_editable(s: &str) -> (r: bool)
    ensures
        r == s.is_ascii(),
{
    s.is_ascii()
}


pub open spec fn strings_view(v: Seq<String>) -> Seq<Seq<char>> {
    v.map_values(|x: String| x@)
}

/// Line `i` of the tree of `names`: a branch for every name but the last,
/// which gets the closing corner and no line break.
pub open spec fn tree_line(names: Seq<Seq<char>>, i: int) -> Seq<char> {
    if i == names.len() - 1 {
        seq!['\u{2514}', ' '] + names[i]
    } else {
        seq!['\u{251c}', ' '] + names[i] + seq!['\n']
    }
}

/// The first `n` lines of the tree of `names`.
pub open spec fn tree_prefix(names: Seq<Seq<char>>, n: nat) -> Seq<char>
    decreases n,
{
    if n == 0 {
        Seq::empty()
    } else {
        tree_prefix(names, (n - 1) as nat) + tree_line(names, n - 1)
    }
}

/// The contents of a directory drawn as a one-level tree.
pub fn make_tree(v: Vec<String>) -> (r: Result<String, FxError>)
    ensures
        r matches Ok(t) && t@ == tree_prefix(strings_view(v@), v@.len()),
{
    let ghost names = strings_view(v@);
    let len = v.len();
    let mut result = String::new();
    let mut i: usize = 0;
    while i < len
        invariant
            len == v@.len(),
            names == strings_view(v@),
            i <= len,
            result@ == tree_prefix(names, i as nat),
        decreases len - i,
    {
        let path = v[i].as_str();
        if i == len - 1 {
            push_char(&mut result, '\u{2514}');
            push_char(&mut result, ' ');
            result.append(path);
        } else {
            push_char(&mut result, '\u{251c}');
            push_char(&mut result, ' ');
            result.append(path);
            push_char(&mut result, '\n');
        }
        i = i + 1;
        assert(result@ =~= tree_prefix(names, i as nat));
    }
    Ok(result)
}

/// Lines already cut and the line being filled, after one more character.
pub open spec fn wrap_step(done: Seq<Seq<char>>, line: Seq<char>, c: char, column: nat) -> (Seq<Seq<char>>, Seq<char>) {
    if c == '\n' {
        (done.push(line), Seq::empty())
    } else if line.len() + 1 == column {
        (done.push(line.push(c)), Seq::empty())
    } else {
        (done, line.push(c))
    }
}

/// Lines cut and the line being filled after the first `n` characters.
pub open spec fn wrap_prefix(s: Seq<char>, n: nat, column: nat) -> (Seq<Seq<char>>, Seq<char>)
    decreases n,
{
    if n == 0 {
        (Seq::empty(), Seq::empty())
    } else {
        let p = wrap_prefix(s, (n - 1) as nat, column);
        wrap_step(p.0, p.1, s[n - 1], column)
    }
}

/// `s` cut at line breaks and after every `column` characters of a line.
pub open spec fn wrapped(s: Seq<char>, column: nat) -> Seq<Seq<char>> {
    let p = wrap_prefix(s, s.len(), column);
    if p.1.len() > 0 {
        p.0.push(p.1)
    } else {
        p.0
    }
}

/// Cuts text into lines of at most `column` characters for a preview or the
/// help screen; the help screen gets a last line telling how to leave it.
pub fn format_txt(txt: &str, column: u16, is_help: bool) -> (r: Vec<String>)
    ensures
        !is_help ==> strings_view(r@) == wrapped(txt@, column as nat),
        is_help ==> strings_view(r@) == wrapped(txt@, column as nat).push(
            "Press Enter to go back."@,
        ),
{
    let n = txt.unicode_len();
    let mut v: Vec<String> = Vec::new();
    let mut line = String::new();
    let mut count: usize = 0;
    let mut i: usize = 0;
    while i < n
        invariant
            n == txt@.len(),
            i <= n,
            count == line@.len(),
            count <= i,
            (strings_view(v@), line@) == wrap_prefix(txt@, i as nat, column as nat),
        decreases n - i,
    {
        let c = txt.get_char(i);
        let ghost before = strings_view(v@);
        if c == '\n' {
            v.push(line);
            assert(strings_view(v@) =~= before.push(wrap_prefix(txt@, i as nat, column as nat).1));
            line = String::new();
            count = 0;
        } else {
            push_char(&mut line, c);
            count = count + 1;
            if count == column as usize {
                let ghost full = line@;
                v.push(line);
                assert(strings_view(v@) =~= before.push(full));
                line = String::new();
                count = 0;
            }
        }
        i = i + 1;
    }
    if count > 0 {
        let ghost before = strings_view(v@);
        let ghost last = line@;
        v.push(line);
        assert(strings_view(v@) =~= before.push(last));
    }
    if is_help {
        let ghost before = strings_view(v@);
        v.push(String::from_str("Press Enter to go back."));
        assert(strings_view(v@) =~= before.push("Press Enter to go back."@));
    }
    v
}


/// `n` written with exactly `k` decimal digits, keeping leading zeros.
pub open spec fn padded(n: nat, k: nat) -> Seq<char>
    decreases k,
{
    if k == 0 {
        Seq::empty()
    } else {
        padded(n / 10, (k - 1) as nat).push(digit_char(n % 10))
    }
}

/// `s` without its trailing zeros.
pub open spec fn trim_zeros(s: Seq<char>) -> Seq<char>
    decreases s.len(),
{
    if s.len() > 0 && s.last() == '0' {
        trim_zeros(s.drop_last())
    } else {
        s
    }
}

/// A number of seconds in decimal: the whole seconds, then a point and the
/// fraction when there is one, without trailing zeros.
pub open spec fn seconds_decimal(secs: nat, nanos: nat) -> Seq<char> {
    if nanos == 0 {
        digits(secs, 10)
    } else {
        digits(secs, 10) + seq!['.'] + trim_zeros(padded(nanos, 9))
    }
}

/// At most the first four characters of `s`.
pub open spec fn first_four(s: Seq<char>) -> Seq<char> {
    if s.len() <= 4 {
        s
    } else {
        s.subrange(0, 4)
    }
}

fn push_padded(v: &mut Vec<char>, n: u32, k: u32)
    ensures
        final(v)@ == old(v)@ + padded(n as nat, k as nat),
    decreases k,
{
    if k > 0 {
        push_padded(v, n / 10, k - 1);
        v.push(digit_of((n % 10) as u64));
    }
    assert(final(v)@ =~= old(v)@ + padded(n as nat, k as nat));
}

/// Relies on Duration::as_secs: the whole seconds of a duration.
#[verifier::external_body]
fn whole_seconds(d: &std::time::Duration) -> (r: u64) {
    d.as_secs()
}

/// Relies on Duration::subsec_nanos: the fraction of a second, in
/// nanoseconds, which std documents as less than one billion.
#[verifier::external_body]
fn fraction_nanos(d: &std::time::Duration) -> (r: u32)
    ensures
        r < 1_000_000_000,
{
    d.subsec_nanos()
}

/// The time a batch took, as the first four characters of its seconds in
/// decimal followed by `s`, such as `"5.43s"`.
pub fn seconds_text(secs: u64, nanos: u32) -> (r: String)
    requires
        nanos < 1_000_000_000,
    ensures
        r@ == first_four(seconds_decimal(secs as nat, nanos as nat)).push('s'),
{
    let mut full = String::new();
    push_digits(&mut full, secs, 10);
    if nanos != 0 {
        push_char(&mut full, '.');
        let mut frac: Vec<char> = Vec::new();
        push_padded(&mut frac, nanos, 9);
        assert(frac@ =~= padded(nanos as nat, 9));
        while frac.len() > 0 && frac[frac.len() - 1] == '0'
            invariant
                trim_zeros(frac@) == trim_zeros(padded(nanos as nat, 9)),
            decreases frac@.len(),
        {
            frac.pop();
        }
        push_chars(&mut full, &frac);
    }
    assert(full@ =~= seconds_decimal(secs as nat, nanos as nat));
    let n = full.as_str().unicode_len();
    let end = if n <= 4 { n } else { 4 };
    let mut r = String::new();
    r.append(full.as_str().substring_char(0, end));
    push_char(&mut r, 's');
    assert(r@ =~= first_four(seconds_decimal(secs as nat, nanos as nat)).push('s'));
    r
}

/// The time a batch took, such as `"5.43s"`; see `seconds_text`.
pub fn duration_to_string(duration: std::time::Duration) -> (r: String)
    ensures
        exists|secs: u64, nanos: u32|
            nanos < 1_000_000_000 && r@ == first_four(seconds_decimal(secs as nat, nanos as nat)).push(
                's',
            ),
{
    let secs = whole_seconds(&duration);
    let nanos = fraction_nanos(&duration);
    seconds_text(secs, nanos)
}

} // verus!
