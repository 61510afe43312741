//! Character-sequence model of the string operations the library relies on.
//!
//! Strings are modelled by their view, a `Seq<char>`. Every executable helper here
//! works on `Vec<char>` and is proved against a spec function over `Seq<char>`.
use vstd::prelude::*;

verus! {

// ---------------------------------------------------------------------------
// Conversions between `str`/`String` and character vectors
// ---------------------------------------------------------------------------

/// Collects the characters of a string slice.
pub fn chars_of(s: &str) -> (r: Vec<char>)
    ensures
        r@ == s@,
{
    let mut r: Vec<char> = Vec::new();
    for c in it: s.chars()
        invariant
            r@ == it.seq().take(it.index() as int),
            it.seq() == s@,
    {
        r.push(c);
    }
    r
}

/// Builds a `String` from a sequence of characters (`FromIterator<&char>` for `String`).
#[verifier::external_body]
pub(crate) fn string_of(v: &Vec<char>) -> (s: String)
    ensures
        s@ == v@,
{
    v.iter().collect()
}

// ---------------------------------------------------------------------------
// Character classes
// ---------------------------------------------------------------------------

/// The Unicode `White_Space` property, which `char::is_whitespace` and the
/// regular-expression class `\s` both follow.
pub open spec fn is_ws(c: char) -> bool {
    ||| ('\u{9}' <= c && c <= '\u{d}')
    ||| c == ' '
    ||| c == '\u{85}'
    ||| c == '\u{a0}'
    ||| c == '\u{1680}'
    ||| ('\u{2000}' <= c && c <= '\u{200a}')
    ||| c == '\u{2028}'
    ||| c == '\u{2029}'
    ||| c == '\u{202f}'
    ||| c == '\u{205f}'
    ||| c == '\u{3000}'
}

pub fn is_whitespace(c: char) -> (r: bool)
    ensures
        r == is_ws(c),
{
    ('\u{9}' <= c && c <= '\u{d}') || c == ' ' || c == '\u{85}' || c == '\u{a0}' || c
        == '\u{1680}' || ('\u{2000}' <= c && c <= '\u{200a}') || c == '\u{2028}' || c
        == '\u{2029}' || c == '\u{202f}' || c == '\u{205f}' || c == '\u{3000}'
}

/// General category `Cc`, which is what `char::is_control` tests.
pub open spec fn is_control_char(c: char) -> bool {
    c <= '\u{1f}' || ('\u{7f}' <= c && c <= '\u{9f}')
}

pub open spec fn is_ascii_digit(c: char) -> bool {
    '0' <= c && c <= '9'
}

pub open spec fn is_ascii_hexdigit(c: char) -> bool {
    ||| ('0' <= c && c <= '9')
    ||| ('a' <= c && c <= 'f')
    ||| ('A' <= c && c <= 'F')
}

pub open spec fn is_ascii_upper(c: char) -> bool {
    'A' <= c && c <= 'Z'
}

/// `char::to_ascii_lowercase`.
pub open spec fn ascii_lower_char(c: char) -> char {
    if is_ascii_upper(c) {
        ((c as u32) + 32) as char
    } else {
        c
    }
}

pub fn to_ascii_lower_char(c: char) -> (r: char)
    ensures
        r == ascii_lower_char(c),
{
    if 'A' <= c && c <= 'Z' {
        let u: u32 = c as u32 + 32;
        assert(0x61 <= u <= 0x7a);
        char_from_ascii(u)
    } else {
        c
    }
}

/// Converts an ASCII code point to its character.
fn char_from_ascii(u: u32) -> (c: char)
    requires
        u < 128,
    ensures
        c == u as char,
{
    let b = u as u8;
    b as char
}

/// All characters are ASCII.
pub open spec fn all_ascii(s: Seq<char>) -> bool {
    forall|i: int| 0 <= i < s.len() ==> (s[i] as u32) < 128
}

/// Character-wise `to_ascii_lowercase`.
pub open spec fn ascii_lower(s: Seq<char>) -> Seq<char> {
    s.map_values(|c: char| ascii_lower_char(c))
}

/// `str::eq_ignore_ascii_case`.
/// The lowercase of a text as `str::to_lowercase` gives it: the character-wise ASCII
/// lowercase of an all-ASCII text, else the Unicode mapping named `lowercase`.
pub open spec fn text_lower(s: Seq<char>) -> Seq<char> {
    if all_ascii(s) {
        ascii_lower(s)
    } else {
        crate::external::lowercase(s)
    }
}

pub open spec fn eq_ignore_ascii_case(a: Seq<char>, b: Seq<char>) -> bool {
    ascii_lower(a) == ascii_lower(b)
}

pub fn chars_eq_ignore_ascii_case(a: &Vec<char>, b: &Vec<char>) -> (r: bool)
    ensures
        r == eq_ignore_ascii_case(a@, b@),
{
    if a.len() != b.len() {
        assert(ascii_lower(a@).len() != ascii_lower(b@).len());
        return false;
    }
    let mut i: usize = 0;
    while i < a.len()
        invariant
            a.len() == b.len(),
            i <= a.len(),
            forall|j: int| 0 <= j < i ==> ascii_lower_char(a@[j]) == ascii_lower_char(b@[j]),
        decreases a.len() - i,
    {
        if to_ascii_lower_char(a[i]) != to_ascii_lower_char(b[i]) {
            assert(ascii_lower(a@)[i as int] != ascii_lower(b@)[i as int]);
            return false;
        }
        i += 1;
    }
    assert(ascii_lower(a@) =~= ascii_lower(b@));
    true
}

// ---------------------------------------------------------------------------
// Equality, prefixes, suffixes
// ---------------------------------------------------------------------------

pub fn chars_eq(a: &Vec<char>, b: &Vec<char>) -> (r: bool)
    ensures
        r == (a@ == b@),
{
    if a.len() != b.len() {
        return false;
    }
    let mut i: usize = 0;
    while i < a.len()
        invariant
            a.len() == b.len(),
            i <= a.len(),
            forall|j: int| 0 <= j < i ==> a@[j] == b@[j],
        decreases a.len() - i,
    {
        if a[i] != b[i] {
            return false;
        }
        i += 1;
    }
    assert(a@ =~= b@);
    true
}

/// Whether `p` occurs in `s` at position `i`.
pub open spec fn matches_at(s: Seq<char>, p: Seq<char>, i: int) -> bool {
    0 <= i && i + p.len() <= s.len() && s.subrange(i, i + p.len()) == p
}

pub open spec fn starts_with(s: Seq<char>, p: Seq<char>) -> bool {
    matches_at(s, p, 0)
}

pub open spec fn ends_with(s: Seq<char>, p: Seq<char>) -> bool {
    matches_at(s, p, s.len() - p.len())
}

/// Compares a character vector with a string literal.
pub fn eq_lit(s: &Vec<char>, lit: &str) -> (r: bool)
    ensures
        r == (s@ == lit@),
{
    chars_eq(s, &chars_of(lit))
}

pub fn matches_at_exec(s: &Vec<char>, p: &Vec<char>, i: usize) -> (r: bool)
    ensures
        r == matches_at(s@, p@, i as int),
{
    if i > s.len() || p.len() > s.len() - i {
        return false;
    }
    let mut k: usize = 0;
    while k < p.len()
        invariant
            i + p.len() <= s.len(),
            k <= p.len(),
            forall|j: int| 0 <= j < k ==> s@[i + j] == p@[j],
        decreases p.len() - k,
    {
        if s[i + k] != p[k] {
            assert(s@.subrange(i as int, i + p.len())[k as int] != p@[k as int]);
            return false;
        }
        k += 1;
    }
    assert(s@.subrange(i as int, i + p.len()) =~= p@);
    true
}

pub fn has_prefix(s: &Vec<char>, p: &Vec<char>) -> (r: bool)
    ensures
        r == starts_with(s@, p@),
{
    matches_at_exec(s, p, 0)
}

pub fn has_suffix(s: &Vec<char>, p: &Vec<char>) -> (r: bool)
    ensures
        r == ends_with(s@, p@),
{
    if p.len() > s.len() {
        return false;
    }
    matches_at_exec(s, p, s.len() - p.len())
}

// ---------------------------------------------------------------------------
// Searching
// ---------------------------------------------------------------------------

/// Index of the leftmost occurrence of `p` in `s` (`str::find`).
pub open spec fn find_from(s: Seq<char>, p: Seq<char>, i: int) -> Option<int>
    decreases s.len() + 1 - i,
{
    if i < 0 || i + p.len() > s.len() {
        None
    } else if matches_at(s, p, i) {
        Some(i)
    } else {
        find_from(s, p, i + 1)
    }
}

pub open spec fn find(s: Seq<char>, p: Seq<char>) -> Option<int> {
    find_from(s, p, 0)
}

pub open spec fn contains(s: Seq<char>, p: Seq<char>) -> bool {
    find(s, p) is Some
}

pub proof fn lemma_find_from(s: Seq<char>, p: Seq<char>, i: int)
    requires
        0 <= i,
    ensures
        match find_from(s, p, i) {
            Some(k) => i <= k && matches_at(s, p, k) && forall|j: int|
                i <= j < k ==> !matches_at(s, p, j),
            None => forall|j: int| i <= j ==> !matches_at(s, p, j),
        },
    decreases s.len() + 1 - i,
{
    if i + p.len() > s.len() {
    } else if matches_at(s, p, i) {
    } else {
        lemma_find_from(s, p, i + 1);
    }
}

/// `find` is exactly the least index at which `p` occurs.
pub proof fn lemma_find(s: Seq<char>, p: Seq<char>)
    ensures
        match find(s, p) {
            Some(k) => 0 <= k && matches_at(s, p, k) && forall|j: int|
                0 <= j < k ==> !matches_at(s, p, j),
            None => forall|j: int| 0 <= j ==> !matches_at(s, p, j),
        },
{
    lemma_find_from(s, p, 0);
}

pub fn find_from_exec(s: &Vec<char>, p: &Vec<char>, start: usize) -> (r: Option<usize>)
    ensures
        match r {
            Some(k) => find_from(s@, p@, start as int) == Some(k as int),
            None => find_from(s@, p@, start as int) is None,
        },
{
    if start > s.len() || p.len() > s.len() - start {
        return None;
    }
    let mut i: usize = start;
    let last: usize = s.len() - p.len();
    loop
        invariant
            start <= i <= last,
            last + p.len() == s.len(),
            find_from(s@, p@, start as int) == find_from(s@, p@, i as int),
        decreases last - i,
    {
        if matches_at_exec(s, p, i) {
            return Some(i);
        }
        if i == last {
            assert(find_from(s@, p@, (i + 1) as int) is None);
            return None;
        }
        i += 1;
    }
}

pub fn find_exec(s: &Vec<char>, p: &Vec<char>) -> (r: Option<usize>)
    ensures
        match r {
            Some(k) => find(s@, p@) == Some(k as int),
            None => find(s@, p@) is None,
        },
{
    find_from_exec(s, p, 0)
}

pub fn contains_exec(s: &Vec<char>, p: &Vec<char>) -> (r: bool)
    ensures
        r == contains(s@, p@),
{
    find_exec(s, p).is_some()
}

/// Index of the rightmost occurrence of character `c` (`str::rfind` with a char).
pub open spec fn rfind_char_below(s: Seq<char>, c: char, n: int) -> Option<int>
    decreases n,
{
    if n <= 0 {
        None
    } else if s[n - 1] == c {
        Some(n - 1)
    } else {
        rfind_char_below(s, c, n - 1)
    }
}

pub open spec fn rfind_char(s: Seq<char>, c: char) -> Option<int> {
    rfind_char_below(s, c, s.len() as int)
}

pub proof fn lemma_rfind_char_below(s: Seq<char>, c: char, n: int)
    requires
        n <= s.len(),
    ensures
        match rfind_char_below(s, c, n) {
            Some(k) => 0 <= k < n && s[k] == c && forall|j: int| k < j < n ==> s[j] != c,
            None => forall|j: int| 0 <= j < n ==> s[j] != c,
        },
    decreases n,
{
    if n > 0 && s[n - 1] != c {
        lemma_rfind_char_below(s, c, n - 1);
    }
}

pub fn rfind_char_exec(s: &Vec<char>, c: char) -> (r: Option<usize>)
    ensures
        match r {
            Some(k) => rfind_char(s@, c) == Some(k as int),
            None => rfind_char(s@, c) is None,
        },
{
    let mut n: usize = s.len();
    while n > 0
        invariant
            n <= s.len(),
            rfind_char(s@, c) == rfind_char_below(s@, c, n as int),
        decreases n,
    {
        if s[n - 1] == c {
            return Some(n - 1);
        }
        n -= 1;
    }
    None
}

pub open spec fn has_char(s: Seq<char>, c: char) -> bool {
    exists|i: int| 0 <= i < s.len() && s[i] == c
}

pub fn has_char_exec(s: &Vec<char>, c: char) -> (r: bool)
    ensures
        r == has_char(s@, c),
{
    let mut i: usize = 0;
    while i < s.len()
        invariant
            i <= s.len(),
            forall|j: int| 0 <= j < i ==> s@[j] != c,
        decreases s.len() - i,
    {
        if s[i] == c {
            return true;
        }
        i += 1;
    }
    false
}

// ---------------------------------------------------------------------------
// Slicing
// ---------------------------------------------------------------------------

pub fn slice(s: &Vec<char>, from: usize, to: usize) -> (r: Vec<char>)
    requires
        from <= to <= s.len(),
    ensures
        r@ == s@.subrange(from as int, to as int),
{
    let mut r: Vec<char> = Vec::new();
    let mut i: usize = from;
    while i < to
        invariant
            from <= i <= to,
            to <= s.len(),
            r@ == s@.subrange(from as int, i as int),
        decreases to - i,
    {
        r.push(s[i]);
        i += 1;
        assert(r@ =~= s@.subrange(from as int, i as int));
    }
    r
}

pub fn concat(a: &Vec<char>, b: &Vec<char>) -> (r: Vec<char>)
    ensures
        r@ == a@ + b@,
{
    let mut r = a.clone();
    let mut i: usize = 0;
    while i < b.len()
        invariant
            i <= b.len(),
            r@ == a@ + b@.take(i as int),
        decreases b.len() - i,
    {
        r.push(b[i]);
        i += 1;
        assert(r@ =~= a@ + b@.take(i as int));
    }
    assert(b@.take(b.len() as int) =~= b@);
    r
}

pub fn append(r: &mut Vec<char>, b: &Vec<char>)
    ensures
        final(r)@ == old(r)@ + b@,
{
    let mut i: usize = 0;
    while i < b.len()
        invariant
            i <= b.len(),
            r@ == old(r)@ + b@.take(i as int),
        decreases b.len() - i,
    {
        r.push(b[i]);
        i += 1;
        assert(r@ =~= old(r)@ + b@.take(i as int));
    }
    assert(b@.take(b.len() as int) =~= b@);
}


// ---------------------------------------------------------------------------
// Trimming
// ---------------------------------------------------------------------------

/// Which characters a trim removes.
#[derive(Clone, Copy, PartialEq, Eq, Debug)]
pub enum TrimSet {
    /// `char::is_whitespace`
    Whitespace,
    /// one given character
    Only(char),
    /// whitespace or one given character
    WhitespaceOr(char),
}

pub open spec fn in_set(set: TrimSet, c: char) -> bool {
    match set {
        TrimSet::Whitespace => is_ws(c),
        TrimSet::Only(x) => c == x,
        TrimSet::WhitespaceOr(x) => is_ws(c) || c == x,
    }
}

pub fn in_set_exec(set: TrimSet, c: char) -> (r: bool)
    ensures
        r == in_set(set, c),
{
    match set {
        TrimSet::Whitespace => is_whitespace(c),
        TrimSet::Only(x) => c == x,
        TrimSet::WhitespaceOr(x) => is_whitespace(c) || c == x,
    }
}

/// Removes leading characters of `set` (`trim_start`, `trim_start_matches`).
pub open spec fn trim_start(s: Seq<char>, set: TrimSet) -> Seq<char>
    decreases s.len(),
{
    if s.len() > 0 && in_set(set, s[0]) {
        trim_start(s.drop_first(), set)
    } else {
        s
    }
}

/// Removes trailing characters of `set` (`trim_end`, `trim_end_matches`).
pub open spec fn trim_end(s: Seq<char>, set: TrimSet) -> Seq<char>
    decreases s.len(),
{
    if s.len() > 0 && in_set(set, s.last()) {
        trim_end(s.drop_last(), set)
    } else {
        s
    }
}

/// Removes characters of `set` at both ends (`trim`, `trim_matches`).
pub open spec fn trim_both(s: Seq<char>, set: TrimSet) -> Seq<char> {
    trim_end(trim_start(s, set), set)
}

pub open spec fn trim(s: Seq<char>) -> Seq<char> {
    trim_both(s, TrimSet::Whitespace)
}

pub proof fn lemma_trim_start_shape(s: Seq<char>, set: TrimSet)
    ensures
        trim_start(s, set).len() <= s.len(),
        trim_start(s, set) == s.skip(s.len() - trim_start(s, set).len()),
        trim_start(s, set).len() > 0 ==> !in_set(set, trim_start(s, set)[0]),
        forall|i: int| 0 <= i < s.len() - trim_start(s, set).len() ==> in_set(set, s[i]),
    decreases s.len(),
{
    if s.len() > 0 && in_set(set, s[0]) {
        lemma_trim_start_shape(s.drop_first(), set);
        let t = trim_start(s.drop_first(), set);
        assert(s.drop_first().skip(s.drop_first().len() - t.len()) =~= s.skip(s.len() - t.len()));
        assert forall|i: int| 0 <= i < s.len() - t.len() implies in_set(set, s[i]) by {
            if i > 0 {
                assert(s[i] == s.drop_first()[i - 1]);
            }
        }
    } else {
        assert(s.skip(0) =~= s);
    }
}

pub proof fn lemma_trim_end_shape(s: Seq<char>, set: TrimSet)
    ensures
        trim_end(s, set).len() <= s.len(),
        trim_end(s, set) == s.take(trim_end(s, set).len() as int),
        trim_end(s, set).len() > 0 ==> !in_set(set, trim_end(s, set).last()),
        forall|i: int| trim_end(s, set).len() <= i < s.len() ==> in_set(set, s[i]),
    decreases s.len(),
{
    if s.len() > 0 && in_set(set, s.last()) {
        lemma_trim_end_shape(s.drop_last(), set);
        let t = trim_end(s.drop_last(), set);
        assert(s.drop_last().take(t.len() as int) =~= s.take(t.len() as int));
        assert forall|i: int| t.len() <= i < s.len() implies in_set(set, s[i]) by {
            if i < s.len() - 1 {
                assert(s[i] == s.drop_last()[i]);
            }
        }
    } else {
        assert(s.take(s.len() as int) =~= s);
    }
}

pub fn trim_start_exec(s: &Vec<char>, set: TrimSet) -> (r: Vec<char>)
    ensures
        r@ == trim_start(s@, set),
{
    let mut i: usize = 0;
    assert(s@.skip(0) =~= s@);
    while i < s.len() && in_set_exec(set, s[i])
        invariant
            i <= s.len(),
            trim_start(s@, set) == trim_start(s@.skip(i as int), set),
        decreases s.len() - i,
    {
        assert(s@.skip(i as int).drop_first() =~= s@.skip(i + 1));
        i += 1;
    }
    slice(s, i, s.len())
}

pub fn trim_end_exec(s: &Vec<char>, set: TrimSet) -> (r: Vec<char>)
    ensures
        r@ == trim_end(s@, set),
{
    let mut n: usize = s.len();
    assert(s@.take(s.len() as int) =~= s@);
    while n > 0 && in_set_exec(set, s[n - 1])
        invariant
            n <= s.len(),
            trim_end(s@, set) == trim_end(s@.take(n as int), set),
        decreases n,
    {
        assert(s@.take(n as int).drop_last() =~= s@.take(n - 1));
        n -= 1;
    }
    slice(s, 0, n)
}

pub fn trim_both_exec(s: &Vec<char>, set: TrimSet) -> (r: Vec<char>)
    ensures
        r@ == trim_both(s@, set),
{
    let t = trim_start_exec(s, set);
    trim_end_exec(&t, set)
}

pub fn trim_exec(s: &Vec<char>) -> (r: Vec<char>)
    ensures
        r@ == trim(s@),
{
    trim_both_exec(s, TrimSet::Whitespace)
}

// ---------------------------------------------------------------------------
// Replacing
// ---------------------------------------------------------------------------

/// `str::replace` with an empty pattern: `to` before every character and at the end.
pub open spec fn replace_empty(s: Seq<char>, to: Seq<char>) -> Seq<char>
    decreases s.len(),
{
    if s.len() == 0 {
        to
    } else {
        to + seq![s[0]] + replace_empty(s.drop_first(), to)
    }
}

/// `str::replace`: every leftmost non-overlapping occurrence of `from`, scanning left to
/// right, is replaced by `to`.
pub open spec fn replace(s: Seq<char>, from: Seq<char>, to: Seq<char>) -> Seq<char>
    decreases s.len(),
{
    if from.len() == 0 {
        replace_empty(s, to)
    } else if s.len() == 0 {
        s
    } else if matches_at(s, from, 0) {
        to + replace(s.skip(from.len() as int), from, to)
    } else {
        seq![s[0]] + replace(s.drop_first(), from, to)
    }
}

pub fn replace_exec(s: &Vec<char>, from: &Vec<char>, to: &Vec<char>) -> (r: Vec<char>)
    ensures
        r@ == replace(s@, from@, to@),
{
    let mut out: Vec<char> = Vec::new();
    let mut i: usize = 0;
    assert(s@.skip(0) =~= s@);
    if from.len() == 0 {
        while i < s.len()
            invariant
                from@.len() == 0,
                i <= s.len(),
                replace(s@, from@, to@) == out@ + replace_empty(s@.skip(i as int), to@),
            decreases s.len() - i,
        {
            assert(s@.skip(i as int).drop_first() =~= s@.skip(i + 1));
            append(&mut out, to);
            out.push(s[i]);
            i += 1;
            assert(out@ + replace_empty(s@.skip(i as int), to@) =~= out@.drop_last()
                + seq![s@[i - 1]] + replace_empty(s@.skip(i as int), to@));
        }
        append(&mut out, to);
        return out;
    }
    while i < s.len()
        invariant
            from@.len() > 0,
            i <= s.len(),
            replace(s@, from@, to@) == out@ + replace(s@.skip(i as int), from@, to@),
        decreases s.len() - i,
    {
        let ghost rest = s@.skip(i as int);
        if matches_at_exec(s, from, i) {
            assert(rest.subrange(0, from@.len() as int) =~= s@.subrange(
                i as int,
                i + from@.len(),
            ));
            assert(rest.skip(from@.len() as int) =~= s@.skip(i + from@.len()));
            append(&mut out, to);
            i += from.len();
        } else {
            assert(!matches_at(rest, from@, 0)) by {
                if matches_at(rest, from@, 0) {
                    assert(rest.subrange(0, from@.len() as int) =~= s@.subrange(
                        i as int,
                        i + from@.len(),
                    ));
                }
            }
            assert(rest.drop_first() =~= s@.skip(i + 1));
            out.push(s[i]);
            i += 1;
        }
    }
    assert(s@.skip(i as int).len() == 0);
    assert(out@ + replace(s@.skip(i as int), from@, to@) =~= out@);
    out
}

// ---------------------------------------------------------------------------
// Splitting and joining
// ---------------------------------------------------------------------------

/// `str::split` with a non-empty separator.
pub open spec fn split(s: Seq<char>, sep: Seq<char>) -> Seq<Seq<char>>
    decreases s.len(),
{
    if sep.len() == 0 {
        seq![s]
    } else {
        match find(s, sep) {
            None => seq![s],
            Some(i) => {
                proof {
                    lemma_find(s, sep);
                }
                seq![s.take(i)] + split(s.skip(i + sep.len()), sep)
            },
        }
    }
}

/// `str::splitn` with a non-empty separator and `n >= 1` pieces at most.
pub open spec fn splitn(s: Seq<char>, n: nat, sep: Seq<char>) -> Seq<Seq<char>>
    decreases s.len(),
{
    if sep.len() == 0 || n <= 1 {
        seq![s]
    } else {
        match find(s, sep) {
            None => seq![s],
            Some(i) => {
                proof {
                    lemma_find(s, sep);
                }
                seq![s.take(i)] + splitn(s.skip(i + sep.len()), (n - 1) as nat, sep)
            },
        }
    }
}

/// Where `x` has no `c`, the first `c` of `x + [c] + y` is right after `x`.
pub proof fn lemma_find_after_char(x: Seq<char>, c: char, y: Seq<char>)
    requires
        !has_char(x, c),
    ensures
        find(x + seq![c] + y, seq![c]) == Some(x.len() as int),
{
    let u = x + seq![c] + y;
    lemma_find(u, seq![c]);
    assert(u.subrange(x.len() as int, x.len() as int + 1) =~= seq![c]);
    assert(matches_at(u, seq![c], x.len() as int));
    match find(u, seq![c]) {
        Some(k) => {
            if k < x.len() {
                assert(u.subrange(k, k + 1)[0] == u[k]);
                assert(x[k] == c);
            }
        },
        None => {},
    }
}

/// A text without `c` has no occurrence of `[c]`.
pub proof fn lemma_find_absent_char(x: Seq<char>, c: char)
    requires
        !has_char(x, c),
    ensures
        find(x, seq![c]) is None,
{
    lemma_find(x, seq![c]);
    match find(x, seq![c]) {
        Some(k) => {
            assert(x.subrange(k, k + 1)[0] == x[k]);
        },
        None => {},
    }
}

/// Splitting `x + [c] + rest` into at most `n >= 2` pieces at `c`, where `x` has no
/// `c`, gives `x` and the pieces of `rest`.
pub proof fn lemma_splitn_step(x: Seq<char>, c: char, rest: Seq<char>, n: nat)
    requires
        !has_char(x, c),
        n >= 2,
    ensures
        splitn(x + seq![c] + rest, n, seq![c]) == seq![x] + splitn(rest, (n - 1) as nat, seq![c]),
{
    let u = x + seq![c] + rest;
    lemma_find_after_char(x, c, rest);
    assert(u.take(x.len() as int) =~= x);
    assert(u.skip(x.len() as int + 1) =~= rest);
}

/// Splitting a text without `c` at `c` gives the text.
pub proof fn lemma_splitn_none(x: Seq<char>, c: char, n: nat)
    requires
        !has_char(x, c),
    ensures
        splitn(x, n, seq![c]) == seq![x],
{
    lemma_find_absent_char(x, c);
}

/// Splitting `x + [c] + rest` at `c`, where `x` has no `c`, gives `x` and the pieces
/// of `rest`.
pub proof fn lemma_split_step(x: Seq<char>, c: char, rest: Seq<char>)
    requires
        !has_char(x, c),
    ensures
        split(x + seq![c] + rest, seq![c]) == seq![x] + split(rest, seq![c]),
{
    let u = x + seq![c] + rest;
    lemma_find_after_char(x, c, rest);
    assert(u.take(x.len() as int) =~= x);
    assert(u.skip(x.len() as int + 1) =~= rest);
}

/// Splitting a text without `c` at `c` gives the text.
pub proof fn lemma_split_none(x: Seq<char>, c: char)
    requires
        !has_char(x, c),
    ensures
        split(x, seq![c]) == seq![x],
{
    lemma_find_absent_char(x, c);
}

/// Each `a` of a text turned into `b`.
pub open spec fn map_char(s: Seq<char>, a: char, b: char) -> Seq<char> {
    s.map_values(|x: char| if x == a { b } else { x })
}

/// Replacing a one-character pattern by one character maps the text character-wise.
pub proof fn lemma_replace_char(s: Seq<char>, a: char, b: char)
    ensures
        replace(s, seq![a], seq![b]) == map_char(s, a, b),
    decreases s.len(),
{
    if s.len() > 0 {
        lemma_replace_char(s.drop_first(), a, b);
        if s[0] == a {
            assert(s.subrange(0, 1) =~= seq![a]);
            assert(s.skip(1) =~= s.drop_first());
        } else {
            assert(!matches_at(s, seq![a], 0)) by {
                if matches_at(s, seq![a], 0) {
                    assert(s.subrange(0, 1)[0] == s[0]);
                }
            }
        }
        assert(map_char(s, a, b) =~= seq![if s[0] == a { b } else { s[0] }] + map_char(
            s.drop_first(),
            a,
            b,
        ));
    } else {
        assert(map_char(s, a, b) =~= s);
    }
}

pub open spec fn seqs_view(v: Seq<Vec<char>>) -> Seq<Seq<char>> {
    v.map_values(|x: Vec<char>| x@)
}

pub fn split_exec(s: &Vec<char>, sep: &Vec<char>) -> (r: Vec<Vec<char>>)
    requires
        sep@.len() > 0,
    ensures
        seqs_view(r@) == split(s@, sep@),
{
    let mut out: Vec<Vec<char>> = Vec::new();
    let mut rest: Vec<char> = s.clone();
    loop
        invariant
            sep@.len() > 0,
            split(s@, sep@) == seqs_view(out@) + split(rest@, sep@),
        decreases rest@.len(),
    {
        match find_exec(&rest, sep) {
            None => {
                let ghost before = out@;
                out.push(rest);
                assert(seqs_view(out@) =~= seqs_view(before) + seq![rest@]);
                return out;
            },
            Some(i) => {
                proof {
                    lemma_find(rest@, sep@);
                }
                assert(matches_at(rest@, sep@, i as int));
                let n = rest.len();
                assert(i + sep@.len() <= n);
                let piece = slice(&rest, 0, i);
                let next = slice(&rest, i + sep.len(), n);
                assert(piece@ =~= rest@.take(i as int));
                assert(next@ =~= rest@.skip(i + sep@.len()));
                let ghost before = out@;
                out.push(piece);
                assert(seqs_view(out@) =~= seqs_view(before) + seq![piece@]);
                assert(seqs_view(out@) + split(next@, sep@) =~= seqs_view(before) + split(
                    rest@,
                    sep@,
                ));
                rest = next;
            },
        }
    }
}

pub fn splitn_exec(s: &Vec<char>, n: usize, sep: &Vec<char>) -> (r: Vec<Vec<char>>)
    requires
        sep@.len() > 0,
        n >= 1,
    ensures
        seqs_view(r@) == splitn(s@, n as nat, sep@),
{
    let mut out: Vec<Vec<char>> = Vec::new();
    let mut rest: Vec<char> = s.clone();
    let mut k: usize = n;
    loop
        invariant
            sep@.len() > 0,
            k >= 1,
            splitn(s@, n as nat, sep@) == seqs_view(out@) + splitn(rest@, k as nat, sep@),
        decreases rest@.len(),
    {
        let found = if k <= 1 {
            None
        } else {
            find_exec(&rest, sep)
        };
        match found {
            None => {
                let ghost before = out@;
                out.push(rest);
                assert(seqs_view(out@) =~= seqs_view(before) + seq![rest@]);
                return out;
            },
            Some(i) => {
                proof {
                    lemma_find(rest@, sep@);
                }
                assert(matches_at(rest@, sep@, i as int));
                let n = rest.len();
                assert(i + sep@.len() <= n);
                let piece = slice(&rest, 0, i);
                let next = slice(&rest, i + sep.len(), n);
                assert(piece@ =~= rest@.take(i as int));
                assert(next@ =~= rest@.skip(i + sep@.len()));
                let ghost before = out@;
                out.push(piece);
                assert(seqs_view(out@) =~= seqs_view(before) + seq![piece@]);
                assert(seqs_view(out@) + splitn(next@, (k - 1) as nat, sep@) =~= seqs_view(
                    before,
                ) + splitn(rest@, k as nat, sep@));
                rest = next;
                k = k - 1;
            },
        }
    }
}

/// Words of `s` with `cur` the word being read (`str::split_whitespace`).
pub open spec fn words_acc(s: Seq<char>, cur: Seq<char>) -> Seq<Seq<char>>
    decreases s.len(),
{
    let flushed = if cur.len() > 0 {
        seq![cur]
    } else {
        Seq::<Seq<char>>::empty()
    };
    if s.len() == 0 {
        flushed
    } else if is_ws(s[0]) {
        flushed + words_acc(s.drop_first(), Seq::empty())
    } else {
        words_acc(s.drop_first(), cur.push(s[0]))
    }
}

/// `str::split_whitespace`: the maximal runs of non-whitespace characters.
pub open spec fn words(s: Seq<char>) -> Seq<Seq<char>> {
    words_acc(s, Seq::empty())
}

pub fn words_exec(s: &Vec<char>) -> (r: Vec<Vec<char>>)
    ensures
        seqs_view(r@) == words(s@),
{
    let mut out: Vec<Vec<char>> = Vec::new();
    let mut cur: Vec<char> = Vec::new();
    let mut i: usize = 0;
    assert(s@.skip(0) =~= s@);
    while i < s.len()
        invariant
            i <= s.len(),
            words(s@) == seqs_view(out@) + words_acc(s@.skip(i as int), cur@),
        decreases s.len() - i,
    {
        assert(s@.skip(i as int).drop_first() =~= s@.skip(i + 1));
        if is_whitespace(s[i]) {
            if cur.len() > 0 {
                let ghost before = out@;
                out.push(cur);
                assert(seqs_view(out@) =~= seqs_view(before) + seq![cur@]);
                cur = Vec::new();
            }
            assert(cur@ =~= Seq::<char>::empty());
        } else {
            cur.push(s[i]);
        }
        i += 1;
    }
    if cur.len() > 0 {
        let ghost before = out@;
        out.push(cur);
        assert(seqs_view(out@) =~= seqs_view(before) + seq![cur@]);
    } else {
        assert(seqs_view(out@) + Seq::<Seq<char>>::empty() =~= seqs_view(out@));
    }
    out
}

/// `join` of pieces with a separator.
pub open spec fn join(parts: Seq<Seq<char>>, sep: Seq<char>) -> Seq<char>
    decreases parts.len(),
{
    if parts.len() == 0 {
        Seq::empty()
    } else if parts.len() == 1 {
        parts[0]
    } else {
        join(parts.drop_last(), sep) + sep + parts.last()
    }
}

/// Joining a first piece in front of non-empty others puts a separator after it.
pub proof fn lemma_join_cons(a: Seq<char>, t: Seq<Seq<char>>, sep: Seq<char>)
    requires
        t.len() > 0,
    ensures
        join(seq![a] + t, sep) == a + sep + join(t, sep),
    decreases t.len(),
{
    let s = seq![a] + t;
    if t.len() == 1 {
        assert(s.drop_last() =~= seq![a]);
        assert(s.last() == t[0]);
        assert(join(s.drop_last(), sep) == a);
        assert(join(t, sep) == t[0]);
        assert(join(s, sep) =~= a + sep + join(t, sep));
    } else {
        assert(s.drop_last() =~= seq![a] + t.drop_last());
        lemma_join_cons(a, t.drop_last(), sep);
        assert(join(s, sep) =~= a + sep + join(t, sep));
    }
}

pub fn join_exec(parts: &Vec<Vec<char>>, sep: &Vec<char>) -> (r: Vec<char>)
    ensures
        r@ == join(seqs_view(parts@), sep@),
{
    let mut out: Vec<char> = Vec::new();
    let mut i: usize = 0;
    while i < parts.len()
        invariant
            i <= parts.len(),
            out@ == join(seqs_view(parts@).take(i as int), sep@),
        decreases parts.len() - i,
    {
        let ghost ps = seqs_view(parts@);
        assert(ps.take(i + 1).drop_last() =~= ps.take(i as int));
        if i > 0 {
            append(&mut out, sep);
        } else {
            assert(ps.take(1) =~= seq![parts@[0]@]);
        }
        append(&mut out, &parts[i]);
        i += 1;
    }
    assert(seqs_view(parts@).take(parts.len() as int) =~= seqs_view(parts@));
    out
}

// ---------------------------------------------------------------------------
// Decimal numbers
// ---------------------------------------------------------------------------

pub open spec fn digit_char(d: nat) -> char {
    if d == 0 { '0' }
    else if d == 1 { '1' }
    else if d == 2 { '2' }
    else if d == 3 { '3' }
    else if d == 4 { '4' }
    else if d == 5 { '5' }
    else if d == 6 { '6' }
    else if d == 7 { '7' }
    else if d == 8 { '8' }
    else { '9' }
}

/// Decimal representation of a natural number, as `Display` prints it.
pub open spec fn decimal(n: nat) -> Seq<char>
    decreases n,
{
    if n < 10 {
        seq![digit_char(n)]
    } else {
        decimal(n / 10) + seq![digit_char(n % 10)]
    }
}

fn digit_exec(d: u64) -> (c: char)
    requires
        d < 10,
    ensures
        c == digit_char(d as nat),
{
    if d == 0 { '0' }
    else if d == 1 { '1' }
    else if d == 2 { '2' }
    else if d == 3 { '3' }
    else if d == 4 { '4' }
    else if d == 5 { '5' }
    else if d == 6 { '6' }
    else if d == 7 { '7' }
    else if d == 8 { '8' }
    else { '9' }
}

pub fn decimal_exec(n: u64) -> (r: Vec<char>)
    ensures
        r@ == decimal(n as nat),
    decreases n,
{
    if n < 10 {
        let mut v: Vec<char> = Vec::new();
        v.push(digit_exec(n));
        v
    } else {
        let mut v = decimal_exec(n / 10);
        v.push(digit_exec(n % 10));
        v
    }
}

/// Value of a string of decimal digits.
pub open spec fn digits_value(s: Seq<char>) -> nat
    decreases s.len(),
{
    if s.len() == 0 {
        0
    } else {
        digits_value(s.drop_last()) * 10 + ((s.last() as u32) - 48) as nat
    }
}

pub open spec fn all_digits(s: Seq<char>) -> bool {
    forall|i: int| 0 <= i < s.len() ==> is_ascii_digit(s[i])
}

pub open spec fn plus_stripped(s: Seq<char>) -> Seq<char> {
    if s.len() > 0 && s[0] == '+' {
        s.drop_first()
    } else {
        s
    }
}

/// `u32::from_str`: an optional `+`, then at least one decimal digit, in range.
pub open spec fn parse_u32(s: Seq<char>) -> Option<u32> {
    let digits = plus_stripped(s);
    if digits.len() == 0 || !all_digits(digits) || digits_value(digits) > u32::MAX {
        None
    } else {
        Some(digits_value(digits) as u32)
    }
}

pub proof fn lemma_digits_value_prefix(s: Seq<char>, i: int)
    requires
        0 <= i <= s.len(),
        all_digits(s),
    ensures
        digits_value(s.take(i)) <= digits_value(s),
    decreases s.len() - i,
{
    if i < s.len() {
        lemma_digits_value_prefix(s, i + 1);
        assert(s.take(i + 1).drop_last() =~= s.take(i));
        assert(s.take(i + 1).last() == s[i]);
    } else {
        assert(s.take(i) =~= s);
    }
}

proof fn lemma_digit_char_value(d: nat)
    requires
        d < 10,
    ensures
        is_ascii_digit(digit_char(d)),
        ((digit_char(d) as u32) - 48) as nat == d,
{
}

/// The decimal text of a number is a non-empty run of digits whose value is the number.
pub proof fn lemma_decimal(n: nat)
    ensures
        decimal(n).len() > 0,
        all_digits(decimal(n)),
        digits_value(decimal(n)) == n,
    decreases n,
{
    let d = decimal(n);
    lemma_digit_char_value(n % 10);
    if n >= 10 {
        lemma_decimal(n / 10);
        assert(d.drop_last() =~= decimal(n / 10));
        assert(d.last() == digit_char(n % 10));
        assert(n == (n / 10) * 10 + n % 10) by (nonlinear_arith);
        assert(digits_value(d) == digits_value(decimal(n / 10)) * 10 + n % 10);
        assert forall|i: int| 0 <= i < d.len() implies is_ascii_digit(d[i]) by {
            if i < d.len() - 1 {
                assert(d[i] == decimal(n / 10)[i]);
            }
        }
    } else {
        lemma_digit_char_value(n);
        assert(d.drop_last() =~= Seq::<char>::empty());
        assert(digits_value(d.drop_last()) == 0);
        assert(d.last() == digit_char(n));
    }
}

/// A number's decimal text parses back to the number.
pub proof fn lemma_parse_decimal(n: u32)
    ensures
        parse_u32(decimal(n as nat)) == Some(n),
{
    lemma_decimal(n as nat);
}

pub fn parse_u32_exec(s: &Vec<char>) -> (r: Option<u32>)
    ensures
        r == parse_u32(s@),
{
    let digits = if s.len() > 0 && s[0] == '+' {
        slice(s, 1, s.len())
    } else {
        slice(s, 0, s.len())
    };
    assert(digits@ =~= plus_stripped(s@));
    if digits.len() == 0 {
        return None;
    }
    let mut acc: u64 = 0;
    let mut i: usize = 0;
    while i < digits.len()
        invariant
            i <= digits.len(),
            digits@ == plus_stripped(s@),
            acc == digits_value(digits@.take(i as int)),
            acc <= u32::MAX,
            forall|j: int| 0 <= j < i ==> is_ascii_digit(digits@[j]),
        decreases digits.len() - i,
    {
        let c = digits[i];
        if !('0' <= c && c <= '9') {
            assert(!all_digits(digits@)) by {
                assert(!is_ascii_digit(digits@[i as int]));
            }
            return None;
        }
        assert(digits@.take(i + 1).drop_last() =~= digits@.take(i as int));
        let d: u64 = (c as u32 - 48) as u64;
        acc = acc * 10 + d;
        i += 1;
        if acc > 0xffff_ffff {
            if all_digits_exec(&digits) {
                proof {
                    lemma_digits_value_prefix(digits@, i as int);
                }
            }
            return None;
        }
    }
    assert(digits@.take(i as int) =~= digits@);
    Some(acc as u32)
}

/// `u64::from_str`: an optional `+`, then at least one decimal digit, in range.
pub open spec fn parse_u64(s: Seq<char>) -> Option<u64> {
    let digits = plus_stripped(s);
    if digits.len() == 0 || !all_digits(digits) || digits_value(digits) > u64::MAX {
        None
    } else {
        Some(digits_value(digits) as u64)
    }
}

pub fn parse_u64_exec(s: &Vec<char>) -> (r: Option<u64>)
    ensures
        r == parse_u64(s@),
{
    let digits = if s.len() > 0 && s[0] == '+' {
        slice(s, 1, s.len())
    } else {
        slice(s, 0, s.len())
    };
    assert(digits@ =~= plus_stripped(s@));
    if digits.len() == 0 {
        return None;
    }
    let mut acc: u128 = 0;
    let mut i: usize = 0;
    while i < digits.len()
        invariant
            i <= digits.len(),
            digits@ == plus_stripped(s@),
            acc == digits_value(digits@.take(i as int)),
            acc <= u64::MAX,
            forall|j: int| 0 <= j < i ==> is_ascii_digit(digits@[j]),
        decreases digits.len() - i,
    {
        let c = digits[i];
        if !('0' <= c && c <= '9') {
            assert(!all_digits(digits@)) by {
                assert(!is_ascii_digit(digits@[i as int]));
            }
            return None;
        }
        assert(digits@.take(i + 1).drop_last() =~= digits@.take(i as int));
        let d: u128 = (c as u32 - 48) as u128;
        acc = acc * 10 + d;
        i += 1;
        if acc > 0xffff_ffff_ffff_ffff {
            if all_digits_exec(&digits) {
                proof {
                    lemma_digits_value_prefix(digits@, i as int);
                }
            }
            return None;
        }
    }
    assert(digits@.take(i as int) =~= digits@);
    Some(acc as u64)
}

fn all_digits_exec(s: &Vec<char>) -> (r: bool)
    ensures
        r == all_digits(s@),
{
    let mut i: usize = 0;
    while i < s.len()
        invariant
            i <= s.len(),
            forall|j: int| 0 <= j < i ==> is_ascii_digit(s@[j]),
        decreases s.len() - i,
    {
        if !('0' <= s[i] && s[i] <= '9') {
            return false;
        }
        i += 1;
    }
    true
}


/// `str::trim_end_matches` with a string pattern: removes repeated trailing copies of `p`.
pub open spec fn trim_end_str(s: Seq<char>, p: Seq<char>) -> Seq<char>
    decreases s.len(),
{
    if p.len() > 0 && ends_with(s, p) {
        trim_end_str(s.take(s.len() - p.len()), p)
    } else {
        s
    }
}

pub fn trim_end_str_exec(s: &Vec<char>, p: &Vec<char>) -> (r: Vec<char>)
    ensures
        r@ == trim_end_str(s@, p@),
{
    let mut cur = s.clone();
    while p.len() > 0 && has_suffix(&cur, p)
        invariant
            trim_end_str(s@, p@) == trim_end_str(cur@, p@),
        decreases cur@.len(),
    {
        let n = cur.len() - p.len();
        cur = slice(&cur, 0, n);
    }
    cur
}

/// Replacing a pattern by itself changes nothing.
pub proof fn lemma_replace_same(s: Seq<char>, p: Seq<char>)
    ensures
        replace(s, p, p) == s,
    decreases s.len(),
{
    if p.len() == 0 {
        lemma_replace_empty_same(s);
        assert(p =~= Seq::<char>::empty());
    } else if s.len() == 0 {
    } else if matches_at(s, p, 0) {
        lemma_replace_same(s.skip(p.len() as int), p);
        assert(s.subrange(0, p.len() as int) + s.skip(p.len() as int) =~= s);
    } else {
        lemma_replace_same(s.drop_first(), p);
        assert(seq![s[0]] + s.drop_first() =~= s);
    }
}

/// Where no occurrence of `p` starts inside `x`, replacing in `x + y` keeps `x` and
/// replaces in `y`.
pub proof fn lemma_replace_after_prefix(x: Seq<char>, y: Seq<char>, p: Seq<char>, to: Seq<char>)
    requires
        p.len() > 0,
        forall|i: int| 0 <= i < x.len() ==> !matches_at(x + y, p, i),
    ensures
        replace(x + y, p, to) == x + replace(y, p, to),
    decreases x.len(),
{
    if x.len() > 0 {
        let u = x + y;
        assert(!matches_at(u, p, 0));
        assert(u.drop_first() =~= x.drop_first() + y);
        assert forall|i: int| 0 <= i < x.drop_first().len() implies !matches_at(
            x.drop_first() + y,
            p,
            i,
        ) by {
            assert(!matches_at(u, p, i + 1));
            if matches_at(x.drop_first() + y, p, i) {
                assert(u.subrange(i + 1, i + 1 + p.len()) =~= (x.drop_first() + y).subrange(
                    i,
                    i + p.len(),
                ));
            }
        }
        lemma_replace_after_prefix(x.drop_first(), y, p, to);
        assert(seq![x[0]] + (x.drop_first() + replace(y, p, to)) =~= x + replace(y, p, to));
    } else {
        assert(x + y =~= y);
        assert(x + replace(y, p, to) =~= replace(y, p, to));
    }
}

/// Replacing in a text that starts with the pattern replaces that occurrence first.
pub proof fn lemma_replace_at_start(p: Seq<char>, y: Seq<char>, to: Seq<char>)
    requires
        p.len() > 0,
    ensures
        replace(p + y, p, to) == to + replace(y, p, to),
{
    let u = p + y;
    assert(u.subrange(0, p.len() as int) =~= p);
    assert(u.skip(p.len() as int) =~= y);
}

/// Replacing the empty pattern by nothing changes nothing.
pub proof fn lemma_replace_empty_same(s: Seq<char>)
    ensures
        replace_empty(s, Seq::empty()) == s,
    decreases s.len(),
{
    if s.len() > 0 {
        lemma_replace_empty_same(s.drop_first());
        assert(Seq::<char>::empty() + seq![s[0]] + s.drop_first() =~= s);
    }
}

// ---------------------------------------------------------------------------
// Ordering
// ---------------------------------------------------------------------------

/// Lexicographic order of texts, character by character (the order of `String`, as
/// UTF-8 keeps the order of code points).
pub open spec fn text_lt(a: Seq<char>, b: Seq<char>) -> bool
    decreases a.len(),
{
    if a.len() == 0 {
        b.len() > 0
    } else if b.len() == 0 {
        false
    } else if a[0] != b[0] {
        (a[0] as u32) < (b[0] as u32)
    } else {
        text_lt(a.drop_first(), b.drop_first())
    }
}

pub proof fn lemma_text_lt_trans(a: Seq<char>, b: Seq<char>, c: Seq<char>)
    requires
        text_lt(a, b),
        text_lt(b, c),
    ensures
        text_lt(a, c),
    decreases a.len(),
{
    if a.len() > 0 && b.len() > 0 && c.len() > 0 && a[0] == b[0] && b[0] == c[0] {
        lemma_text_lt_trans(a.drop_first(), b.drop_first(), c.drop_first());
    }
}

pub proof fn lemma_text_lt_irrefl(a: Seq<char>)
    ensures
        !text_lt(a, a),
    decreases a.len(),
{
    if a.len() > 0 {
        lemma_text_lt_irrefl(a.drop_first());
    }
}

/// Of two different texts, one comes before the other.
pub proof fn lemma_text_lt_total(a: Seq<char>, b: Seq<char>)
    requires
        a != b,
    ensures
        text_lt(a, b) || text_lt(b, a),
    decreases a.len(),
{
    if a.len() > 0 && b.len() > 0 && a[0] == b[0] {
        assert(a =~= seq![a[0]] + a.drop_first());
        assert(b =~= seq![b[0]] + b.drop_first());
        lemma_text_lt_total(a.drop_first(), b.drop_first());
    } else if a.len() == 0 && b.len() == 0 {
        assert(a =~= b);
    } else if a.len() > 0 && b.len() > 0 {
        vstd::utf8::char_u32_cast(a[0], a[0] as u32);
        vstd::utf8::char_u32_cast(b[0], b[0] as u32);
    }
}

pub fn text_lt_exec(a: &Vec<char>, b: &Vec<char>) -> (r: bool)
    ensures
        r == text_lt(a@, b@),
{
    let mut i: usize = 0;
    assert(a@.skip(0) =~= a@ && b@.skip(0) =~= b@);
    while i < a.len() && i < b.len()
        invariant
            i <= a@.len(),
            i <= b@.len(),
            text_lt(a@, b@) == text_lt(a@.skip(i as int), b@.skip(i as int)),
        decreases a.len() - i,
    {
        if a[i] != b[i] {
            proof {
                assert(a@.skip(i as int)[0] == a@[i as int]);
                assert(b@.skip(i as int)[0] == b@[i as int]);
            }
            return (a[i] as u32) < (b[i] as u32);
        }
        proof {
            assert(a@.skip(i as int).drop_first() =~= a@.skip(i + 1));
            assert(b@.skip(i as int).drop_first() =~= b@.skip(i + 1));
        }
        i += 1;
    }
    i == a.len() && i < b.len()
}

} // verus!
