//! Text as sequences of characters.
//!
//! Parsers and composers of this crate are stated over `Seq<char>`. This module
//! holds the vocabulary they share: white space, trimming, splitting, searching,
//! joining and decimal rendering, each as a spec function together with the
//! executable function that computes it.

use vstd::prelude::*;
use vstd::slice::slice_subrange;
use vstd::utf8::{decode_utf8, valid_utf8};

verus! {

/// `String::push` appends one character to the end of the string.
pub assume_specification[ String::push ](s: &mut String, c: char)
    ensures
        final(s)@ == old(s)@.push(c),
;

// ---------------------------------------------------------------------
// Conversions
// ---------------------------------------------------------------------

/// The characters of a string slice.
pub fn chars_of(s: &str) -> (r: Vec<char>)
    ensures
        r@ == s@,
{
    let mut r: Vec<char> = Vec::new();
    for c in it: s.chars()
        invariant
            it.seq() == s@,
            r@ == s@.take(it.index() as int),
    {
        r.push(c);
        assert(s@.take(it.index() + 1) =~= s@.take(it.index() as int).push(c));
    }
    assert(s@.take(s@.len() as int) =~= s@);
    r
}

/// The string made of the given characters.
pub fn text_of(chars: &[char]) -> (r: String)
    ensures
        r@ == chars@,
{
    let mut r = String::new();
    let n: usize = chars.len();
    for i in 0..n
        invariant
            n == chars@.len(),
            r@ == chars@.take(i as int),
    {
        r.push(chars[i]);
        assert(chars@.take(i + 1) =~= chars@.take(i as int).push(chars@[i as int]));
    }
    assert(chars@.take(n as int) =~= chars@);
    r
}

/// The views of a list of strings, in order.
pub open spec fn views(v: Seq<String>) -> Seq<Seq<char>> {
    Seq::new(v.len(), |i: int| v[i]@)
}

/// Whether two texts hold the same characters.
pub fn same_chars(a: &[char], b: &[char]) -> (r: bool)
    ensures
        r == (a@ == b@),
{
    if a.len() != b.len() {
        return false;
    }
    let n: usize = a.len();
    for i in 0..n
        invariant
            n == a@.len(),
            n == b@.len(),
            forall|j: int| 0 <= j < i ==> a@[j] == b@[j],
    {
        if a[i] != b[i] {
            return false;
        }
    }
    assert(a@ =~= b@);
    true
}

/// Whether two string slices hold the same characters.
pub fn same_text(a: &str, b: &str) -> (r: bool)
    ensures
        r == (a@ == b@),
{
    let x = chars_of(a);
    let y = chars_of(b);
    same_chars(x.as_slice(), y.as_slice())
}

// ---------------------------------------------------------------------
// Characters
// ---------------------------------------------------------------------

/// The Unicode `White_Space` property.
pub open spec fn is_white(c: char) -> bool {
    let n = c as u32;
    ||| 0x09 <= n <= 0x0d
    ||| n == 0x20
    ||| n == 0x85
    ||| n == 0xa0
    ||| n == 0x1680
    ||| 0x2000 <= n <= 0x200a
    ||| n == 0x2028
    ||| n == 0x2029
    ||| n == 0x202f
    ||| n == 0x205f
    ||| n == 0x3000
}

/// Whether `c` is white space.
pub fn white(c: char) -> (r: bool)
    ensures
        r == is_white(c),
{
    let n: u32 = c as u32;
    (0x09 <= n && n <= 0x0d) || n == 0x20 || n == 0x85 || n == 0xa0 || n == 0x1680 || (0x2000 <= n
        && n <= 0x200a) || n == 0x2028 || n == 0x2029 || n == 0x202f || n == 0x205f || n == 0x3000
}

/// `c` with the ASCII capitals `A` to `Z` mapped to `a` to `z`.
pub open spec fn ascii_lower_char(c: char) -> char {
    if 'A' <= c && c <= 'Z' {
        ((c as u8) + 32) as char
    } else {
        c
    }
}

/// Character-wise [`ascii_lower_char`].
pub open spec fn ascii_lower(s: Seq<char>) -> Seq<char> {
    Seq::new(s.len(), |i: int| ascii_lower_char(s[i]))
}

/// The text with its ASCII capitals lowered.
pub fn to_ascii_lower(s: &[char]) -> (r: Vec<char>)
    ensures
        r@ == ascii_lower(s@),
{
    let mut r: Vec<char> = Vec::new();
    let n: usize = s.len();
    for i in 0..n
        invariant
            n == s@.len(),
            r@ == ascii_lower(s@).take(i as int),
    {
        let c = s[i];
        let l = if 'A' <= c && c <= 'Z' {
            ((c as u8) + 32) as char
        } else {
            c
        };
        r.push(l);
        assert(ascii_lower(s@).take(i + 1) =~= ascii_lower(s@).take(i as int).push(l));
    }
    assert(ascii_lower(s@).take(n as int) =~= ascii_lower(s@));
    r
}

// ---------------------------------------------------------------------
// Trimming
// ---------------------------------------------------------------------

/// `s` without its leading white space.
pub open spec fn trim_start_of(s: Seq<char>) -> Seq<char>
    decreases s.len(),
{
    if s.len() > 0 && is_white(s[0]) {
        trim_start_of(s.drop_first())
    } else {
        s
    }
}

/// `s` without its trailing white space.
pub open spec fn trim_end_of(s: Seq<char>) -> Seq<char>
    decreases s.len(),
{
    if s.len() > 0 && is_white(s.last()) {
        trim_end_of(s.drop_last())
    } else {
        s
    }
}

/// `s` without its leading and trailing white space.
pub open spec fn trim_of(s: Seq<char>) -> Seq<char> {
    trim_end_of(trim_start_of(s))
}

/// Drops the leading white space.
pub fn trim_start(s: &[char]) -> (r: &[char])
    ensures
        r@ == trim_start_of(s@),
        exists|k: int| 0 <= k <= s@.len() && r@ == s@.skip(k),
{
    let mut i: usize = 0;
    assert(s@.skip(0) =~= s@);
    while i < s.len() && white(s[i])
        invariant
            i <= s@.len(),
            trim_start_of(s@) == trim_start_of(s@.skip(i as int)),
        decreases s@.len() - i,
    {
        assert(s@.skip(i as int).drop_first() =~= s@.skip(i + 1));
        i = i + 1;
    }
    let r = slice_subrange(s, i, s.len());
    assert(r@ =~= s@.skip(i as int));
    r
}

/// Drops the trailing white space.
pub fn trim_end(s: &[char]) -> (r: &[char])
    ensures
        r@ == trim_end_of(s@),
{
    let mut i: usize = s.len();
    assert(s@.take(i as int) =~= s@);
    while i > 0 && white(s[i - 1])
        invariant
            i <= s@.len(),
            trim_end_of(s@) == trim_end_of(s@.take(i as int)),
        decreases i,
    {
        assert(s@.take(i as int).drop_last() =~= s@.take(i - 1));
        assert(s@.take(i as int).last() == s@[i - 1]);
        i = i - 1;
    }
    let r = slice_subrange(s, 0, i);
    assert(r@ =~= s@.take(i as int));
    assert(i > 0 ==> s@.take(i as int).last() == s@[i - 1]);
    r
}

/// Drops the leading and trailing white space.
pub fn trim(s: &[char]) -> (r: &[char])
    ensures
        r@ == trim_of(s@),
{
    trim_end(trim_start(s))
}

proof fn lemma_trimmed_start(s: Seq<char>)
    ensures
        trim_start_of(s).len() > 0 ==> !is_white(trim_start_of(s)[0]),
    decreases s.len(),
{
    if s.len() > 0 && is_white(s[0]) {
        lemma_trimmed_start(s.drop_first());
    }
}

proof fn lemma_trimmed_end(s: Seq<char>)
    ensures
        trim_end_of(s).len() <= s.len(),
        trim_end_of(s) == s.take(trim_end_of(s).len() as int),
        trim_end_of(s).len() > 0 ==> !is_white(trim_end_of(s).last()),
    decreases s.len(),
{
    if s.len() > 0 && is_white(s.last()) {
        lemma_trimmed_end(s.drop_last());
        let n = trim_end_of(s).len() as int;
        assert(s.drop_last().take(n) =~= s.take(n));
    } else {
        assert(s.take(s.len() as int) =~= s);
    }
}

/// A trimmed text has nothing left to trim.
pub proof fn lemma_trim_is_idempotent(s: Seq<char>)
    ensures
        trim_of(trim_of(s)) == trim_of(s),
{
    lemma_trimmed_start(s);
    lemma_trimmed_end(trim_start_of(s));
}

/// `s` without its leading run of `c`.
pub open spec fn trim_start_char_of(s: Seq<char>, c: char) -> Seq<char>
    decreases s.len(),
{
    if s.len() > 0 && s[0] == c {
        trim_start_char_of(s.drop_first(), c)
    } else {
        s
    }
}

/// `s` without its trailing run of `c`.
pub open spec fn trim_end_char_of(s: Seq<char>, c: char) -> Seq<char>
    decreases s.len(),
{
    if s.len() > 0 && s.last() == c {
        trim_end_char_of(s.drop_last(), c)
    } else {
        s
    }
}

/// Drops the leading run of `c`.
pub fn trim_start_char(s: &[char], c: char) -> (r: &[char])
    ensures
        r@ == trim_start_char_of(s@, c),
{
    let mut i: usize = 0;
    assert(s@.skip(0) =~= s@);
    while i < s.len() && s[i] == c
        invariant
            i <= s@.len(),
            trim_start_char_of(s@, c) == trim_start_char_of(s@.skip(i as int), c),
        decreases s@.len() - i,
    {
        assert(s@.skip(i as int).drop_first() =~= s@.skip(i + 1));
        i = i + 1;
    }
    let r = slice_subrange(s, i, s.len());
    assert(r@ =~= s@.skip(i as int));
    r
}

/// Drops the trailing run of `c`.
pub fn trim_end_char(s: &[char], c: char) -> (r: &[char])
    ensures
        r@ == trim_end_char_of(s@, c),
{
    let mut i: usize = s.len();
    assert(s@.take(i as int) =~= s@);
    while i > 0 && s[i - 1] == c
        invariant
            i <= s@.len(),
            trim_end_char_of(s@, c) == trim_end_char_of(s@.take(i as int), c),
        decreases i,
    {
        assert(s@.take(i as int).drop_last() =~= s@.take(i - 1));
        assert(s@.take(i as int).last() == s@[i - 1]);
        i = i - 1;
    }
    let r = slice_subrange(s, 0, i);
    assert(r@ =~= s@.take(i as int));
    assert(i > 0 ==> s@.take(i as int).last() == s@[i - 1]);
    r
}

// ---------------------------------------------------------------------
// Searching
// ---------------------------------------------------------------------

/// Index of the first `c` in `s`, or the length of `s` when there is none.
pub open spec fn index_of(s: Seq<char>, c: char) -> int
    decreases s.len(),
{
    if s.len() == 0 || s[0] == c {
        0
    } else {
        1 + index_of(s.drop_first(), c)
    }
}

/// Finds the first `c`.
pub fn find_char(s: &[char], c: char) -> (r: usize)
    ensures
        r == index_of(s@, c),
        r <= s@.len(),
        r < s@.len() ==> s@[r as int] == c,
{
    let mut i: usize = 0;
    assert(s@.skip(0) =~= s@);
    while i < s.len() && s[i] != c
        invariant
            i <= s@.len(),
            index_of(s@, c) == i + index_of(s@.skip(i as int), c),
        decreases s@.len() - i,
    {
        assert(s@.skip(i as int).drop_first() =~= s@.skip(i + 1));
        i = i + 1;
    }
    i
}

/// Length of the leading run of characters that are not white space.
pub open spec fn word_len(s: Seq<char>) -> int
    decreases s.len(),
{
    if s.len() == 0 || is_white(s[0]) {
        0
    } else {
        1 + word_len(s.drop_first())
    }
}

/// Measures the leading word.
pub fn word_end(s: &[char]) -> (r: usize)
    ensures
        r == word_len(s@),
        r <= s@.len(),
{
    let mut i: usize = 0;
    assert(s@.skip(0) =~= s@);
    while i < s.len() && !white(s[i])
        invariant
            i <= s@.len(),
            word_len(s@) == i + word_len(s@.skip(i as int)),
        decreases s@.len() - i,
    {
        assert(s@.skip(i as int).drop_first() =~= s@.skip(i + 1));
        i = i + 1;
    }
    i
}

/// Whether `pat` stands in `s` at position `i`.
pub open spec fn occurs_at(s: Seq<char>, pat: Seq<char>, i: int) -> bool {
    0 <= i && i + pat.len() <= s.len() && s.subrange(i, i + pat.len()) == pat
}

/// Whether `s` starts with `pat`.
pub open spec fn has_prefix(s: Seq<char>, pat: Seq<char>) -> bool {
    occurs_at(s, pat, 0)
}

/// Whether `s` ends with `pat`.
pub open spec fn has_suffix(s: Seq<char>, pat: Seq<char>) -> bool {
    occurs_at(s, pat, s.len() - pat.len())
}

/// Whether `pat` stands anywhere in `s`.
pub open spec fn contains_text(s: Seq<char>, pat: Seq<char>) -> bool {
    exists|i: int| occurs_at(s, pat, i)
}

/// Tests one position.
pub fn stands_at(s: &[char], pat: &[char], i: usize) -> (r: bool)
    ensures
        r == occurs_at(s@, pat@, i as int),
{
    if i > s.len() || pat.len() > s.len() - i {
        return false;
    }
    same_chars(slice_subrange(s, i, i + pat.len()), pat)
}

/// Whether `s` starts with `pat`.
pub fn starts_with(s: &[char], pat: &str) -> (r: bool)
    ensures
        r == has_prefix(s@, pat@),
{
    let p = chars_of(pat);
    stands_at(s, p.as_slice(), 0)
}

/// Whether `s` ends with `pat`.
pub fn ends_with(s: &[char], pat: &[char]) -> (r: bool)
    ensures
        r == has_suffix(s@, pat@),
{
    if pat.len() > s.len() {
        return false;
    }
    stands_at(s, pat, s.len() - pat.len())
}

/// Whether `i` is the first position at which `pat` stands in `s`.
pub open spec fn is_first_at(s: Seq<char>, pat: Seq<char>, i: int) -> bool {
    occurs_at(s, pat, i) && forall|j: int| 0 <= j < i ==> !occurs_at(s, pat, j)
}

/// What follows the first occurrence of `pat` in `s`, where there is one.
pub open spec fn after_first(s: Seq<char>, pat: Seq<char>) -> Option<Seq<char>> {
    if contains_text(s, pat) {
        let i = choose|i: int| is_first_at(s, pat, i);
        Some(s.skip(i + pat.len()))
    } else {
        None
    }
}

/// The first position at which `pat` stands in `s`.
pub fn find_text(s: &[char], pat: &str) -> (r: Option<usize>)
    ensures
        r matches Some(i) ==> is_first_at(s@, pat@, i as int) && contains_text(s@, pat@),
        r is None ==> !contains_text(s@, pat@),
{
    let p = chars_of(pat);
    let n: usize = s.len();
    let mut i: usize = 0;
    while i < n
        invariant
            n == s@.len(),
            p@ == pat@,
            i <= n,
            forall|j: int| 0 <= j < i ==> !occurs_at(s@, pat@, j),
        decreases n - i,
    {
        if stands_at(s, p.as_slice(), i) {
            return Some(i);
        }
        i = i + 1;
    }
    if stands_at(s, p.as_slice(), n) {
        return Some(n);
    }
    None
}

/// What follows the first occurrence of `pat` in `s`.
pub fn split_after<'a>(s: &'a [char], pat: &str) -> (r: Option<&'a [char]>)
    ensures
        match r {
            Some(rest) => after_first(s@, pat@) == Some(rest@),
            None => after_first(s@, pat@) is None,
        },
{
    match find_text(s, pat) {
        None => None,
        Some(i) => {
            let p = chars_of(pat);
            assert(i + p.len() <= s.len());
            let rest = slice_subrange(s, i + p.len(), s.len());
            assert(rest@ =~= s@.skip(i + pat@.len()));
            proof {
                let k = choose|k: int| is_first_at(s@, pat@, k);
                assert(is_first_at(s@, pat@, i as int));
                assert(k == i);
            }
            Some(rest)
        },
    }
}

/// What follows `pat` at the start of `s`, where `s` starts with it.
pub open spec fn without_prefix(s: Seq<char>, pat: Seq<char>) -> Option<Seq<char>> {
    if has_prefix(s, pat) {
        Some(s.skip(pat.len() as int))
    } else {
        None
    }
}

/// What follows `pat` at the start of `s`.
pub fn strip_prefix<'a>(s: &'a [char], pat: &str) -> (r: Option<&'a [char]>)
    ensures
        match r {
            Some(rest) => without_prefix(s@, pat@) == Some(rest@),
            None => without_prefix(s@, pat@) is None,
        },
{
    if starts_with(s, pat) {
        let p = chars_of(pat);
        let rest = slice_subrange(s, p.len(), s.len());
        assert(rest@ =~= s@.skip(pat@.len() as int));
        Some(rest)
    } else {
        None
    }
}

/// Whether a text equals a literal.
pub fn is_text(s: &[char], lit: &str) -> (r: bool)
    ensures
        r == (s@ == lit@),
{
    let l = chars_of(lit);
    same_chars(s, l.as_slice())
}

// ---------------------------------------------------------------------
// Splitting and joining
// ---------------------------------------------------------------------

/// The pieces of `s` between occurrences of `c`: one more than there are `c`s.
pub open spec fn split_on(s: Seq<char>, c: char) -> Seq<Seq<char>>
    decreases s.len(),
{
    let i = index_of(s, c);
    if 0 <= i < s.len() {
        seq![s.take(i)] + split_on(s.skip(i + 1), c)
    } else {
        seq![s]
    }
}

/// A line without the carriage return that its line feed may have left behind.
pub open spec fn strip_cr(s: Seq<char>) -> Seq<char> {
    if s.len() > 0 && s.last() == '\r' {
        s.drop_last()
    } else {
        s
    }
}

/// The lines of `s`: ended by LF or CR LF, the last line end being optional.
pub open spec fn lines_of(s: Seq<char>) -> Seq<Seq<char>>
    decreases s.len(),
{
    if s.len() == 0 {
        Seq::empty()
    } else {
        let i = index_of(s, '\n');
        if 0 <= i < s.len() {
            seq![strip_cr(s.take(i))] + lines_of(s.skip(i + 1))
        } else {
            seq![s]
        }
    }
}

/// The maximal runs of characters of `s` that are not white space.
pub open spec fn words_of(s: Seq<char>) -> Seq<Seq<char>>
    decreases s.len(),
    via words_of_decreases
{
    let t = trim_start_of(s);
    let n = word_len(t);
    if 0 < n <= t.len() {
        seq![t.take(n)] + words_of(t.skip(n))
    } else {
        Seq::empty()
    }
}

proof fn lemma_trim_start_len(s: Seq<char>)
    ensures
        trim_start_of(s).len() <= s.len(),
    decreases s.len(),
{
    if s.len() > 0 && is_white(s[0]) {
        lemma_trim_start_len(s.drop_first());
    }
}

#[via_fn]
proof fn words_of_decreases(s: Seq<char>) {
    lemma_trim_start_len(s);
}

/// The views of a list of character lists, in order.
pub open spec fn piece_views(v: Seq<Vec<char>>) -> Seq<Seq<char>> {
    Seq::new(v.len(), |i: int| v[i]@)
}

fn piece(s: &[char], from: usize, to: usize) -> (r: Vec<char>)
    requires
        from <= to <= s@.len(),
    ensures
        r@ == s@.subrange(from as int, to as int),
{
    let mut r: Vec<char> = Vec::new();
    for i in from..to
        invariant
            from <= to <= s@.len(),
            r@ == s@.subrange(from as int, i as int),
    {
        r.push(s[i]);
        assert(s@.subrange(from as int, i + 1) =~= s@.subrange(from as int, i as int).push(
            s@[i as int],
        ));
    }
    r
}

/// An owned copy of a text.
pub fn copy_chars(s: &[char]) -> (r: Vec<char>)
    ensures
        r@ == s@,
{
    let r = piece(s, 0, s.len());
    assert(s@.subrange(0, s@.len() as int) =~= s@);
    r
}

/// Splits at every `c`.
pub fn split(s: &[char], c: char) -> (r: Vec<Vec<char>>)
    ensures
        piece_views(r@) == split_on(s@, c),
        r@.len() >= 1,
{
    let mut r: Vec<Vec<char>> = Vec::new();
    let mut rest = s;
    assert(piece_views(r@) =~= Seq::<Seq<char>>::empty());
    assert(Seq::<Seq<char>>::empty() + split_on(s@, c) =~= split_on(s@, c));
    loop
        invariant_except_break
            split_on(s@, c) == piece_views(r@) + split_on(rest@, c),
        ensures
            split_on(s@, c) == piece_views(r@),
            r@.len() >= 1,
        decreases rest@.len(),
    {
        let i = find_char(rest, c);
        let p = piece(rest, 0, i);
        assert(p@ =~= rest@.take(i as int));
        let ghost before = r@;
        if i < rest.len() {
            let next = slice_subrange(rest, i + 1, rest.len());
            assert(next@ =~= rest@.skip(i + 1));
            r.push(p);
            assert(piece_views(r@) =~= piece_views(before) + seq![p@]);
            assert(piece_views(before) + (seq![p@] + split_on(next@, c)) =~= piece_views(r@)
                + split_on(next@, c));
            rest = next;
        } else {
            assert(p@ =~= rest@);
            r.push(p);
            assert(piece_views(r@) =~= piece_views(before) + seq![p@]);
            break ;
        }
    }
    r
}

/// Splits into lines.
pub fn lines(s: &[char]) -> (r: Vec<Vec<char>>)
    ensures
        piece_views(r@) == lines_of(s@),
{
    let mut r: Vec<Vec<char>> = Vec::new();
    let mut rest = s;
    assert(piece_views(r@) =~= Seq::<Seq<char>>::empty());
    assert(Seq::<Seq<char>>::empty() + lines_of(s@) =~= lines_of(s@));
    while rest.len() > 0
        invariant
            lines_of(s@) == piece_views(r@) + lines_of(rest@),
        decreases rest@.len(),
    {
        let i = find_char(rest, '\n');
        let ghost before = r@;
        if i < rest.len() {
            let next = slice_subrange(rest, i + 1, rest.len());
            assert(next@ =~= rest@.skip(i + 1));
            assert(rest@.take(i as int).len() > 0 ==> rest@.take(i as int).last() == rest@[i - 1]);
            let end = if i > 0 && rest[i - 1] == '\r' {
                i - 1
            } else {
                i
            };
            let p = piece(rest, 0, end);
            assert(p@ =~= strip_cr(rest@.take(i as int)));
            r.push(p);
            assert(piece_views(r@) =~= piece_views(before) + seq![p@]);
            assert(piece_views(before) + (seq![p@] + lines_of(next@)) =~= piece_views(r@)
                + lines_of(next@));
            rest = next;
        } else {
            let p = copy_chars(rest);
            r.push(p);
            assert(piece_views(r@) =~= piece_views(before) + seq![p@]);
            let none = slice_subrange(rest, 0, 0);
            assert(none@ =~= Seq::<char>::empty());
            assert(piece_views(r@) + lines_of(none@) =~= piece_views(r@));
            rest = none;
        }
    }
    assert(piece_views(r@) + lines_of(rest@) =~= piece_views(r@));
    r
}

/// Splits into words.
pub fn words(s: &[char]) -> (r: Vec<Vec<char>>)
    ensures
        piece_views(r@) == words_of(s@),
{
    let mut r: Vec<Vec<char>> = Vec::new();
    let mut rest = s;
    assert(piece_views(r@) =~= Seq::<Seq<char>>::empty());
    assert(Seq::<Seq<char>>::empty() + words_of(s@) =~= words_of(s@));
    loop
        invariant
            words_of(s@) == piece_views(r@) + words_of(rest@),
        ensures
            words_of(s@) == piece_views(r@),
        decreases rest@.len(),
    {
        let t = trim_start(rest);
        let n = word_end(t);
        let ghost before = r@;
        if n == 0 {
            assert(words_of(rest@) =~= Seq::<Seq<char>>::empty());
            assert(piece_views(r@) + words_of(rest@) =~= piece_views(r@));
            break ;
        }
        let p = piece(t, 0, n);
        assert(p@ =~= t@.take(n as int));
        let next = slice_subrange(t, n, t.len());
        assert(next@ =~= t@.skip(n as int));
        r.push(p);
        assert(piece_views(r@) =~= piece_views(before) + seq![p@]);
        assert(piece_views(before) + (seq![p@] + words_of(next@)) =~= piece_views(r@) + words_of(
            next@,
        ));
        rest = next;
    }
    r
}

/// The parts in order, `sep` between each two.
pub open spec fn join_of(parts: Seq<Seq<char>>, sep: Seq<char>) -> Seq<char>
    decreases parts.len(),
{
    if parts.len() == 0 {
        Seq::empty()
    } else if parts.len() == 1 {
        parts[0]
    } else {
        join_of(parts.drop_last(), sep) + sep + parts.last()
    }
}

/// Joins strings.
pub fn join(parts: &Vec<String>, sep: &str) -> (r: String)
    ensures
        r@ == join_of(views(parts@), sep@),
{
    let mut r = String::new();
    let n: usize = parts.len();
    for i in 0..n
        invariant
            n == parts@.len(),
            r@ == join_of(views(parts@).take(i as int), sep@),
    {
        let ghost upto = views(parts@).take(i + 1);
        assert(upto.drop_last() =~= views(parts@).take(i as int));
        assert(upto.last() == parts@[i as int]@);
        if i > 0 {
            r.append(sep);
        }
        r.append(parts[i].as_str());
        assert(i == 0 ==> r@ =~= upto[0]);
    }
    assert(views(parts@).take(n as int) =~= views(parts@));
    r
}

/// `s` with every occurrence of `pat`, found left to right without overlap,
/// replaced by `by`.
pub open spec fn replace_of(s: Seq<char>, pat: Seq<char>, by: Seq<char>) -> Seq<char>
    recommends
        pat.len() > 0,
    decreases s.len(),
{
    if s.len() == 0 {
        s
    } else if pat.len() > 0 && has_prefix(s, pat) {
        by + replace_of(s.skip(pat.len() as int), pat, by)
    } else {
        seq![s[0]] + replace_of(s.drop_first(), pat, by)
    }
}

/// Replaces every occurrence of `pat`.
pub fn replace(s: &[char], pat: &str, by: &str) -> (r: Vec<char>)
    requires
        pat@.len() > 0,
    ensures
        r@ == replace_of(s@, pat@, by@),
{
    let p = chars_of(pat);
    let b = chars_of(by);
    let mut r: Vec<char> = Vec::new();
    let n: usize = s.len();
    let mut i: usize = 0;
    assert(s@.skip(0) =~= s@);
    assert(r@ + replace_of(s@, pat@, by@) =~= replace_of(s@, pat@, by@));
    while i < n
        invariant
            n == s@.len(),
            p@ == pat@,
            b@ == by@,
            pat@.len() > 0,
            i <= n,
            replace_of(s@, pat@, by@) == r@ + replace_of(s@.skip(i as int), pat@, by@),
        decreases n - i,
    {
        let ghost rest = s@.skip(i as int);
        let ghost before = r@;
        let here = stands_at(s, p.as_slice(), i);
        assert(here ==> s@.subrange(i as int, i + pat@.len()) =~= rest.subrange(
            0,
            pat@.len() as int,
        ));
        assert(has_prefix(rest, pat@) ==> s@.subrange(i as int, i + pat@.len()) =~= rest.subrange(
            0,
            pat@.len() as int,
        ));
        if here {
            push_all(&mut r, b.as_slice());
            assert(rest.skip(pat@.len() as int) =~= s@.skip(i + pat@.len()));
            assert(before + (by@ + replace_of(rest.skip(pat@.len() as int), pat@, by@)) =~= r@
                + replace_of(rest.skip(pat@.len() as int), pat@, by@));
            i = i + p.len();
        } else {
            r.push(s[i]);
            assert(rest.drop_first() =~= s@.skip(i + 1));
            assert(before + (seq![rest[0]] + replace_of(rest.drop_first(), pat@, by@)) =~= r@
                + replace_of(rest.drop_first(), pat@, by@));
            i = i + 1;
        }
    }
    assert(s@.skip(n as int) =~= Seq::<char>::empty());
    assert(r@ + replace_of(s@.skip(n as int), pat@, by@) =~= r@);
    r
}

/// Appends a text.
pub fn push_all(out: &mut Vec<char>, s: &[char])
    ensures
        final(out)@ == old(out)@ + s@,
{
    let n: usize = s.len();
    for i in 0..n
        invariant
            n == s@.len(),
            out@ == old(out)@ + s@.take(i as int),
    {
        out.push(s[i]);
        assert(old(out)@ + s@.take(i + 1) =~= (old(out)@ + s@.take(i as int)).push(s@[i as int]));
    }
    assert(s@.take(n as int) =~= s@);
}

/// A copy of an optional string.
pub fn clone_opt(o: &Option<String>) -> (r: Option<String>)
    ensures
        r == *o,
{
    match o {
        Some(s) => Some(s.clone()),
        None => None,
    }
}

/// The text of an optional string slice.
pub open spec fn opt_str_view(o: Option<&str>) -> Option<Seq<char>> {
    match o {
        Some(s) => Some(s@),
        None => None,
    }
}

/// `head` followed by `tail`.
pub fn joined(head: &str, tail: &str) -> (r: String)
    ensures
        r@ == head@ + tail@,
{
    let mut s = head.to_owned();
    s.append(tail);
    s
}

/// Appends a string to a list.
pub fn push_owned(v: &mut Vec<String>, s: String)
    ensures
        views(final(v)@) == views(old(v)@).push(s@),
{
    v.push(s);
    assert(views(v@) =~= views(old(v)@).push(s@));
}

// ---------------------------------------------------------------------
// Numbers
// ---------------------------------------------------------------------

/// The decimal digit for `d`.
pub open spec fn digit_char(d: nat) -> char {
    (d + 48) as u8 as char
}

/// `n` in decimal, without leading zeros.
pub open spec fn decimal_of(n: nat) -> Seq<char>
    decreases n,
{
    if n < 10 {
        seq![digit_char(n)]
    } else {
        decimal_of(n / 10).push(digit_char(n % 10))
    }
}

/// Renders an unsigned integer in decimal.
pub fn decimal(n: u64) -> (r: String)
    ensures
        r@ == decimal_of(n as nat),
    decreases n,
{
    let d: u8 = (n % 10) as u8;
    let mut r = if n < 10 {
        String::new()
    } else {
        decimal(n / 10)
    };
    r.push((d + 48) as char);
    assert(n < 10 ==> r@ =~= seq![digit_char(n as nat)]);
    r
}

/// `n` in decimal with a minus sign where negative.
pub open spec fn signed_decimal_of(n: int) -> Seq<char> {
    if n < 0 {
        "-"@ + decimal_of((-n) as nat)
    } else {
        decimal_of(n as nat)
    }
}

/// Renders a signed integer in decimal.
pub fn signed_decimal(n: i64) -> (r: String)
    ensures
        r@ == signed_decimal_of(n as int),
{
    if n < 0 {
        let magnitude: u64 = (0 - n as i128) as u64;
        joined("-", decimal(magnitude).as_str())
    } else {
        decimal(n as u64)
    }
}

// ---------------------------------------------------------------------
// Quoting
// ---------------------------------------------------------------------

/// `s` as Rust's `Debug` renders a string: quoted, with escapes.
pub uninterp spec fn debug_quoted(s: Seq<char>) -> Seq<char>;

/// `format!("{:?}", s)`: the rendering of `s` by the `Debug` impl of `str`, which
/// depends on `s` alone. Which characters it escapes is not spelled out here.
#[verifier::external_body]
pub(crate) fn debug_text(s: &str) -> (r: String)
    ensures
        r@ == debug_quoted(s@),
{
    format!("{:?}", s)
}

/// A list of strings as Rust's `Debug` renders it.
pub open spec fn debug_list_of(items: Seq<Seq<char>>) -> Seq<char> {
    "["@ + join_of(Seq::new(items.len(), |i: int| debug_quoted(items[i])), ", "@) + "]"@
}

/// Renders a list of strings as `Debug` does.
pub fn debug_list(items: &Vec<String>) -> (r: String)
    ensures
        r@ == debug_list_of(views(items@)),
{
    let mut quoted: Vec<String> = Vec::new();
    let n: usize = items.len();
    for i in 0..n
        invariant
            n == items@.len(),
            quoted@.len() == i,
            forall|j: int| 0 <= j < i ==> quoted@[j]@ == debug_quoted(items@[j]@),
    {
        quoted.push(debug_text(items[i].as_str()));
    }
    assert(views(quoted@) =~= Seq::new(
        views(items@).len(),
        |i: int| debug_quoted(views(items@)[i]),
    ));
    let mut r = joined("[", join(&quoted, ", ").as_str());
    r.append("]");
    r
}

// ---------------------------------------------------------------------
// Bytes
// ---------------------------------------------------------------------

/// `bytes` decoded as UTF-8 with replacement characters for what is not.
pub uninterp spec fn utf8_lossy(bytes: Seq<u8>) -> Seq<char>;

/// `String::from_utf8_lossy`: valid UTF-8 decodes as it stands; of other bytes the
/// result depends on them alone, and how it is made is not spelled out here.
#[verifier::external_body]
pub(crate) fn lossy_text(bytes: &[u8]) -> (r: String)
    ensures
        r@ == utf8_lossy(bytes@),
        valid_utf8(bytes@) ==> r@ == decode_utf8(bytes@),
{
    String::from_utf8_lossy(bytes).into_owned()
}

/// Why `bytes` is not UTF-8.
pub uninterp spec fn utf8_complaint(bytes: Seq<u8>) -> Seq<char>;

/// What strict decoding makes of bytes: their text, or the reason against it.
pub open spec fn utf8_reading(bytes: Seq<u8>) -> Result<Seq<char>, Seq<char>> {
    if valid_utf8(bytes) {
        Ok(decode_utf8(bytes))
    } else {
        Err(utf8_complaint(bytes))
    }
}

/// `String::from_utf8`: succeeds on valid UTF-8 and no other bytes, with the text
/// they encode; otherwise the text of its error, which depends on the bytes alone.
#[verifier::external_body]
pub(crate) fn utf8_text(bytes: Vec<u8>) -> (r: Result<String, String>)
    ensures
        match r {
            Ok(s) => valid_utf8(bytes@) && s@ == decode_utf8(bytes@),
            Err(e) => !valid_utf8(bytes@) && e@ == utf8_complaint(bytes@),
        },
{
    String::from_utf8(bytes).map_err(|e| e.to_string())
}

/// A hexadecimal digit.
pub open spec fn hex_digit(d: nat) -> char {
    if d < 10 {
        ('0' as nat + d) as char
    } else {
        ('a' as nat + d - 10) as char
    }
}

/// The last `width` hexadecimal digits of a number.
pub open spec fn hex_of(n: nat, width: nat) -> Seq<char>
    decreases width,
{
    if width == 0 {
        Seq::empty()
    } else {
        hex_of(n / 16, (width - 1) as nat).push(hex_digit(n % 16))
    }
}

/// The last `width` hexadecimal digits of a number.
pub fn hex(n: u64, width: usize) -> (r: Vec<char>)
    ensures
        r@ == hex_of(n as nat, width as nat),
    decreases width,
{
    if width == 0 {
        return Vec::new();
    }
    let mut r = hex(n / 16, width - 1);
    let d: u8 = (n % 16) as u8;
    let c: u8 = if d < 10 {
        48 + d
    } else {
        87 + d
    };
    r.push(c as char);
    r
}

/// The texts of string slices, in order.
pub open spec fn str_views(v: Seq<&str>) -> Seq<Seq<char>> {
    Seq::new(v.len(), |i: int| v[i]@)
}

// ---------------------------------------------------------------------
// Reading numbers
// ---------------------------------------------------------------------

/// Whether a character is a decimal digit.
pub open spec fn is_decimal_digit(c: char) -> bool {
    '0' <= c && c <= '9'
}

/// Whether every character is a decimal digit.
pub open spec fn all_digits(s: Seq<char>) -> bool {
    forall|i: int| 0 <= i < s.len() ==> is_decimal_digit(#[trigger] s[i])
}

/// The number that digits spell.
pub open spec fn digits_value(s: Seq<char>) -> nat
    decreases s.len(),
{
    if s.len() == 0 {
        0
    } else {
        digits_value(s.drop_last()) * 10 + (s.last() as nat - '0' as nat) as nat
    }
}

/// The unsigned number that a text spells, up to `max`: digits, after a plus sign
/// if there is one.
pub open spec fn unsigned_of(s: Seq<char>, max: nat) -> Option<nat> {
    let digits = if s.len() > 0 && s[0] == '+' {
        s.skip(1)
    } else {
        s
    };
    if digits.len() > 0 && all_digits(digits) && digits_value(digits) <= max {
        Some(digits_value(digits))
    } else {
        None
    }
}

proof fn lemma_prefix_value(s: Seq<char>, n: int)
    requires
        0 <= n <= s.len(),
    ensures
        digits_value(s.take(n)) <= digits_value(s),
    decreases s.len() - n,
{
    if n < s.len() {
        assert(s.take(n + 1).drop_last() =~= s.take(n));
        lemma_prefix_value(s, n + 1);
    } else {
        assert(s.take(n) =~= s);
    }
}

/// Reads an unsigned number of 32 bits.
pub fn parse_u32(s: &[char]) -> (r: Option<u32>)
    ensures
        match r {
            Some(n) => unsigned_of(s@, u32::MAX as nat) == Some(n as nat),
            None => unsigned_of(s@, u32::MAX as nat) is None,
        },
{
    let from: usize = if s.len() > 0 && s[0] == '+' {
        1
    } else {
        0
    };
    let ghost digits = s@.skip(from as int);
    assert(from == 0 ==> digits =~= s@);
    if from == s.len() {
        return None;
    }
    let mut value: u64 = 0;
    let mut i: usize = from;
    while i < s.len()
        invariant
            from <= i <= s@.len(),
            digits == s@.skip(from as int),
            all_digits(digits.take(i - from)),
            value == digits_value(digits.take(i - from)),
            value <= u32::MAX,
            from == 1 <==> s@.len() > 0 && s@[0] == '+',
            from <= 1,
            from == 0 ==> digits == s@,
        decreases s@.len() - i,
    {
        let c: char = s[i];
        assert(digits[i - from] == c);
        if !('0' <= c && c <= '9') {
            return None;
        }
        let d: u64 = c as u64 - 48;
        value = value * 10 + d;
        assert(digits.take(i - from + 1).drop_last() =~= digits.take(i - from));
        assert(digits.take(i - from + 1).last() == c);
        proof {
            lemma_prefix_value(digits, i - from + 1);
        }
        if value > 4294967295 {
            return None;
        }
        assert forall|j: int| 0 <= j < digits.take(i - from + 1).len() implies is_decimal_digit(
            #[trigger] digits.take(i - from + 1)[j],
        ) by {
            if j < i - from {
                assert(digits.take(i - from)[j] == digits[j]);
            }
        }
        i = i + 1;
    }
    assert(digits.take(i - from) =~= digits);
    Some(value as u32)
}

/// The digits of a number spell it.
pub proof fn law_decimals_read_back(n: nat)
    ensures
        decimal_of(n).len() > 0,
        all_digits(decimal_of(n)),
        digits_value(decimal_of(n)) == n,
    decreases n,
{
    if n < 10 {
        let s = decimal_of(n);
        assert(s.drop_last() =~= Seq::<char>::empty());
        assert(digits_value(s.drop_last()) == 0);
    } else {
        law_decimals_read_back(n / 10);
        let s = decimal_of(n);
        assert(s.drop_last() =~= decimal_of(n / 10));
        assert forall|i: int| 0 <= i < s.len() implies is_decimal_digit(#[trigger] s[i]) by {
            if i < s.len() - 1 {
                assert(s[i] == decimal_of(n / 10)[i]);
            }
        }
    }
}

/// Different numbers are written differently.
pub proof fn law_signed_decimals_are_distinct(a: int, b: int)
    requires
        signed_decimal_of(a) == signed_decimal_of(b),
    ensures
        a == b,
{
    let m = if a < 0 {
        (-a) as nat
    } else {
        a as nat
    };
    let n = if b < 0 {
        (-b) as nat
    } else {
        b as nat
    };
    law_decimals_read_back(m);
    law_decimals_read_back(n);
    reveal_strlit("-");
    if a < 0 {
        assert(signed_decimal_of(a)[0] == '-');
        assert(signed_decimal_of(a).skip(1) =~= decimal_of(m));
    } else {
        assert(is_decimal_digit(signed_decimal_of(a)[0]));
    }
    if b < 0 {
        assert(signed_decimal_of(b)[0] == '-');
        assert(signed_decimal_of(b).skip(1) =~= decimal_of(n));
    } else {
        assert(is_decimal_digit(signed_decimal_of(b)[0]));
    }
}

// ---------------------------------------------------------------------
// Laws of trimming, splitting and joining
// ---------------------------------------------------------------------

/// Whether a text is nothing but white space.
pub open spec fn is_blank(s: Seq<char>) -> bool {
    forall|i: int| 0 <= i < s.len() ==> is_white(#[trigger] s[i])
}

/// Whether a text holds no white space.
pub open spec fn is_unbroken(s: Seq<char>) -> bool {
    forall|i: int| 0 <= i < s.len() ==> !is_white(#[trigger] s[i])
}

/// Leading white space is dropped, and nothing behind it.
pub proof fn law_leading_white_is_dropped(pad: Seq<char>, s: Seq<char>)
    requires
        is_blank(pad),
        s.len() > 0 ==> !is_white(s[0]),
    ensures
        trim_start_of(pad + s) == s,
    decreases pad.len(),
{
    if pad.len() == 0 {
        assert(pad + s =~= s);
    } else {
        let rest = pad.drop_first();
        assert(is_white(pad[0]));
        assert forall|i: int| 0 <= i < rest.len() implies is_white(#[trigger] rest[i]) by {
            assert(is_white(pad[i + 1]));
        }
        law_leading_white_is_dropped(rest, s);
        assert((pad + s).drop_first() =~= rest + s);
    }
}

/// Trailing white space is dropped, and nothing before it.
pub proof fn law_trailing_white_is_dropped(s: Seq<char>, pad: Seq<char>)
    requires
        is_blank(pad),
        s.len() > 0 ==> !is_white(s.last()),
    ensures
        trim_end_of(s + pad) == s,
    decreases pad.len(),
{
    if pad.len() == 0 {
        assert(s + pad =~= s);
    } else {
        let rest = pad.drop_last();
        assert(is_white(pad[pad.len() - 1]));
        assert forall|i: int| 0 <= i < rest.len() implies is_white(#[trigger] rest[i]) by {
            assert(is_white(pad[i]));
        }
        law_trailing_white_is_dropped(s, rest);
        assert((s + pad).drop_last() =~= s + rest);
    }
}

/// White space on both sides is dropped, and nothing between.
pub proof fn law_surrounding_white_is_dropped(pad: Seq<char>, s: Seq<char>, tail: Seq<char>)
    requires
        is_blank(pad),
        is_blank(tail),
        s.len() > 0 ==> !is_white(s[0]) && !is_white(s.last()),
    ensures
        trim_of(pad + s + tail) == s,
{
    if s.len() == 0 {
        let all = pad + s + tail;
        assert forall|i: int| 0 <= i < all.len() implies is_white(#[trigger] all[i]) by {
            if i < pad.len() {
                assert(is_white(pad[i]));
            } else {
                assert(is_white(tail[i - pad.len()]));
            }
        }
        law_leading_white_is_dropped(all, s);
        assert(all + s =~= all);
    } else {
        law_leading_white_is_dropped(pad, s + tail);
        assert(pad + s + tail =~= pad + (s + tail));
        law_trailing_white_is_dropped(s, tail);
    }
}

/// A word ends where the first white space stands.
pub proof fn law_a_word_ends_at_white(word: Seq<char>, rest: Seq<char>)
    requires
        is_unbroken(word),
        rest.len() > 0 ==> is_white(rest[0]),
    ensures
        word_len(word + rest) == word.len(),
    decreases word.len(),
{
    if word.len() == 0 {
        assert(word + rest =~= rest);
    } else {
        let tail = word.drop_first();
        assert(!is_white(word[0]));
        assert forall|i: int| 0 <= i < tail.len() implies !is_white(#[trigger] tail[i]) by {
            assert(!is_white(word[i + 1]));
        }
        law_a_word_ends_at_white(tail, rest);
        assert((word + rest).drop_first() =~= tail + rest);
    }
}

/// A text begins with its first word, whatever white space stands before it; the
/// rest has the other words. White space alone has none.
pub proof fn law_words_are_read_in_order(pad: Seq<char>, word: Seq<char>, rest: Seq<char>)
    requires
        is_blank(pad),
        is_unbroken(word),
        word.len() > 0,
        rest.len() > 0 ==> is_white(rest[0]),
    ensures
        words_of(pad + word + rest) == seq![word] + words_of(rest),
        words_of(pad) == Seq::<Seq<char>>::empty(),
{
    let s = pad + word + rest;
    assert(!is_white(word[0]));
    assert(s =~= pad + (word + rest));
    law_leading_white_is_dropped(pad, word + rest);
    law_a_word_ends_at_white(word, rest);
    let t = word + rest;
    assert(t.take(word.len() as int) =~= word);
    assert(t.skip(word.len() as int) =~= rest);
    law_leading_white_is_dropped(pad, Seq::empty());
    assert(pad + Seq::<char>::empty() =~= pad);
}

/// The first `c` is found where it stands.
pub proof fn law_the_first_is_found(before: Seq<char>, c: char, after: Seq<char>)
    requires
        !before.contains(c),
    ensures
        index_of(before + seq![c] + after, c) == before.len(),
        index_of(before, c) == before.len(),
    decreases before.len(),
{
    let s = before + seq![c] + after;
    if before.len() == 0 {
        assert(s[0] == c);
    } else {
        let tail = before.drop_first();
        assert(before.contains(before[0]));
        assert forall|x: char| tail.contains(x) implies before.contains(x) by {
            let i = choose|i: int| 0 <= i < tail.len() && tail[i] == x;
            assert(before[i + 1] == x);
        }
        law_the_first_is_found(tail, c, after);
        assert(s.drop_first() =~= tail + seq![c] + after);
        assert(s[0] == before[0]);
    }
}

/// Splitting cuts at every separator: what stands before the first one is the
/// first piece, and the rest is split on; without one the text is the one piece.
pub proof fn law_pieces_are_cut_at_separators(before: Seq<char>, c: char, after: Seq<char>)
    requires
        !before.contains(c),
    ensures
        split_on(before + seq![c] + after, c) == seq![before] + split_on(after, c),
        split_on(before, c) == seq![before],
{
    law_the_first_is_found(before, c, after);
    let s = before + seq![c] + after;
    assert(s.take(before.len() as int) =~= before);
    assert(s.skip(before.len() as int + 1) =~= after);
}

/// A line ends at its line feed, with or without a carriage return before it; the
/// last one may also end with the text.
pub proof fn law_lines_end_at_line_feeds(line: Seq<char>, after: Seq<char>)
    requires
        !line.contains('\n'),
    ensures
        lines_of(line + seq!['\n'] + after) == seq![
            if line.len() > 0 && line.last() == '\r' {
                line.drop_last()
            } else {
                line
            },
        ] + lines_of(after),
        line.len() > 0 ==> lines_of(line) == seq![line],
        lines_of(Seq::empty()) == Seq::<Seq<char>>::empty(),
{
    law_the_first_is_found(line, '\n', after);
    let s = line + seq!['\n'] + after;
    assert(s.take(line.len() as int) =~= line);
    assert(s.skip(line.len() as int + 1) =~= after);
}

/// Joining puts the separator between the parts, and only there.
pub proof fn law_joining_separates(parts: Seq<Seq<char>>, part: Seq<char>, sep: Seq<char>)
    ensures
        join_of(Seq::empty(), sep) == Seq::<char>::empty(),
        parts.len() > 0 ==> join_of(parts.push(part), sep) == join_of(parts, sep) + sep + part,
        join_of(seq![part], sep) == part,
{
    assert(parts.push(part).drop_last() =~= parts);
}

/// Where the pattern stands it is replaced, and what stands elsewhere stays.
pub proof fn law_replacing_keeps_the_rest(s: Seq<char>, pat: Seq<char>, by: Seq<char>)
    requires
        pat.len() > 0,
    ensures
        replace_of(pat + s, pat, by) == by + replace_of(s, pat, by),
        (forall|i: int| 0 <= i ==> !#[trigger] occurs_at(s, pat, i)) ==> replace_of(s, pat, by) == s,
    decreases s.len(),
{
    assert((pat + s).subrange(0, pat.len() as int) =~= pat);
    assert((pat + s).skip(pat.len() as int) =~= s);
    assert(occurs_at(pat + s, pat, 0));
    if s.len() > 0 && (forall|i: int| 0 <= i ==> !#[trigger] occurs_at(s, pat, i)) {
        let rest = s.drop_first();
        assert forall|i: int| 0 <= i implies !#[trigger] occurs_at(rest, pat, i) by {
            assert(!occurs_at(s, pat, i + 1));
            if i + pat.len() <= rest.len() {
                assert(rest.subrange(i, i + pat.len()) =~= s.subrange(i + 1, i + 1 + pat.len()));
            }
        }
        law_replacing_keeps_the_rest(rest, pat, by);
        assert(!occurs_at(s, pat, 0));
        assert(seq![s[0]] + rest =~= s);
    }
}

/// What follows the first occurrence is all that follows it.
pub proof fn law_the_first_occurrence_decides(before: Seq<char>, pat: Seq<char>, after: Seq<char>)
    requires
        forall|i: int|
            0 <= i < before.len() ==> !#[trigger] occurs_at(before + pat + after, pat, i),
    ensures
        after_first(before + pat + after, pat) == Some(after),
{
    let s = before + pat + after;
    let n = before.len() as int;
    assert(s.subrange(n, n + pat.len()) =~= pat);
    assert(occurs_at(s, pat, n));
    assert(is_first_at(s, pat, n));
    let k = choose|k: int| is_first_at(s, pat, k);
    assert(k == n);
    assert(s.skip(n + pat.len()) =~= after);
}

/// What is white space, among the characters of ASCII.
pub proof fn law_ascii_white(c: char)
    requires
        (c as u32) < 128,
    ensures
        is_white(c) == (c == ' ' || c == '\t' || c == '\n' || c == '\r' || c == '\x0b' || c
            == '\x0c'),
{
}

/// Lowering maps the capitals to their small letters and leaves the rest.
pub proof fn law_lowering_is_for_capitals(s: Seq<char>, i: int)
    requires
        0 <= i < s.len(),
    ensures
        ascii_lower(s).len() == s.len(),
        'A' <= s[i] <= 'Z' ==> ascii_lower(s)[i] as u32 == s[i] as u32 + 32,
        !('A' <= s[i] <= 'Z') ==> ascii_lower(s)[i] == s[i],
{
}

/// Hexadecimal digits are those of the number, most significant first.
pub proof fn law_hexadecimal_digits(n: nat, width: nat, d: nat)
    ensures
        hex_of(n, width).len() == width,
        width > 0 ==> hex_of(n, width).last() == hex_digit(n % 16) && hex_of(n, width).drop_last()
            == hex_of(n / 16, (width - 1) as nat),
        d < 10 ==> hex_digit(d) as nat == '0' as nat + d,
        10 <= d < 16 ==> hex_digit(d) as nat == 'a' as nat + (d - 10),
    decreases width,
{
    if width > 0 {
        law_hexadecimal_digits(n / 16, (width - 1) as nat, d);
        assert(hex_of(n, width).drop_last() =~= hex_of(n / 16, (width - 1) as nat));
    }
}

} // verus!
