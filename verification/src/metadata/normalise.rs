//! Normal forms of names and titles.

use crate::text::{
    all_digits, ascii_lower, chars_of, contains_text, ends_with, find_text, has_suffix,
    is_decimal_digit, join, join_of, joined,
    piece_views, push_all, push_owned, replace, replace_of, split, split_on, text_of,
    to_ascii_lower, trim, trim_end, trim_end_of, trim_of, views, words, words_of,
};
use crate::text::{
    is_blank, is_unbroken, is_white, law_replacing_keeps_the_rest, law_trailing_white_is_dropped,
    law_words_are_read_in_order, occurs_at,
};
use vstd::prelude::*;
use vstd::slice::slice_subrange;

verus! {

// ---------------------------------------------------------------------
// Cache keys
// ---------------------------------------------------------------------

/// A character in lower case: one or more characters.
pub uninterp spec fn lowercase_of(c: char) -> Seq<char>;

/// `char::to_lowercase`. What comes out depends on the character alone; Unicode's
/// tables are not spelled out here.
#[verifier::external_body]
fn lowercase(c: char) -> (r: Vec<char>)
    ensures
        r@ == lowercase_of(c),
{
    c.to_lowercase().collect()
}

/// A text in lower case, character by character.
pub open spec fn lowered(s: Seq<char>) -> Seq<char>
    decreases s.len(),
{
    if s.len() == 0 {
        Seq::empty()
    } else {
        lowered(s.drop_last()) + lowercase_of(s.last())
    }
}

fn to_lower(s: &[char]) -> (r: Vec<char>)
    ensures
        r@ == lowered(s@),
{
    let mut r: Vec<char> = Vec::new();
    let n: usize = s.len();
    for i in 0..n
        invariant
            n == s@.len(),
            r@ == lowered(s@.take(i as int)),
    {
        assert(s@.take(i + 1).drop_last() =~= s@.take(i as int));
        push_all(&mut r, lowercase(s[i]).as_slice());
    }
    assert(s@.take(n as int) =~= s@);
    r
}

/// Words in lower case.
pub open spec fn lowered_words(words: Seq<Seq<char>>) -> Seq<Seq<char>> {
    Seq::new(words.len(), |i: int| lowered(words[i]))
}

/// The form under which a name is looked up: its words in lower case, one blank
/// between each two.
pub open spec fn normal_form(s: Seq<char>) -> Seq<char> {
    join_of(lowered_words(words_of(s)), " "@)
}

/// Lower case, white space collapsed and trimmed.
pub fn normalise(s: &str) -> (r: String)
    ensures
        r@ == normal_form(s@),
{
    let all = words(chars_of(s).as_slice());
    let mut parts: Vec<String> = Vec::new();
    let n: usize = all.len();
    for i in 0..n
        invariant
            n == all@.len(),
            parts@.len() == i,
            forall|k: int| 0 <= k < i ==> (#[trigger] parts@[k])@ == lowered(all@[k]@),
    {
        parts.push(text_of(to_lower(all[i].as_slice()).as_slice()));
    }
    assert(views(parts@) =~= lowered_words(piece_views(all@)));
    join(&parts, " ")
}

// ---------------------------------------------------------------------
// Album titles
// ---------------------------------------------------------------------

/// Words that mark an edition of an album.
pub open spec fn edition_suffixes() -> Seq<Seq<char>> {
    seq![
        "deluxe"@,
        "deluxe version"@,
        "deluxe edition"@,
        "expanded edition"@,
        "expanded version"@,
        "special edition"@,
        "anniversary edition"@,
        "bonus track version"@,
        "bonus track edition"@,
        "bonus tracks version"@,
        "remastered"@,
        "remaster"@,
        "remastered version"@,
    ]
}

fn edition_words() -> (r: Vec<String>)
    ensures
        views(r@) == edition_suffixes(),
{
    let mut r: Vec<String> = Vec::new();
    push_owned(&mut r, "deluxe".to_owned());
    push_owned(&mut r, "deluxe version".to_owned());
    push_owned(&mut r, "deluxe edition".to_owned());
    push_owned(&mut r, "expanded edition".to_owned());
    push_owned(&mut r, "expanded version".to_owned());
    push_owned(&mut r, "special edition".to_owned());
    push_owned(&mut r, "anniversary edition".to_owned());
    push_owned(&mut r, "bonus track version".to_owned());
    push_owned(&mut r, "bonus track edition".to_owned());
    push_owned(&mut r, "bonus tracks version".to_owned());
    push_owned(&mut r, "remastered".to_owned());
    push_owned(&mut r, "remaster".to_owned());
    push_owned(&mut r, "remastered version".to_owned());
    assert(views(r@) =~= edition_suffixes());
    r
}

/// Whether a lower-case title ends with an edition in brackets.
pub open spec fn brackets_edition(lower: Seq<char>, suffix: Seq<char>) -> bool {
    ||| has_suffix(lower, "("@ + suffix + ")"@)
    ||| has_suffix(lower, "("@ + suffix + " version)"@)
    ||| has_suffix(lower, "("@ + suffix + " edition)"@)
}

/// Whether a lower-case title ends with a remaster of some year in brackets, such
/// as `(2009 remaster)`.
pub open spec fn brackets_dated_remaster(lower: Seq<char>) -> bool {
    let year_end = lower.len() - " remaster)"@.len();
    &&& has_suffix(lower, " remaster)"@)
    &&& year_end >= 5
    &&& lower[year_end - 5] == '('
    &&& all_digits(lower.subrange(year_end - 4, year_end))
}

/// Whether a lower-case title ends with any edition in brackets.
pub open spec fn ends_in_edition(lower: Seq<char>) -> bool {
    ||| brackets_dated_remaster(lower)
    ||| exists|i: int|
        0 <= i < edition_suffixes().len() && brackets_edition(
            lower,
            #[trigger] edition_suffixes()[i],
        )
}

/// The last position of a character, or -1.
pub open spec fn last_index_of(s: Seq<char>, c: char) -> int
    decreases s.len(),
{
    if s.len() == 0 {
        -1
    } else if s.last() == c {
        s.len() - 1
    } else {
        last_index_of(s.drop_last(), c)
    }
}

/// A title without the editions in brackets at its end.
pub open spec fn without_bracketed(s: Seq<char>) -> Seq<char>
    decreases s.len(),
    via without_bracketed_decreases
{
    let i = last_index_of(s, '(');
    if ends_in_edition(ascii_lower(s)) && i >= 0 {
        without_bracketed(trim_end_of(s.take(i)))
    } else {
        s
    }
}

proof fn lemma_last_index_bounds(s: Seq<char>, c: char)
    ensures
        -1 <= last_index_of(s, c) < s.len(),
    decreases s.len(),
{
    if s.len() > 0 && s.last() != c {
        lemma_last_index_bounds(s.drop_last(), c);
    }
}

proof fn lemma_trim_end_len(s: Seq<char>)
    ensures
        trim_end_of(s).len() <= s.len(),
    decreases s.len(),
{
    if s.len() > 0 {
        lemma_trim_end_len(s.drop_last());
    }
}

#[via_fn]
proof fn without_bracketed_decreases(s: Seq<char>) {
    lemma_last_index_bounds(s, '(');
    let i = last_index_of(s, '(');
    if i >= 0 {
        lemma_trim_end_len(s.take(i));
    }
}

fn find_last(s: &[char], c: char) -> (r: Option<usize>)
    ensures
        match r {
            Some(i) => i == last_index_of(s@, c) && i < s@.len(),
            None => last_index_of(s@, c) == -1,
        },
{
    let mut n: usize = s.len();
    assert(s@.take(n as int) =~= s@);
    while n > 0
        invariant
            n <= s@.len(),
            last_index_of(s@, c) == last_index_of(s@.take(n as int), c),
        decreases n,
    {
        assert(s@.take(n as int).last() == s@[n - 1]);
        assert(s@.take(n as int).drop_last() =~= s@.take(n - 1));
        if s[n - 1] == c {
            return Some(n - 1);
        }
        n = n - 1;
    }
    None
}

fn three(a: &str, b: &str, c: &str) -> (r: Vec<char>)
    ensures
        r@ == a@ + b@ + c@,
{
    let mut t = joined(a, b);
    t.append(c);
    chars_of(t.as_str())
}

fn is_dated_remaster(lower: &[char]) -> (r: bool)
    ensures
        r == brackets_dated_remaster(lower@),
{
    let tail = chars_of(" remaster)");
    if !ends_with(lower, tail.as_slice()) {
        return false;
    }
    let year_end: usize = lower.len() - tail.len();
    if year_end < 5 || lower[year_end - 5] != '(' {
        return false;
    }
    let ghost year = lower@.subrange(year_end - 4, year_end as int);
    for i in 0..4usize
        invariant
            5 <= year_end <= lower@.len(),
            year == lower@.subrange(year_end - 4, year_end as int),
            forall|k: int| 0 <= k < i ==> is_decimal_digit(#[trigger] year[k]),
            year_end == lower@.len() - " remaster)"@.len(),
    {
        let c: char = lower[year_end - 4 + i];
        assert(year[i as int] == c);
        if c < '0' || c > '9' {
            return false;
        }
    }
    true
}

fn is_edition(lower: &[char], suffixes: &Vec<String>) -> (r: bool)
    requires
        views(suffixes@) == edition_suffixes(),
    ensures
        r == ends_in_edition(lower@),
{
    if is_dated_remaster(lower) {
        return true;
    }
    let n: usize = suffixes.len();
    assert(views(suffixes@).len() == n);
    for i in 0..n
        invariant
            n == suffixes@.len(),
            views(suffixes@) == edition_suffixes(),
            !brackets_dated_remaster(lower@),
            forall|k: int|
                0 <= k < i ==> !brackets_edition(lower@, #[trigger] edition_suffixes()[k]),
    {
        let s = suffixes[i].as_str();
        assert(views(suffixes@)[i as int] == s@);
        if ends_with(lower, three("(", s, ")").as_slice()) || ends_with(
            lower,
            three("(", s, " version)").as_slice(),
        ) || ends_with(lower, three("(", s, " edition)").as_slice()) {
            assert(brackets_edition(lower@, edition_suffixes()[i as int]));
            return true;
        }
    }
    false
}

/// How many characters an edition behind a dash takes at the end of a lower-case
/// title: that of the first suffix that stands there.
pub open spec fn dashed_len(lower: Seq<char>, suffixes: Seq<Seq<char>>) -> nat
    decreases suffixes.len(),
{
    if suffixes.len() == 0 {
        0
    } else {
        let plain = " - "@ + suffixes[0];
        if has_suffix(lower, plain) {
            plain.len()
        } else if has_suffix(lower, plain + " edition"@) {
            (plain + " edition"@).len()
        } else if has_suffix(lower, plain + " version"@) {
            (plain + " version"@).len()
        } else {
            dashed_len(lower, suffixes.skip(1))
        }
    }
}

/// A title without the edition behind a dash at its end.
pub open spec fn without_dashed(s: Seq<char>) -> Seq<char> {
    s.take(s.len() - dashed_len(ascii_lower(s), edition_suffixes()))
}

fn dashed(lower: &[char], suffixes: &Vec<String>) -> (r: usize)
    requires
        views(suffixes@) == edition_suffixes(),
    ensures
        r == dashed_len(lower@, edition_suffixes()),
        r <= lower@.len(),
{
    let n: usize = suffixes.len();
    let ghost all = edition_suffixes();
    assert(views(suffixes@).len() == n);
    assert(all.skip(0) =~= all);
    for i in 0..n
        invariant
            n == suffixes@.len() == all.len(),
            views(suffixes@) == all,
            all == edition_suffixes(),
            dashed_len(lower@, all) == dashed_len(lower@, all.skip(i as int)),
    {
        let s = suffixes[i].as_str();
        assert(views(suffixes@)[i as int] == s@);
        assert(all.skip(i as int)[0] == s@);
        assert(all.skip(i as int).skip(1) =~= all.skip(i + 1));
        let plain = three(" - ", s, "");
        assert(plain@ =~= " - "@ + s@) by {
            reveal_strlit("");
        }
        if ends_with(lower, plain.as_slice()) {
            return plain.len();
        }
        let edition = three(" - ", s, " edition");
        if ends_with(lower, edition.as_slice()) {
            return edition.len();
        }
        let version = three(" - ", s, " version");
        if ends_with(lower, version.as_slice()) {
            return version.len();
        }
    }
    0
}

/// Words that stay in lower case within a title.
pub open spec fn connective_words() -> Seq<Seq<char>> {
    seq![
        "a"@,
        "an"@,
        "and"@,
        "as"@,
        "at"@,
        "but"@,
        "by"@,
        "for"@,
        "from"@,
        "in"@,
        "is"@,
        "of"@,
        "on"@,
        "or"@,
        "the"@,
        "to"@,
        "with"@,
    ]
}

fn connectives() -> (r: Vec<String>)
    ensures
        views(r@) == connective_words(),
{
    let mut r: Vec<String> = Vec::new();
    push_owned(&mut r, "a".to_owned());
    push_owned(&mut r, "an".to_owned());
    push_owned(&mut r, "and".to_owned());
    push_owned(&mut r, "as".to_owned());
    push_owned(&mut r, "at".to_owned());
    push_owned(&mut r, "but".to_owned());
    push_owned(&mut r, "by".to_owned());
    push_owned(&mut r, "for".to_owned());
    push_owned(&mut r, "from".to_owned());
    push_owned(&mut r, "in".to_owned());
    push_owned(&mut r, "is".to_owned());
    push_owned(&mut r, "of".to_owned());
    push_owned(&mut r, "on".to_owned());
    push_owned(&mut r, "or".to_owned());
    push_owned(&mut r, "the".to_owned());
    push_owned(&mut r, "to".to_owned());
    push_owned(&mut r, "with".to_owned());
    assert(views(r@) =~= connective_words());
    r
}

/// Whether a word ends with a colon.
pub open spec fn ends_with_colon(w: Seq<char>) -> bool {
    w.len() > 0 && w.last() == ':'
}

/// The `i`-th word of a title, in lower case if it is a connective that opens
/// neither the title nor a subtitle.
pub open spec fn cased_word(words: Seq<Seq<char>>, i: int) -> Seq<char> {
    if i > 0 && !ends_with_colon(words[i - 1]) && connective_words().contains(
        ascii_lower(words[i]),
    ) {
        ascii_lower(words[i])
    } else {
        words[i]
    }
}

/// A title with its connectives in lower case.
pub open spec fn title_cased(title: Seq<char>) -> Seq<char> {
    let words = split_on(title, ' ');
    join_of(Seq::new(words.len(), |i: int| cased_word(words, i)), " "@)
}

fn is_connective(word: &[char], connectives: &Vec<String>) -> (r: bool)
    requires
        views(connectives@) == connective_words(),
    ensures
        r == connective_words().contains(word@),
{
    let n: usize = connectives.len();
    assert(views(connectives@).len() == n);
    for i in 0..n
        invariant
            n == connectives@.len(),
            views(connectives@) == connective_words(),
            forall|k: int| 0 <= k < i ==> connective_words()[k] != word@,
    {
        assert(views(connectives@)[i as int] == connectives@[i as int]@);
        if crate::text::is_text(word, connectives[i].as_str()) {
            assert(connective_words()[i as int] == word@);
            return true;
        }
    }
    false
}

/// Lower-cases the connectives within a title.
pub fn lowercase_connective_words(title: &str) -> (r: String)
    ensures
        r@ == title_cased(title@),
{
    let list = connectives();
    let pieces = split(chars_of(title).as_slice(), ' ');
    let ghost words = piece_views(pieces@);
    let mut out: Vec<String> = Vec::new();
    let n: usize = pieces.len();
    for i in 0..n
        invariant
            n == pieces@.len() == words.len(),
            words == piece_views(pieces@),
            views(list@) == connective_words(),
            out@.len() == i,
            forall|k: int| 0 <= k < i ==> (#[trigger] out@[k])@ == cased_word(words, k),
    {
        assert(words[i as int] == pieces@[i as int]@);
        let opens = if i == 0 {
            true
        } else {
            assert(words[i - 1] == pieces@[i - 1]@);
            let m: usize = pieces[i - 1].len();
            m > 0 && pieces[i - 1][m - 1] == ':'
        };
        let lower = to_ascii_lower(pieces[i].as_slice());
        if !opens && is_connective(lower.as_slice(), &list) {
            out.push(text_of(lower.as_slice()));
        } else {
            out.push(text_of(pieces[i].as_slice()));
        }
    }
    assert(views(out@) =~= Seq::new(words.len(), |i: int| cased_word(words, i)));
    join(&out, " ")
}

/// The title under which providers are asked for an album: without editions at
/// its end, a colon before the subtitle, connectives in lower case.
pub open spec fn album_query(title: Seq<char>) -> Seq<char> {
    let plain = without_dashed(without_bracketed(trim_of(title)));
    trim_of(title_cased(replace_of(plain, " - "@, ": "@)))
}

/// The title under which providers are asked for an album.
pub fn normalise_album_query(title: &str) -> (r: String)
    ensures
        r@ == album_query(title@),
{
    let suffixes = edition_words();
    let whole = chars_of(title);
    let mut cleaned = trim(whole.as_slice());
    loop
        invariant_except_break
            without_bracketed(trim_of(title@)) == without_bracketed(cleaned@),
        invariant
            views(suffixes@) == edition_suffixes(),
        ensures
            cleaned@ == without_bracketed(trim_of(title@)),
        decreases cleaned@.len(),
    {
        let lower = to_ascii_lower(cleaned);
        if !is_edition(lower.as_slice(), &suffixes) {
            break ;
        }
        match find_last(cleaned, '(') {
            Some(i) => {
                let cut = slice_subrange(cleaned, 0, i);
                assert(cut@ =~= cleaned@.take(i as int));
                proof {
                    lemma_trim_end_len(cut@);
                }
                cleaned = trim_end(cut);
            },
            None => {
                break ;
            },
        }
    }
    let lower = to_ascii_lower(cleaned);
    let gone = dashed(lower.as_slice(), &suffixes);
    let plain = slice_subrange(cleaned, 0, cleaned.len() - gone);
    assert(plain@ =~= without_dashed(cleaned@));
    proof {
        reveal_strlit(" - ");
    }
    let colons = replace(plain, " - ", ": ");
    let cased = lowercase_connective_words(text_of(colons.as_slice()).as_str());
    text_of(trim(chars_of(cased.as_str()).as_slice()))
}

/// A title that ends in no edition and has no subtitle behind a dash is asked for
/// as it is, but for white space around it and the case of its connectives.
pub proof fn law_plain_titles_are_kept(title: Seq<char>)
    requires
        !ends_in_edition(ascii_lower(trim_of(title))),
        dashed_len(ascii_lower(trim_of(title)), edition_suffixes()) == 0,
        replace_of(trim_of(title), " - "@, ": "@) == trim_of(title),
    ensures
        album_query(title) == trim_of(title_cased(trim_of(title))),
{
    assert(without_dashed(trim_of(title)) =~= trim_of(title));
}

// ---------------------------------------------------------------------
// Disambiguation
// ---------------------------------------------------------------------

/// Whether prose tells several artists of one name apart instead of describing
/// one.
pub open spec fn tells_apart(prose: Seq<char>) -> bool {
    let lower = ascii_lower(prose);
    ||| contains_text(lower, "there are at least"@)
    ||| contains_text(lower, "there are several artists"@)
    ||| contains_text(lower, "there are multiple artists"@)
    ||| contains_text(lower, "the following order is loosely based"@)
}

/// Whether prose tells several artists of one name apart.
pub fn is_lastfm_disambiguation_stub(prose: &str) -> (r: bool)
    ensures
        r == tells_apart(prose@),
{
    let lower = to_ascii_lower(chars_of(prose).as_slice());
    find_text(lower.as_slice(), "there are at least").is_some() || find_text(
        lower.as_slice(),
        "there are several artists",
    ).is_some() || find_text(lower.as_slice(), "there are multiple artists").is_some()
        || find_text(lower.as_slice(), "the following order is loosely based").is_some()
}

/// Lower case is taken character by character.
pub proof fn law_lowering_is_by_character(a: Seq<char>, b: Seq<char>, c: char)
    ensures
        lowered(a + b) == lowered(a) + lowered(b),
        lowered(seq![c]) == lowercase_of(c),
    decreases b.len(),
{
    assert(seq![c].drop_last() =~= Seq::<char>::empty());
    assert(lowered(seq![c]) =~= lowercase_of(c)) by {
        reveal_with_fuel(lowered, 2);
    }
    if b.len() == 0 {
        assert(a + b =~= a);
        assert(lowered(a) + lowered(b) =~= lowered(a));
    } else {
        law_lowering_is_by_character(a, b.drop_last(), c);
        assert((a + b).drop_last() =~= a + b.drop_last());
        assert((a + b).last() == b.last());
        assert(lowered(a) + lowered(b) =~= lowered(a) + lowered(b.drop_last()) + lowercase_of(
            b.last(),
        ));
    }
}

/// The form under which a name is looked up is its words in lower case with one
/// blank between each two, whatever white space stood around and between them.
pub proof fn law_spacing_and_case_do_not_count(pad: Seq<char>, word: Seq<char>, rest: Seq<char>)
    requires
        is_blank(pad),
        is_unbroken(word),
        word.len() > 0,
        rest.len() > 0 ==> is_white(rest[0]),
    ensures
        words_of(rest).len() > 0 ==> normal_form(pad + word + rest) == lowered(word) + " "@
            + normal_form(rest),
        words_of(rest).len() == 0 ==> normal_form(pad + word + rest) == lowered(word),
        normal_form(pad) == Seq::<char>::empty(),
{
    law_words_are_read_in_order(pad, word, rest);
    let tail = lowered_words(words_of(rest));
    let all = lowered_words(words_of(pad + word + rest));
    assert(all =~= seq![lowered(word)] + tail);
    if tail.len() > 0 {
        lemma_join_front(lowered(word), tail, " "@);
    } else {
        assert(all =~= seq![lowered(word)]);
    }
    assert(lowered_words(words_of(pad)) =~= Seq::<Seq<char>>::empty());
}

proof fn lemma_join_front(first: Seq<char>, rest: Seq<Seq<char>>, sep: Seq<char>)
    requires
        rest.len() > 0,
    ensures
        join_of(seq![first] + rest, sep) == first + sep + join_of(rest, sep),
    decreases rest.len(),
{
    let all = seq![first] + rest;
    assert(all.last() == rest.last());
    assert(all.drop_last() =~= seq![first] + rest.drop_last());
    if rest.len() == 1 {
        assert(all.drop_last() =~= seq![first]);
        assert(join_of(seq![first], sep) == first);
        assert(join_of(rest, sep) == rest[0]);
        assert(join_of(all, sep) == join_of(all.drop_last(), sep) + sep + all.last());
    } else {
        lemma_join_front(first, rest.drop_last(), sep);
        assert(first + sep + join_of(rest, sep) =~= (first + sep + join_of(rest.drop_last(), sep))
            + sep + rest.last());
    }
}

/// Whether a text marks an edition of an album.
pub open spec fn marks_edition(s: Seq<char>) -> bool {
    ||| s == "deluxe"@
    ||| s == "deluxe version"@
    ||| s == "deluxe edition"@
    ||| s == "expanded edition"@
    ||| s == "expanded version"@
    ||| s == "special edition"@
    ||| s == "anniversary edition"@
    ||| s == "bonus track version"@
    ||| s == "bonus track edition"@
    ||| s == "bonus tracks version"@
    ||| s == "remastered"@
    ||| s == "remaster"@
    ||| s == "remastered version"@
}

proof fn lemma_last_bracket(front: Seq<char>, tail: Seq<char>)
    requires
        tail.len() > 0,
        tail[0] == '(',
        forall|i: int| 1 <= i < tail.len() ==> #[trigger] tail[i] != '(',
    ensures
        last_index_of(front + tail, '(') == front.len(),
    decreases tail.len(),
{
    let s = front + tail;
    assert(s.last() == tail.last());
    if tail.len() > 1 {
        assert(tail[tail.len() - 1] != '(');
        assert(s.drop_last() =~= front + tail.drop_last());
        lemma_last_bracket(front, tail.drop_last());
    }
}

/// An edition in brackets at the end of a title does not count: the album is asked
/// for as without it, whatever the case of the edition and the white space before
/// it.
pub proof fn law_bracketed_editions_do_not_count(
    title: Seq<char>,
    pad: Seq<char>,
    tail: Seq<char>,
    edition: Seq<char>,
)
    requires
        title.len() > 0,
        !is_white(title.last()),
        is_blank(pad),
        marks_edition(edition),
        ascii_lower(tail) == "("@ + edition + ")"@,
        forall|i: int| 1 <= i < tail.len() ==> #[trigger] tail[i] != '(',
    ensures
        without_bracketed(title + pad + tail) == without_bracketed(title),
{
    let s = title + pad + tail;
    let lower = ascii_lower(s);
    reveal_strlit("(");
    reveal_strlit(")");
    assert(tail.len() == ascii_lower(tail).len());
    assert(ascii_lower(tail)[0] == '(');
    assert(tail[0] == '(');
    let front = title + pad;
    lemma_last_bracket(front, tail);
    assert(s =~= front + tail);
    assert(s.take(front.len() as int) =~= front);
    law_trailing_white_is_dropped(title, pad);
    let n = front.len() as int;
    assert(lower.subrange(n, n + tail.len()) =~= ascii_lower(tail));
    assert(has_suffix(lower, "("@ + edition + ")"@));
    let all = edition_suffixes();
    assert(exists|i: int| 0 <= i < all.len() && edition == #[trigger] all[i]) by {
        assert(all[0] == "deluxe"@);
        assert(all[1] == "deluxe version"@);
        assert(all[2] == "deluxe edition"@);
        assert(all[3] == "expanded edition"@);
        assert(all[4] == "expanded version"@);
        assert(all[5] == "special edition"@);
        assert(all[6] == "anniversary edition"@);
        assert(all[7] == "bonus track version"@);
        assert(all[8] == "bonus track edition"@);
        assert(all[9] == "bonus tracks version"@);
        assert(all[10] == "remastered"@);
        assert(all[11] == "remaster"@);
        assert(all[12] == "remastered version"@);
    }
    let i = choose|i: int| 0 <= i < all.len() && edition == #[trigger] all[i];
    assert(brackets_edition(lower, all[i]));
    assert(ends_in_edition(lower));
}

/// Whether a word is a connective.
pub open spec fn connects(s: Seq<char>) -> bool {
    ||| s == "a"@
    ||| s == "an"@
    ||| s == "and"@
    ||| s == "as"@
    ||| s == "at"@
    ||| s == "but"@
    ||| s == "by"@
    ||| s == "for"@
    ||| s == "from"@
    ||| s == "in"@
    ||| s == "is"@
    ||| s == "of"@
    ||| s == "on"@
    ||| s == "or"@
    ||| s == "the"@
    ||| s == "to"@
    ||| s == "with"@
}

/// Only the case of connectives changes: a connective within a title stands in
/// lower case, and every other word, the first one, and one behind a colon stay as
/// they are.
pub proof fn law_only_connectives_are_lowered(words: Seq<Seq<char>>, i: int)
    requires
        0 <= i < words.len(),
    ensures
        i == 0 ==> cased_word(words, i) == words[i],
        i > 0 && words[i - 1].len() > 0 && words[i - 1].last() == ':' ==> cased_word(words, i)
            == words[i],
        !connects(ascii_lower(words[i])) ==> cased_word(words, i) == words[i],
        i > 0 && !(words[i - 1].len() > 0 && words[i - 1].last() == ':') && connects(
            ascii_lower(words[i]),
        ) ==> cased_word(words, i) == ascii_lower(words[i]),
{
    let all = connective_words();
    let w = ascii_lower(words[i]);
    assert(all[0] == "a"@);
    assert(all[1] == "an"@);
    assert(all[2] == "and"@);
    assert(all[3] == "as"@);
    assert(all[4] == "at"@);
    assert(all[5] == "but"@);
    assert(all[6] == "by"@);
    assert(all[7] == "for"@);
    assert(all[8] == "from"@);
    assert(all[9] == "in"@);
    assert(all[10] == "is"@);
    assert(all[11] == "of"@);
    assert(all[12] == "on"@);
    assert(all[13] == "or"@);
    assert(all[14] == "the"@);
    assert(all[15] == "to"@);
    assert(all[16] == "with"@);
    assert(all.len() == 17);
    if connects(w) {
        assert(all.contains(w));
    }
    if all.contains(w) {
        let k = choose|k: int| 0 <= k < all.len() && all[k] == w;
        assert(connects(w));
    }
}

/// Prose that speaks of several artists of one name is recognised by its wording,
/// wherever it stands and whatever its case.
pub proof fn law_disambiguations_are_recognised(
    prose: Seq<char>,
    before: Seq<char>,
    phrase: Seq<char>,
    after: Seq<char>,
)
    requires
        ascii_lower(prose) == before + phrase + after,
        phrase == "there are at least"@ || phrase == "there are several artists"@ || phrase
            == "there are multiple artists"@ || phrase == "the following order is loosely based"@,
    ensures
        tells_apart(prose),
{
    let n = before.len() as int;
    assert(ascii_lower(prose).subrange(n, n + phrase.len()) =~= phrase);
    assert(occurs_at(ascii_lower(prose), phrase, n));
}

proof fn lemma_found_in_the_whole(before: Seq<char>, s: Seq<char>, after: Seq<char>, pat: Seq<char>)
    requires
        contains_text(ascii_lower(s), pat),
    ensures
        contains_text(ascii_lower(before + s + after), pat),
{
    let part = ascii_lower(s);
    let whole = ascii_lower(before + s + after);
    let i = choose|i: int| occurs_at(part, pat, i);
    let n = before.len() as int;
    assert(whole.subrange(n + i, n + i + pat.len()) =~= part.subrange(i, i + pat.len()));
    assert(occurs_at(whole, pat, n + i));
}

/// Prose tells artists apart as soon as a part of it does, whatever stands around it.
pub proof fn law_a_part_that_tells_apart_suffices(
    before: Seq<char>,
    s: Seq<char>,
    after: Seq<char>,
)
    ensures
        tells_apart(s) ==> tells_apart(before + s + after),
{
    if contains_text(ascii_lower(s), "there are at least"@) {
        lemma_found_in_the_whole(before, s, after, "there are at least"@);
    }
    if contains_text(ascii_lower(s), "there are several artists"@) {
        lemma_found_in_the_whole(before, s, after, "there are several artists"@);
    }
    if contains_text(ascii_lower(s), "there are multiple artists"@) {
        lemma_found_in_the_whole(before, s, after, "there are multiple artists"@);
    }
    if contains_text(ascii_lower(s), "the following order is loosely based"@) {
        lemma_found_in_the_whole(before, s, after, "the following order is loosely based"@);
    }
}

/// Whether a lowered ending names an edition behind a dash: one of the suffixes,
/// alone or followed by "edition" or "version".
pub open spec fn is_dashed_edition(ending: Seq<char>, suffix: Seq<char>) -> bool {
    ||| ending == " - "@ + suffix
    ||| ending == " - "@ + suffix + " edition"@
    ||| ending == " - "@ + suffix + " version"@
}

proof fn lemma_dashed(lower: Seq<char>, suffixes: Seq<Seq<char>>)
    ensures
        ({
            let n = dashed_len(lower, suffixes) as int;
            &&& n <= lower.len()
            &&& n > 0 ==> exists|k: int|
                0 <= k < suffixes.len() && is_dashed_edition(
                    lower.skip(lower.len() - n),
                    #[trigger] suffixes[k],
                )
        }),
        forall|k: int, e: Seq<char>|
            0 <= k < suffixes.len() && #[trigger] is_dashed_edition(e, suffixes[k]) && has_suffix(
                lower,
                e,
            ) ==> dashed_len(lower, suffixes) > 0,
    decreases suffixes.len(),
{
    reveal_strlit(" - ");
    assert(" - "@.len() == 3);
    if suffixes.len() > 0 {
        let rest = suffixes.skip(1);
        lemma_dashed(lower, rest);
        let n = dashed_len(lower, suffixes) as int;
        let plain = " - "@ + suffixes[0];
        if has_suffix(lower, plain) || has_suffix(lower, plain + " edition"@) || has_suffix(
            lower,
            plain + " version"@,
        ) {
            assert(is_dashed_edition(lower.skip(lower.len() - n), suffixes[0]));
        } else {
            assert(n == dashed_len(lower, rest));
            if n > 0 {
                let k = choose|k: int|
                    0 <= k < rest.len() && is_dashed_edition(
                        lower.skip(lower.len() - n),
                        #[trigger] rest[k],
                    );
                assert(suffixes[k + 1] == rest[k]);
            }
            assert forall|k: int, e: Seq<char>|
                0 <= k < suffixes.len() && #[trigger] is_dashed_edition(e, suffixes[k])
                    && has_suffix(lower, e) implies dashed_len(lower, suffixes) > 0 by {
                if k > 0 {
                    assert(rest[k - 1] == suffixes[k]);
                    assert(is_dashed_edition(e, rest[k - 1]));
                }
            }
        }
    }
}

/// What is cut from a title at a dash is exactly an edition: nothing else is ever cut,
/// and no title keeps an edition that it ends with.
pub proof fn law_dashed_editions_do_not_count(s: Seq<char>, ending: Seq<char>, k: int)
    requires
        0 <= k < edition_suffixes().len(),
        is_dashed_edition(ending, edition_suffixes()[k]),
    ensures
        ({
            let kept = without_dashed(s);
            let cut = s.skip(kept.len() as int);
            &&& s == kept + cut
            &&& cut.len() > 0 ==> exists|j: int|
                0 <= j < edition_suffixes().len() && is_dashed_edition(
                    ascii_lower(cut),
                    #[trigger] edition_suffixes()[j],
                )
            &&& has_suffix(ascii_lower(s), ending) ==> cut.len() > 0
        }),
{
    let lower = ascii_lower(s);
    lemma_dashed(lower, edition_suffixes());
    let n = dashed_len(lower, edition_suffixes()) as int;
    let kept = without_dashed(s);
    let cut = s.skip(kept.len() as int);
    assert(s =~= kept + cut);
    assert(ascii_lower(cut) =~= lower.skip(lower.len() - n));
}

proof fn lemma_first_replaced(a: Seq<char>, pat: Seq<char>, b: Seq<char>, by: Seq<char>)
    requires
        pat.len() > 0,
        forall|i: int| 0 <= i < a.len() ==> !#[trigger] occurs_at(a + pat + b, pat, i),
    ensures
        replace_of(a + pat + b, pat, by) == a + by + replace_of(b, pat, by),
    decreases a.len(),
{
    let whole = a + pat + b;
    if a.len() == 0 {
        law_replacing_keeps_the_rest(b, pat, by);
        assert(whole =~= pat + b);
        assert(a + by + replace_of(b, pat, by) =~= by + replace_of(b, pat, by));
    } else {
        let rest = a.drop_first();
        let tail = rest + pat + b;
        assert(whole.drop_first() =~= tail);
        assert(!occurs_at(whole, pat, 0));
        assert forall|i: int| 0 <= i < rest.len() implies !#[trigger] occurs_at(tail, pat, i) by {
            assert(!occurs_at(whole, pat, i + 1));
            if i + pat.len() <= tail.len() {
                assert(tail.subrange(i, i + pat.len()) =~= whole.subrange(i + 1, i + 1 + pat.len()));
            }
        }
        lemma_first_replaced(rest, pat, b, by);
        assert(seq![whole[0]] + (rest + by + replace_of(b, pat, by)) =~= a + by + replace_of(
            b,
            pat,
            by,
        ));
    }
}

/// An album is asked for without the edition that its title ends with behind a dash.
pub proof fn law_albums_are_asked_for_without_their_edition(title: Seq<char>, kept: Seq<char>)
    requires
        without_bracketed(trim_of(title)) == trim_of(title),
        kept == without_dashed(trim_of(title)),
        trim_of(kept) == kept,
        without_bracketed(kept) == kept,
        without_dashed(kept) == kept,
    ensures
        album_query(title) == album_query(kept),
{
}

/// An album is asked for without the edition that its title ends with in brackets.
pub proof fn law_albums_are_asked_for_without_their_bracket(title: Seq<char>, kept: Seq<char>)
    requires
        kept == without_bracketed(trim_of(title)),
        trim_of(kept) == kept,
        without_bracketed(kept) == kept,
    ensures
        album_query(title) == album_query(kept),
{
}

/// A dash between title and subtitle is asked for as a colon.
pub proof fn law_a_dash_is_asked_for_as_a_colon(a: Seq<char>, b: Seq<char>)
    requires
        trim_of(a + " - "@ + b) == a + " - "@ + b,
        without_bracketed(a + " - "@ + b) == a + " - "@ + b,
        without_dashed(a + " - "@ + b) == a + " - "@ + b,
        forall|i: int| 0 <= i < a.len() ==> !#[trigger] occurs_at(a + " - "@ + b, " - "@, i),
        forall|i: int| 0 <= i ==> !#[trigger] occurs_at(b, " - "@, i),
    ensures
        album_query(a + " - "@ + b) == trim_of(title_cased(a + ": "@ + b)),
{
    reveal_strlit(" - ");
    assert(" - "@.len() == 3);
    lemma_first_replaced(a, " - "@, b, ": "@);
    law_replacing_keeps_the_rest(b, " - "@, ": "@);
}

} // verus!
