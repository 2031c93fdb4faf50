//! The operator's locale.

use crate::text::{
    ascii_lower, chars_of, opt_str_view, same_text, text_of, to_ascii_lower, trim, trim_of,
};
use crate::text::{is_blank, is_white, law_surrounding_white_is_dropped};
use vstd::prelude::*;
use vstd::slice::slice_subrange;

verus! {

/// Whether a character separates subtags.
pub open spec fn is_subtag_mark(c: char) -> bool {
    c == '-' || c == '_'
}

/// The primary subtag: what stands before the first separator.
pub open spec fn primary_of(s: Seq<char>) -> Seq<char>
    decreases s.len(),
{
    if s.len() == 0 || is_subtag_mark(s[0]) {
        Seq::empty()
    } else {
        seq![s[0]] + primary_of(s.drop_first())
    }
}

/// Whether a character is an ASCII letter.
pub open spec fn is_letter(c: char) -> bool {
    ('a' <= c && c <= 'z') || ('A' <= c && c <= 'Z')
}

/// Whether a text is a language tag: two or three ASCII letters.
pub open spec fn is_language(s: Seq<char>) -> bool {
    2 <= s.len() <= 3 && forall|i: int| 0 <= i < s.len() ==> is_letter(#[trigger] s[i])
}

/// The language of a locale hint: its primary subtag in lower case; English where
/// there is none to be read.
pub open spec fn language_of(input: Option<Seq<char>>) -> Seq<char> {
    match input {
        Some(s) => {
            let primary = ascii_lower(primary_of(trim_of(s)));
            if is_language(primary) {
                primary
            } else {
                "en"@
            }
        },
        None => "en"@,
    }
}

fn primary_end(s: &[char]) -> (r: usize)
    ensures
        r <= s@.len(),
        s@.take(r as int) == primary_of(s@),
{
    let n: usize = s.len();
    let mut i: usize = 0;
    assert(s@.skip(0) =~= s@);
    assert(s@.take(0) + primary_of(s@) =~= primary_of(s@));
    while i < n
        invariant
            i <= n == s@.len(),
            primary_of(s@) == s@.take(i as int) + primary_of(s@.skip(i as int)),
        decreases n - i,
    {
        let ghost rest = s@.skip(i as int);
        assert(rest[0] == s@[i as int]);
        if s[i] == '-' || s[i] == '_' {
            assert(primary_of(rest) =~= Seq::<char>::empty());
            assert(s@.take(i as int) + primary_of(rest) =~= s@.take(i as int));
            return i;
        }
        assert(rest.drop_first() =~= s@.skip(i + 1));
        assert(s@.take(i as int) + (seq![rest[0]] + primary_of(rest.drop_first())) =~= s@.take(
            i + 1,
        ) + primary_of(s@.skip(i + 1)));
        i = i + 1;
    }
    assert(s@.skip(n as int) =~= Seq::<char>::empty());
    assert(s@.take(n as int) + primary_of(s@.skip(n as int)) =~= s@.take(n as int));
    n
}

fn letters_only(s: &[char]) -> (r: bool)
    ensures
        r == forall|i: int| 0 <= i < s@.len() ==> is_letter(#[trigger] s@[i]),
{
    let n: usize = s.len();
    for i in 0..n
        invariant
            n == s@.len(),
            forall|k: int| 0 <= k < i ==> is_letter(#[trigger] s@[k]),
    {
        let c: char = s[i];
        if !(('a' <= c && c <= 'z') || ('A' <= c && c <= 'Z')) {
            assert(!is_letter(s@[i as int]));
            return false;
        }
    }
    true
}

/// The language of a locale hint.
pub fn normalise(input: Option<&str>) -> (r: String)
    ensures
        r@ == language_of(opt_str_view(input)),
{
    let raw = match input {
        Some(s) => s,
        None => {
            return "en".to_owned();
        },
    };
    let whole = chars_of(raw);
    let trimmed = trim(whole.as_slice());
    let end = primary_end(trimmed);
    let first = slice_subrange(trimmed, 0, end);
    assert(first@ =~= trimmed@.take(end as int));
    let primary = to_ascii_lower(first);
    if primary.len() >= 2 && primary.len() <= 3 && letters_only(primary.as_slice()) {
        text_of(primary.as_slice())
    } else {
        "en".to_owned()
    }
}

/// Whatever the hint, the language is a language tag in lower case.
pub proof fn law_the_language_is_a_tag(input: Option<Seq<char>>)
    ensures
        is_language(language_of(input)),
        ascii_lower(language_of(input)) == language_of(input),
{
    reveal_strlit("en");
    assert(ascii_lower("en"@) =~= "en"@);
    if let Some(s) = input {
        let p = primary_of(trim_of(s));
        assert(ascii_lower(ascii_lower(p)) =~= ascii_lower(p));
    }
}

/// The suffix under which TheAudioDB keeps a language; none for English, which
/// has no suffix, and for languages that it does not keep.
pub open spec fn country_code(primary: Seq<char>) -> Option<Seq<char>> {
    if primary == "de"@ {
        Some("DE"@)
    } else if primary == "fr"@ {
        Some("FR"@)
    } else if primary == "es"@ {
        Some("ES"@)
    } else if primary == "it"@ {
        Some("IT"@)
    } else if primary == "ja"@ {
        Some("JP"@)
    } else if primary == "ru"@ {
        Some("RU"@)
    } else if primary == "zh"@ {
        Some("CN"@)
    } else if primary == "pt"@ {
        Some("PT"@)
    } else if primary == "nl"@ {
        Some("NL"@)
    } else if primary == "pl"@ {
        Some("PL"@)
    } else if primary == "hu"@ {
        Some("HU"@)
    } else if primary == "he"@ {
        Some("IL"@)
    } else if primary == "sv"@ {
        Some("SE"@)
    } else if primary == "no"@ {
        Some("NO"@)
    } else {
        None
    }
}

/// The suffix under which TheAudioDB keeps a language.
pub fn theaudiodb_country_code(primary: &str) -> (r: Option<&'static str>)
    ensures
        opt_str_view(r) == country_code(primary@),
{
    if same_text(primary, "de") {
        Some("DE")
    } else if same_text(primary, "fr") {
        Some("FR")
    } else if same_text(primary, "es") {
        Some("ES")
    } else if same_text(primary, "it") {
        Some("IT")
    } else if same_text(primary, "ja") {
        Some("JP")
    } else if same_text(primary, "ru") {
        Some("RU")
    } else if same_text(primary, "zh") {
        Some("CN")
    } else if same_text(primary, "pt") {
        Some("PT")
    } else if same_text(primary, "nl") {
        Some("NL")
    } else if same_text(primary, "pl") {
        Some("PL")
    } else if same_text(primary, "hu") {
        Some("HU")
    } else if same_text(primary, "he") {
        Some("IL")
    } else if same_text(primary, "sv") {
        Some("SE")
    } else if same_text(primary, "no") {
        Some("NO")
    } else {
        None
    }
}

proof fn lemma_primary(tag: Seq<char>, rest: Seq<char>)
    requires
        forall|i: int| 0 <= i < tag.len() ==> is_letter(#[trigger] tag[i]),
        rest.len() > 0 ==> rest[0] == '-' || rest[0] == '_',
    ensures
        primary_of(tag + rest) == tag,
    decreases tag.len(),
{
    if tag.len() == 0 {
        assert(tag + rest =~= rest);
        assert(primary_of(rest) =~= tag);
    } else {
        let tail = tag.drop_first();
        assert(is_letter(tag[0]));
        assert forall|i: int| 0 <= i < tail.len() implies is_letter(#[trigger] tail[i]) by {
            assert(is_letter(tag[i + 1]));
        }
        lemma_primary(tail, rest);
        assert((tag + rest).drop_first() =~= tail + rest);
        assert(seq![tag[0]] + tail =~= tag);
    }
}

/// The language is the primary subtag, in lower case, whatever subtags follow it
/// behind a hyphen or an underscore and whatever white space stands around; with
/// no hint it is English.
pub proof fn law_the_primary_subtag_is_the_language(
    pad: Seq<char>,
    tag: Seq<char>,
    rest: Seq<char>,
    tail: Seq<char>,
)
    requires
        is_blank(pad),
        is_blank(tail),
        tag.len() == 2 || tag.len() == 3,
        forall|i: int| 0 <= i < tag.len() ==> is_letter(#[trigger] tag[i]),
        rest.len() > 0 ==> (rest[0] == '-' || rest[0] == '_') && !is_white(rest.last()),
    ensures
        language_of(Some(pad + (tag + rest) + tail)) == ascii_lower(tag),
        language_of(None) == "en"@,
{
    let core = tag + rest;
    assert(is_letter(tag[0]) && is_letter(tag[tag.len() - 1]));
    assert(core[0] == tag[0]);
    if rest.len() > 0 {
        assert(core.last() == rest.last());
    } else {
        assert(core.last() == tag[tag.len() - 1]);
    }
    law_surrounding_white_is_dropped(pad, core, tail);
    lemma_primary(tag, rest);
    let lower = ascii_lower(tag);
    assert forall|i: int| 0 <= i < lower.len() implies is_letter(#[trigger] lower[i]) by {
        assert(is_letter(tag[i]));
    }
}

/// A hint that begins with no language tag means English.
pub proof fn law_unreadable_hints_mean_english(s: Seq<char>)
    requires
        !is_language(ascii_lower(primary_of(trim_of(s)))),
    ensures
        language_of(Some(s)) == "en"@,
{
}

/// TheAudioDB keeps each language under a suffix of its own, and English, which is
/// its default, under none.
pub proof fn law_languages_have_their_own_suffix(a: Seq<char>, b: Seq<char>)
    ensures
        country_code(a) is Some && country_code(a) == country_code(b) ==> a == b,
        country_code("en"@) is None,
        country_code("de"@) == Some("DE"@),
        country_code("fr"@) == Some("FR"@),
        country_code("ja"@) == Some("JP"@),
{
    reveal_strlit("de");
    reveal_strlit("fr");
    reveal_strlit("es");
    reveal_strlit("it");
    reveal_strlit("ja");
    reveal_strlit("ru");
    reveal_strlit("zh");
    reveal_strlit("pt");
    reveal_strlit("nl");
    reveal_strlit("pl");
    reveal_strlit("hu");
    reveal_strlit("he");
    reveal_strlit("sv");
    reveal_strlit("no");
    reveal_strlit("en");
    reveal_strlit("DE");
    reveal_strlit("FR");
    reveal_strlit("ES");
    reveal_strlit("IT");
    reveal_strlit("JP");
    reveal_strlit("RU");
    reveal_strlit("CN");
    reveal_strlit("PT");
    reveal_strlit("NL");
    reveal_strlit("PL");
    reveal_strlit("HU");
    reveal_strlit("IL");
    reveal_strlit("SE");
    reveal_strlit("NO");
    let pair = |s: Seq<char>| s[0] as int * 128 + s[1] as int;
    assert(pair("de"@) == 12901 && pair("fr"@) == 13170 && pair("ja"@) == 13665 && pair("en"@)
        == 13038);
    assert(pair("es"@) == 13043 && pair("it"@) == 13556 && pair("ru"@) == 14709 && pair("zh"@)
        == 15720);
    assert(pair("pt"@) == 14452 && pair("nl"@) == 14188 && pair("pl"@) == 14444 && pair("hu"@)
        == 13429);
    assert(pair("he"@) == 13413 && pair("sv"@) == 14838 && pair("no"@) == 14191);
    assert(pair("DE"@) == 8773 && pair("FR"@) == 9042 && pair("ES"@) == 8915 && pair("IT"@)
        == 9428);
    assert(pair("JP"@) == 9552 && pair("RU"@) == 10581 && pair("CN"@) == 8654 && pair("PT"@)
        == 10324);
    assert(pair("NL"@) == 10060 && pair("PL"@) == 10316 && pair("HU"@) == 9301 && pair("IL"@)
        == 9420);
    assert(pair("SE"@) == 10693 && pair("NO"@) == 10063);
}

} // verus!
