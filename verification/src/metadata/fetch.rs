//! Steps that the enrichment queries share: reading the cache before asking a
//! provider, trying pages one after another, and answering from what was found.

use crate::json::JsonModel;
use crate::metadata::cache::{negative_entry, positive_entry, EnrichmentEntry};
use crate::metadata::cascade::{
    bare_response, in_operator_order, law_sources_stand_in_the_operators_order, response_of, sort_sources_by_priority, source_views,
    CascadeResponse, CascadeStatus, ProviderConfig, ResponseModel, SourceEntry, SourceModel,
};
use crate::metadata::sources::{
    answer_from_cache, cache_answer, opt_entry, opt_source, SourceKind, Summary,
};
use crate::text::{same_text, views};
use vstd::prelude::*;

verus! {

// ---------------------------------------------------------------------
// Cache before provider
// ---------------------------------------------------------------------

/// A fetch whose cache entry is to be read.
pub struct CachedFetch<N> {
    pub kind: SourceKind,
    pub key: String,
    /// What to do when the cache has no answer.
    pub next: N,
}

/// A fetch that the cache did not answer. What it yields is kept under the key.
pub struct Fetch<N> {
    pub key: String,
    pub next: N,
}

/// Where a read of the cache leads.
pub enum Probe<N> {
    Hit(SourceEntry),
    Miss(Fetch<N>),
}

impl<N> CachedFetch<N> {
    /// A kept hit answers the fetch; anything else leads to the provider.
    pub fn on_cache(self, entry: Option<EnrichmentEntry>) -> (r: Probe<N>)
        ensures
            match cache_answer(self.kind, opt_entry(entry)) {
                Some(s) => r is Hit && r->Hit_0@ == s,
                None => r == Probe::Miss(Fetch { key: self.key, next: self.next }),
            },
    {
        match answer_from_cache(self.kind, entry) {
            Some(s) => Probe::Hit(s),
            None => Probe::Miss(Fetch { key: self.key, next: self.next }),
        }
    }
}

/// The entry that keeps a source.
pub fn entry_to_keep(source: &SourceEntry) -> (r: EnrichmentEntry)
    ensures
        r@ == positive_entry(source@.payload, source@.provider_id),
{
    EnrichmentEntry {
        status: "ok".to_owned(),
        provider_id: Some(source.provider_id.clone()),
        payload: Some(source.payload.copy()),
        expires_at_epoch_secs: None,
        detail: None,
    }
}

/// What was kept of a payload answers the next fetch with that payload.
pub proof fn law_kept_payloads_answer(
    kind: SourceKind,
    payload: JsonModel,
    provider_id: Seq<char>,
)
    ensures
        ({
            let answer = cache_answer(kind, Some(positive_entry(payload, provider_id)));
            answer is Some && answer->Some_0.payload == payload && answer->Some_0.provider_id
                == kind.id().name()
        }),
{
}

// ---------------------------------------------------------------------
// Pages one after another
// ---------------------------------------------------------------------

/// A page to ask Wikipedia for.
#[derive(Debug, PartialEq, Eq)]
pub enum SummaryQuery {
    /// By title, in one language's edition.
    Title { title: String, language: String },
    /// By address.
    Url(String),
}

/// What a [`SummaryQuery`] says.
pub enum QueryModel {
    Title(Seq<char>, Seq<char>),
    Url(Seq<char>),
}

impl View for SummaryQuery {
    type V = QueryModel;

    open spec fn view(&self) -> QueryModel {
        match *self {
            SummaryQuery::Title { title, language } => QueryModel::Title(title@, language@),
            SummaryQuery::Url(u) => QueryModel::Url(u@),
        }
    }
}

/// What queries say, in order.
pub open spec fn query_views(v: Seq<SummaryQuery>) -> Seq<QueryModel> {
    Seq::new(v.len(), |i: int| v[i]@)
}

/// Pages to try in order; the first that is there is the answer.
pub struct SummaryLadder {
    pub queries: Vec<SummaryQuery>,
    /// How many have been tried.
    pub tried: usize,
}

impl SummaryLadder {
    /// No more were tried than there are.
    pub open spec fn well_formed(&self) -> bool {
        self.tried <= self.queries@.len()
    }

    /// The pages that are left.
    pub open spec fn left(&self) -> Seq<QueryModel> {
        query_views(self.queries@).skip(self.tried as int)
    }

    /// Pages of which none has been tried.
    pub fn new(queries: Vec<SummaryQuery>) -> (r: SummaryLadder)
        ensures
            r.well_formed(),
            r.left() == query_views(queries@),
    {
        let r = SummaryLadder { queries, tried: 0 };
        assert(r.left() =~= query_views(queries@));
        r
    }

    /// The page to try now; none when all have been tried.
    pub fn current(&self) -> (r: Option<&SummaryQuery>)
        requires
            self.well_formed(),
        ensures
            match r {
                Some(q) => self.left().len() > 0 && q@ == self.left()[0],
                None => self.left().len() == 0,
            },
    {
        if self.tried < self.queries.len() {
            Some(&self.queries[self.tried])
        } else {
            None
        }
    }

    /// Takes in what came of the page: a page that is there ends the search; a
    /// page that is not, or could not be read, leads to the next.
    pub fn on_reply(&mut self, reply: Result<Option<Summary>, String>) -> (r: Option<Summary>)
        requires
            old(self).well_formed(),
            old(self).left().len() > 0,
        ensures
            final(self).well_formed(),
            final(self).left() == old(self).left().drop_first(),
            match reply {
                Ok(found) => r == found,
                Err(_) => r is None,
            },
    {
        let ghost before = self.left();
        assert(self.tried < self.queries.len());
        self.tried = self.tried + 1;
        assert(self.left() =~= before.drop_first());
        match reply {
            Ok(found) => found,
            Err(_) => None,
        }
    }
}

/// The languages to try: the operator's, then English.
pub open spec fn languages_for(locale: Seq<char>) -> Seq<Seq<char>> {
    if locale == "en"@ {
        seq!["en"@]
    } else {
        seq![locale, "en"@]
    }
}

/// The languages to try: the operator's, then English.
pub fn fallback_langs(operator_locale: &str) -> (r: Vec<String>)
    ensures
        views(r@) == languages_for(operator_locale@),
{
    let mut r: Vec<String> = Vec::new();
    if !same_text(operator_locale, "en") {
        r.push(operator_locale.to_owned());
    }
    r.push("en".to_owned());
    assert(views(r@) =~= languages_for(operator_locale@));
    r
}

/// Every title in one language.
pub open spec fn titles_in(titles: Seq<Seq<char>>, language: Seq<char>) -> Seq<QueryModel> {
    Seq::new(titles.len(), |i: int| QueryModel::Title(titles[i], language))
}

/// Every title in every language: all titles in one language before any in the
/// next.
pub open spec fn titles_by_language(titles: Seq<Seq<char>>, languages: Seq<Seq<char>>) -> Seq<
    QueryModel,
>
    decreases languages.len(),
{
    if languages.len() == 0 {
        Seq::empty()
    } else {
        titles_by_language(titles, languages.drop_last()) + titles_in(titles, languages.last())
    }
}

/// Every title in the operator's language, then in English.
pub fn title_queries(titles: &Vec<String>, operator_locale: &str) -> (r: Vec<SummaryQuery>)
    ensures
        query_views(r@) == titles_by_language(views(titles@), languages_for(operator_locale@)),
{
    let languages = fallback_langs(operator_locale);
    let ghost all = languages_for(operator_locale@);
    let mut r: Vec<SummaryQuery> = Vec::new();
    let n: usize = languages.len();
    let m: usize = titles.len();
    assert(views(languages@).len() == n);
    assert(query_views(r@) =~= Seq::<QueryModel>::empty());
    for i in 0..n
        invariant
            n == languages@.len() == all.len(),
            m == titles@.len(),
            views(languages@) == all,
            query_views(r@) == titles_by_language(views(titles@), all.take(i as int)),
    {
        let ghost before = query_views(r@);
        let ghost language = all[i as int];
        assert(views(languages@)[i as int] == languages@[i as int]@);
        assert(all.take(i + 1).drop_last() =~= all.take(i as int));
        assert(all.take(i + 1).last() == language);
        assert(before =~= before + titles_in(views(titles@), language).take(0));
        for j in 0..m
            invariant
                i < n == languages@.len(),
                m == titles@.len(),
                languages@[i as int]@ == language,
                query_views(r@) == before + titles_in(views(titles@), language).take(j as int),
        {
            let ghost upto = query_views(r@);
            let q = SummaryQuery::Title {
                title: titles[j].clone(),
                language: languages[i].clone(),
            };
            r.push(q);
            assert(query_views(r@) =~= upto.push(q@));
            assert(q@ == titles_in(views(titles@), language)[j as int]);
            assert(titles_in(views(titles@), language).take(j + 1) =~= titles_in(
                views(titles@),
                language,
            ).take(j as int).push(q@));
            assert(query_views(r@) =~= before + titles_in(views(titles@), language).take(j + 1));
        }
        assert(titles_in(views(titles@), language).take(m as int) =~= titles_in(
            views(titles@),
            language,
        ));
    }
    assert(all.take(n as int) =~= all);
    r
}

/// The operator's language is exhausted before English is tried.
pub proof fn law_operator_language_comes_first(titles: Seq<Seq<char>>, locale: Seq<char>, i: int)
    requires
        0 <= i < titles_by_language(titles, languages_for(locale)).len(),
    ensures
        titles_by_language(titles, languages_for(locale))[i] == (if i < titles.len() {
            QueryModel::Title(titles[i], locale)
        } else {
            QueryModel::Title(titles[i - titles.len()], "en"@)
        }),
        titles_by_language(titles, languages_for(locale)).len() == (if locale == "en"@ {
            titles.len()
        } else {
            2 * titles.len()
        }),
{
    reveal_with_fuel(titles_by_language, 3);
    let languages = languages_for(locale);
    if locale == "en"@ {
        assert(languages.drop_last() =~= Seq::<Seq<char>>::empty());
        assert(titles_by_language(titles, languages) =~= titles_in(titles, "en"@));
    } else {
        assert(languages.drop_last() =~= seq![locale]);
        assert(seq![locale].drop_last() =~= Seq::<Seq<char>>::empty());
        assert(titles_by_language(titles, languages) =~= titles_in(titles, locale) + titles_in(
            titles,
            "en"@,
        ));
    }
}

// ---------------------------------------------------------------------
// The answer
// ---------------------------------------------------------------------

/// What fetches found, the empty-handed ones left out.
pub open spec fn present(found: Seq<Option<SourceModel>>) -> Seq<SourceModel>
    decreases found.len(),
{
    if found.len() == 0 {
        Seq::empty()
    } else {
        match found.last() {
            Some(s) => present(found.drop_last()).push(s),
            None => present(found.drop_last()),
        }
    }
}

/// The answer made of what fetches found: the sources in the operator's order,
/// or why there is none.
pub open spec fn answer_of(
    found: Seq<Option<SourceModel>>,
    config: ProviderConfig,
    miss: Seq<char>,
) -> ResponseModel {
    if present(found).len() == 0 {
        bare_response(CascadeStatus::NotFound, Some(miss))
    } else {
        response_of(in_operator_order(present(found), config), None)
    }
}

/// What fetches found, as it stands.
pub open spec fn found_views(v: Seq<Option<SourceEntry>>) -> Seq<Option<SourceModel>> {
    Seq::new(v.len(), |i: int| opt_source(v[i]))
}

fn collect(found: Vec<Option<SourceEntry>>) -> (r: Vec<SourceEntry>)
    ensures
        source_views(r@) == present(found_views(found@)),
{
    let mut rest = found;
    let mut r: Vec<SourceEntry> = Vec::new();
    let ghost all = found_views(found@);
    let ghost mut tail: Seq<SourceModel> = Seq::empty();
    assert(present(all) + tail =~= present(all));
    assert(source_views(r@) =~= tail);
    while rest.len() > 0
        invariant
            present(all) == present(found_views(rest@)) + tail,
            source_views(r@) == tail,
        decreases rest@.len(),
    {
        let ghost before = found_views(rest@);
        let ghost old_tail = tail;
        let last = rest.pop();
        assert(found_views(rest@) =~= before.drop_last());
        if let Some(Some(s)) = last {
            let ghost sources = r@;
            r.insert(0, s);
            proof {
                tail = seq![s@] + old_tail;
                assert(source_views(r@) =~= seq![s@] + source_views(sources));
                assert(present(before.drop_last()).push(s@) + old_tail =~= present(
                    before.drop_last(),
                ) + tail);
            }
        }
    }
    assert(found_views(rest@) =~= Seq::<Option<SourceModel>>::empty());
    assert(present(found_views(rest@)) + tail =~= tail);
    r
}

/// The answer made of what fetches found.
pub fn answer(found: Vec<Option<SourceEntry>>, config: &ProviderConfig, miss: String) -> (r:
    CascadeResponse)
    ensures
        r@ == answer_of(found_views(found@), *config, miss@),
{
    let mut sources = collect(found);
    if sources.len() == 0 {
        return CascadeResponse::not_found(miss);
    }
    sort_sources_by_priority(&mut sources, config);
    CascadeResponse::from_sources(sources, None)
}

// ---------------------------------------------------------------------
// Laws of the answer
// ---------------------------------------------------------------------

/// What was kept of a miss answers nothing: the provider is asked again.
pub proof fn law_kept_misses_answer_nothing(kind: SourceKind, detail: Seq<char>, expires_at: u64)
    ensures
        cache_answer(kind, Some(negative_entry(detail, expires_at))) is None,
        cache_answer(kind, None) is None,
{
}

/// Finds are collected in order, and nothing but the empty hands is left out.
pub proof fn law_every_find_is_collected(
    some: Seq<Option<SourceModel>>,
    more: Seq<Option<SourceModel>>,
    s: SourceModel,
)
    ensures
        present(some + more) == present(some) + present(more),
        present(seq![Some(s)]) == seq![s],
        present(seq![None]) == Seq::<SourceModel>::empty(),
    decreases more.len(),
{
    reveal_with_fuel(present, 2);
    assert(seq![Some(s)].drop_last() =~= Seq::<Option<SourceModel>>::empty());
    assert(present(seq![Some(s)]) =~= seq![s]);
    assert(seq![None::<SourceModel>].drop_last() =~= Seq::<Option<SourceModel>>::empty());
    if more.len() == 0 {
        assert(some + more =~= some);
        assert(present(some) + present(more) =~= present(some));
    } else {
        law_every_find_is_collected(some, more.drop_last(), s);
        assert((some + more).drop_last() =~= some + more.drop_last());
        assert((some + more).last() == more.last());
        if let Some(x) = more.last() {
            assert(present(some) + present(more) =~= (present(some) + present(
                more.drop_last(),
            )).push(x));
        }
    }
}

proof fn lemma_present_holds(found: Seq<Option<SourceModel>>, k: int)
    requires
        0 <= k < found.len(),
        found[k] is Some,
    ensures
        present(found).contains(found[k]->Some_0),
    decreases found.len(),
{
    let front = found.drop_last();
    let s = found[k]->Some_0;
    if k < front.len() {
        lemma_present_holds(front, k);
        let i = choose|i: int| 0 <= i < present(front).len() && present(front)[i] == s;
        assert(present(found)[i] == s);
    } else {
        assert(present(found)[present(front).len() as int] == s);
    }
}

proof fn lemma_present_comes_from(found: Seq<Option<SourceModel>>, i: int)
    requires
        0 <= i < present(found).len(),
    ensures
        found.contains(Some(present(found)[i])),
    decreases found.len(),
{
    let front = found.drop_last();
    if i < present(front).len() {
        lemma_present_comes_from(front, i);
        let s = Some(present(front)[i]);
        let k = choose|k: int| 0 <= k < front.len() && front[k] == s;
        assert(found[k] == s);
    } else {
        assert(found[found.len() - 1] == Some(present(found)[i]));
    }
}

/// The answer is made of what was found: every find is shown as it is, with its own
/// payload and attribution, and nothing else is. It is a success exactly if
/// something was found, and else says why not.
pub proof fn law_the_answer_shows_every_find(
    found: Seq<Option<SourceModel>>,
    config: ProviderConfig,
    miss: Seq<char>,
)
    ensures
        ({
            let r = answer_of(found, config, miss);
            &&& r.status is Success <==> exists|k: int|
                0 <= k < found.len() && (#[trigger] found[k]) is Some
            &&& !(r.status is Success) ==> r.status is NotFound && r.detail == Some(miss)
                && r.payload is None && r.attribution is None && r.sources.len() == 0
            &&& forall|s: SourceModel|
                #![trigger r.sources.contains(s)]
                #![trigger found.contains(Some(s))]
                r.sources.contains(s) <==> found.contains(Some(s))
            &&& r.status is Success ==> r.sources.len() > 0 && r.payload == Some(
                r.sources[0].payload,
            ) && r.attribution == Some(r.sources[0].attribution) && r.provider_id == Some(
                r.sources[0].provider_id,
            ) && r.language == r.sources[0].language
        }),
{
    let some = present(found);
    let r = answer_of(found, config, miss);
    law_sources_stand_in_the_operators_order(some, config);
    if exists|k: int| 0 <= k < found.len() && (#[trigger] found[k]) is Some {
        let k = choose|k: int| 0 <= k < found.len() && (#[trigger] found[k]) is Some;
        lemma_present_holds(found, k);
    }
    if some.len() > 0 {
        lemma_present_comes_from(found, 0);
        let k = choose|k: int| 0 <= k < found.len() && found[k] == Some(some[0]);
        assert(found[k] is Some);
        assert(r.sources == in_operator_order(some, config));
        assert(some.contains(some[0]));
        assert(r.sources.contains(some[0]));
        assert(r.sources.len() > 0);
    }
    assert forall|s: SourceModel|
        #![trigger r.sources.contains(s)]
        #![trigger found.contains(Some(s))]
        r.sources.contains(s) <==> found.contains(Some(s)) by {
        if found.contains(Some(s)) {
            let k = choose|k: int| 0 <= k < found.len() && found[k] == Some(s);
            lemma_present_holds(found, k);
            assert(some.contains(s));
            assert(in_operator_order(some, config).contains(s));
        }
        if r.sources.contains(s) {
            assert(some.len() > 0);
            assert(in_operator_order(some, config).contains(s));
            assert(some.contains(s));
            let i = choose|i: int| 0 <= i < some.len() && some[i] == s;
            lemma_present_comes_from(found, i);
        }
    }
}

} // verus!
