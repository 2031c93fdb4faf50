//! The enrichment queries, from request to answer.

use evo_device_plugins::json::{Json, Member};
use evo_device_plugins::metadata::album_notes::{
    begin_album_notes, AfterId, AfterLink, AlbumNotesCascadeRequest, DiscogsNotesAsk, NotesStart,
};
use evo_device_plugins::metadata::annotation::{
    begin_track_annotation, AnnotationStart, TrackAnnotationCascadeRequest,
};
use evo_device_plugins::metadata::bio::{
    begin_entity_bio, facts_from_reply, AfterBioSearch, AfterMbid, ArtistHit, ArtistLookup,
    AudioDbAsk, BioFetches, BioStart, EntityBioRequest,
};
use evo_device_plugins::metadata::cascade::{
    CascadeStatus, EntityRef, EntityType, PrivacyMode, ProviderCatalogue, ProviderConfig,
    ProviderFlags, ProviderId, SourceEntry,
};
use evo_device_plugins::metadata::cache::EnrichmentCache;
use evo_device_plugins::metadata::credits::{
    begin_release_credits, CreditsAsk, CreditsStart, ReleaseCreditsCascadeRequest, ReleaseMatch,
};
use evo_device_plugins::metadata::fetch::{
    entry_to_keep, fallback_langs, CachedFetch, Probe, SummaryLadder, SummaryQuery,
};
use evo_device_plugins::metadata::lyrics::{
    begin_lyrics, AfterLyrics, AfterLyricsCache, LyricsAsk, LyricsHit, LyricsRequest, LyricsStart,
    NO_LYRICS,
};
use evo_device_plugins::metadata::request::Decoded;
use evo_device_plugins::metadata::sources::{
    language_from_payload, musicbrainz_credits_source, wikipedia_source, AudioDbArtist,
    DiscogsRelease, GeniusAnnotation, LastfmText, Localised, ReleaseCredits, Sitelink, SourceKind,
    Summary, TrackCredit, WikidataEntity,
};
use evo_device_plugins::metadata::work_notes::{
    begin_work_notes, AfterWorkSearch, WorkHit, WorkLookup, WorkNotesCascadeRequest, WorkStart,
};

fn catalogue() -> ProviderCatalogue {
    ProviderCatalogue {
        musicbrainz: true,
        wikipedia: true,
        wikidata: true,
        lrclib: true,
        theaudiodb: true,
        lastfm: true,
        discogs: true,
        genius: true,
        config: ProviderConfig::defaults(),
    }
}

fn offline() -> ProviderCatalogue {
    let mut c = catalogue();
    c.config.privacy_mode = PrivacyMode::Offline;
    c
}

fn some(s: &str) -> Option<String> {
    Some(s.to_string())
}

fn summary(title: &str, language: &str) -> Summary {
    Summary {
        title: title.to_string(),
        extract: format!("about {title}"),
        language: language.to_string(),
        page_url: format!("https://{language}.wikipedia.org/wiki/{title}"),
    }
}

fn entity(sitelinks: &[(&str, &str)]) -> WikidataEntity {
    WikidataEntity {
        label: Some(Localised { text: "Radiohead".to_string(), language: "en".to_string() }),
        description: None,
        date_of_birth: None,
        date_of_death: None,
        inception: some("1985"),
        dissolution: None,
        genre_ids: vec!["Q11366".to_string()],
        entity_url: "https://www.wikidata.org/wiki/Q44190".to_string(),
        sitelinks: sitelinks
            .iter()
            .map(|(site, title)| Sitelink { site: site.to_string(), title: title.to_string() })
            .collect(),
    }
}

fn discogs(notes: Option<&str>) -> DiscogsRelease {
    DiscogsRelease {
        release_id: 42,
        label: None,
        catalog_number: None,
        year: None,
        country: None,
        format: None,
        notes: notes.map(|n| n.to_string()),
        source_url: some("https://www.discogs.com/release/42"),
    }
}

fn missed<N>(fetch: Option<CachedFetch<N>>) -> N {
    match fetch.expect("a fetch").on_cache(None) {
        Probe::Miss(f) => f.next,
        Probe::Hit(_) => panic!("expected a miss"),
    }
}

fn climb(mut ladder: SummaryLadder, there: &[(&str, &str)]) -> (Vec<String>, Option<Summary>) {
    let mut asked = Vec::new();
    while let Some(query) = ladder.current() {
        let (label, reply) = match query {
            SummaryQuery::Title { title, language } => {
                let found = there.iter().any(|(t, l)| t == title && l == language);
                let reply = if found { Some(summary(title, language)) } else { None };
                (format!("{language}:{title}"), reply)
            }
            SummaryQuery::Url(u) => (u.clone(), None),
        };
        asked.push(label);
        if let Some(s) = ladder.on_reply(Ok(reply)) {
            return (asked, Some(s));
        }
    }
    (asked, None)
}

fn bio_request(name: &str, entity_type: EntityType, mbid: Option<&str>, locale: &str) -> EntityBioRequest {
    EntityBioRequest {
        v: 1,
        entity: Some(EntityRef {
            entity_type,
            name: name.to_string(),
            mbid: mbid.map(|m| m.to_string()),
        }),
        artist: None,
        artist_mbid: None,
        locale: some(locale),
    }
}

fn resolved_bio(name: &str, canonical: &str, locale: &str) -> BioFetches {
    let request = bio_request(name, EntityType::Artist, None, locale);
    let search = match begin_entity_bio(Decoded::Request(request), catalogue()) {
        BioStart::Search(s) => s,
        _ => panic!("expected a search"),
    };
    assert_eq!(search.name(), name);
    let hit = ArtistHit {
        artist_mbid: "a74b1b7f".to_string(),
        canonical_name: canonical.to_string(),
        confidence_percent: 100,
    };
    let lookup = match search.on_search(Ok(Some(hit))) {
        AfterBioSearch::LookUp(l) => l,
        _ => panic!("expected a lookup"),
    };
    assert_eq!(lookup.mbid(), "a74b1b7f");
    lookup.on_lookup(Ok(ArtistLookup {
        canonical_name: "ignored".to_string(),
        wikipedia_url: some("https://en.wikipedia.org/wiki/Radiohead"),
        wikipedia_language: some("en"),
        wikidata_url: some("https://www.wikidata.org/wiki/Q44190"),
    }))
}

// Biographies

#[test]
fn unusable_bio_requests_are_answered() {
    let answer = |decoded| match begin_entity_bio(decoded, catalogue()) {
        BioStart::Answer(r) => (r.status, r.detail.unwrap_or_default()),
        _ => panic!("expected an answer"),
    };
    assert_eq!(
        answer(Decoded::Empty),
        (CascadeStatus::BadRequest, "empty payload".to_string())
    );
    let mut wrong = bio_request("A", EntityType::Artist, None, "en");
    wrong.v = 2;
    assert_eq!(answer(Decoded::Request(wrong)).1, "unsupported v: 2");
    let blank = bio_request("  ", EntityType::Artist, None, "en");
    assert_eq!(answer(Decoded::Request(blank)).1, "entity.name is required and must be non-empty");
    let nobody = EntityBioRequest {
        v: 1,
        entity: None,
        artist: some(" "),
        artist_mbid: None,
        locale: None,
    };
    assert_eq!(answer(Decoded::Request(nobody)).0, CascadeStatus::BadRequest);
    assert!(matches!(
        begin_entity_bio(Decoded::Rejected("bad".to_string()), catalogue()),
        BioStart::Refused(e) if e == "bad"
    ));
}

#[test]
fn bare_artist_names_lead_nowhere() {
    for found in [Ok(None), Err("down".to_string())] {
        let request = bio_request("Passenger", EntityType::Artist, None, "de");
        let search = match begin_entity_bio(Decoded::Request(request), catalogue()) {
            BioStart::Search(s) => s,
            _ => panic!("expected a search"),
        };
        let fetches = match search.on_search(found) {
            AfterBioSearch::Fetch(f) => f,
            _ => panic!("expected fetches"),
        };
        let pages = missed(fetches.wikipedia());
        assert_eq!(pages.wikidata_url, None);
        assert!(pages.ladder(&None).current().is_none());
    }
}

#[test]
fn offline_nobody_is_asked_for_a_bio() {
    let request = bio_request("Radiohead", EntityType::Artist, None, "en");
    match begin_entity_bio(Decoded::Request(request), offline()) {
        BioStart::Answer(r) => assert_eq!(r.status, CascadeStatus::NotConfigured),
        _ => panic!("expected an answer"),
    }
}

#[test]
fn legacy_requests_name_an_artist() {
    let request = EntityBioRequest {
        v: 1,
        entity: None,
        artist: some(" Radiohead "),
        artist_mbid: some("m-1"),
        locale: None,
    };
    match begin_entity_bio(Decoded::Request(request), catalogue()) {
        BioStart::LookUp(l) => {
            assert_eq!(l.mbid(), "m-1");
            assert_eq!(l.query.entity.name, "Radiohead");
            assert_eq!(l.query.locale, "en");
        }
        _ => panic!("expected a lookup"),
    }
}

#[test]
fn weak_artist_matches_settle_nothing() {
    let request = bio_request("Passenger", EntityType::Artist, None, "en");
    let search = match begin_entity_bio(Decoded::Request(request), catalogue()) {
        BioStart::Search(s) => s,
        _ => panic!("expected a search"),
    };
    let hit = ArtistHit {
        artist_mbid: "m".to_string(),
        canonical_name: "Passengers".to_string(),
        confidence_percent: 84,
    };
    match search.on_search(Ok(Some(hit))) {
        AfterBioSearch::Fetch(f) => {
            assert!(f.query.resolved_mbid.is_none());
            let pages = missed(f.wikipedia());
            assert_eq!(climb(pages.ladder(&None), &[]).0, Vec::<String>::new());
            assert!(matches!(missed(f.theaudiodb()), AudioDbAsk::ByName(_)));
        }
        _ => panic!("expected fetches"),
    }
}

#[test]
fn pages_are_tried_in_the_operators_language_first() {
    let fetches = resolved_bio("radiohead band", "Radiohead", "de-DE");
    let pages = missed(fetches.wikipedia());
    assert!(pages.wikidata_url.is_some());
    let known = Some(entity(&[("enwiki", "Radiohead"), ("dewiki", "Radiohead (Band)")]));
    let (asked, found) = climb(pages.ladder(&known), &[("Radiohead", "en")]);
    assert_eq!(asked, vec!["de:Radiohead (Band)", "en:Radiohead"]);
    assert_eq!(found.unwrap().language, "en");
    let pages = missed(fetches.wikipedia());
    let (asked, _) = climb(pages.ladder(&None), &[]);
    assert_eq!(
        asked,
        vec!["https://en.wikipedia.org/wiki/Radiohead", "de:Radiohead", "en:Radiohead"]
    );
}

#[test]
fn common_nouns_are_not_looked_up_by_name() {
    let fetches = resolved_bio("Passenger", "Passenger", "en");
    let pages = missed(fetches.wikipedia());
    let (asked, _) = climb(pages.ladder(&None), &[]);
    assert_eq!(asked, vec!["https://en.wikipedia.org/wiki/Radiohead"]);
}

#[test]
fn composers_are_asked_of_no_artist_provider() {
    let mut only = catalogue();
    only.musicbrainz = false;
    let request = bio_request("Bach", EntityType::Composer, None, "en");
    match begin_entity_bio(Decoded::Request(request), only) {
        BioStart::Fetch(f) => {
            assert!(f.lastfm().is_none());
            assert!(f.theaudiodb().is_none());
            assert_eq!(climb(missed(f.wikipedia()).ladder(&None), &[]).0, vec!["en:Bach"]);
        }
        _ => panic!("expected fetches"),
    }
}

#[test]
fn answers_stand_in_the_operators_order() {
    let fetches = resolved_bio("x", "Radiohead", "en");
    let ask = missed(fetches.lastfm());
    assert_eq!((ask.name.as_str(), ask.mbid.as_deref()), ("Radiohead", None));
    let lastfm = ask.on_reply(Ok(Some(LastfmText {
        summary: some("A band."),
        content: None,
        source_url: None,
    })));
    let facts = facts_from_reply(Ok(Some(entity(&[]))));
    let wikipedia = Some(wikipedia_source(&summary("Radiohead", "en")));
    let answer = fetches.finish(wikipedia, facts, lastfm, None);
    assert_eq!(answer.status, CascadeStatus::Success);
    let order: Vec<&str> = answer.sources.iter().map(|s| s.provider_id.as_str()).collect();
    assert_eq!(order, vec!["wikipedia", "wikidata", "lastfm"]);
    assert_eq!(answer.provider_id.as_deref(), Some("wikipedia"));
    assert_eq!(answer.language.as_deref(), Some("en"));
    let empty = resolved_bio("x", "Radiohead", "en").finish(None, None, None, None);
    assert_eq!(empty.status, CascadeStatus::NotFound);
    assert_eq!(empty.detail.as_deref(), Some("no bio found for artist=x across enabled providers"));
}

#[test]
fn disambiguation_stubs_are_no_source() {
    let ask = missed(resolved_bio("x", "Passenger", "en").lastfm());
    let stub = LastfmText {
        summary: some("There are at least six artists with this name."),
        content: None,
        source_url: None,
    };
    assert_eq!(ask.on_reply(Ok(Some(stub))), None);
    assert_eq!(ask.on_reply(Err("down".to_string())), None);
}

#[test]
fn audiodb_falls_back_to_the_name() {
    let by_mbid = match missed(resolved_bio("x", "Radiohead", "en").theaudiodb()) {
        AudioDbAsk::ByMbid(a) => a,
        _ => panic!("expected the identifier"),
    };
    let by_name = match by_mbid.on_reply(Ok(None)) {
        AfterMbid::ByName(a) => a,
        _ => panic!("expected the name"),
    };
    assert_eq!(by_name.name, "Radiohead");
    let record = AudioDbArtist {
        bio: Some(Localised { text: "Eine Band.".to_string(), language: "de".to_string() }),
        genre: some("Rock"),
        formed_year: Some(1985),
        source_url: "https://www.theaudiodb.com/artist/1".to_string(),
    };
    let source = by_name.on_reply(Ok(Some(record))).expect("a source");
    assert_eq!(source.language.as_deref(), Some("de"));
}

// What is kept

#[test]
fn kept_sources_answer_unchanged() {
    let cache = EnrichmentCache::new("/c".to_string(), 60);
    let source = wikipedia_source(&summary("Radiohead", "en"));
    let kept = cache.get(Some(entry_to_keep(&source)), 5);
    match resolved_bio("x", "Radiohead", "en").wikipedia().expect("a fetch").on_cache(kept) {
        Probe::Hit(s) => assert_eq!(s, source),
        Probe::Miss(_) => panic!("expected a hit"),
    }
    let miss = cache.put_negative("nothing".to_string(), 5);
    let again = resolved_bio("x", "Radiohead", "en").wikipedia().expect("a fetch");
    assert!(matches!(again.on_cache(Some(miss)), Probe::Miss(_)));
}

#[test]
fn credits_keep_every_track() {
    let credits = ReleaseCredits {
        release_mbid: "m".to_string(),
        first_release_year: Some(1997),
        recording_type: "Studio".to_string(),
        label_name: some("Parlophone"),
        catalog_number: None,
        album_artist: some("Radiohead"),
        country: None,
        tracks: vec![TrackCredit {
            position: 1,
            title: "Airbag".to_string(),
            length_ms: Some(284_000),
            track_artist: None,
            composer: None,
            conductor: None,
            performer: None,
            work_mbid: None,
        }],
    };
    let source = musicbrainz_credits_source(&credits);
    assert_eq!(source.provider_id, "musicbrainz");
    let tracks = match &source.payload {
        Json::Object(members) => members.iter().find(|m| m.key == "tracks").map(|m| &m.value),
        _ => None,
    };
    assert!(matches!(tracks, Some(Json::Array(rows)) if rows.len() == 1));
    let entry = entry_to_keep(&source);
    assert_eq!(entry.payload, Some(source.payload.copy()));
}

#[test]
fn blank_languages_are_none() {
    let payload = |language: &str| {
        Json::Object(vec![Member {
            key: "language".to_string(),
            value: Json::Text(language.to_string()),
        }])
    };
    assert_eq!(language_from_payload(&payload("fr")).as_deref(), Some("fr"));
    assert_eq!(language_from_payload(&payload("")), None);
    assert_eq!(language_from_payload(&Json::Null), None);
}

// Releases

#[test]
fn credits_are_searched_or_looked_up() {
    let request = |mbid: Option<&str>| ReleaseCreditsCascadeRequest {
        v: 1,
        artist: some("Radiohead"),
        album: some("OK Computer (Deluxe)"),
        release_mbid: mbid.map(|m| m.to_string()),
        locale: None,
    };
    let query = match begin_release_credits(Decoded::Request(request(None)), catalogue()) {
        CreditsStart::Fetch(q) => q,
        _ => panic!("expected a query"),
    };
    let search = match missed(query.musicbrainz()) {
        CreditsAsk::Search(s) => s,
        _ => panic!("expected a search"),
    };
    assert_eq!(search.album, "OK Computer");
    let weak = ReleaseMatch { release_mbid: "m".to_string(), confidence_percent: 89 };
    assert!(search.on_search(Ok(Some(weak))).is_none());
    let search = match missed(query.musicbrainz()) {
        CreditsAsk::Search(s) => s,
        _ => panic!("expected a search"),
    };
    let strong = ReleaseMatch { release_mbid: "m".to_string(), confidence_percent: 90 };
    match search.on_search(Ok(Some(strong))) {
        Some(l) => assert_eq!(l.release_mbid, "m"),
        None => panic!("expected a lookup"),
    }
    let discogs_ask = missed(query.discogs());
    let source = discogs_ask.on_reply(Ok(Some(discogs(None))));
    let answer = query.finish(None, source);
    assert_eq!(answer.provider_id.as_deref(), Some("discogs"));
    let query = match begin_release_credits(Decoded::Request(request(Some(" m1 "))), catalogue()) {
        CreditsStart::Fetch(q) => q,
        _ => panic!("expected a query"),
    };
    match missed(query.musicbrainz()) {
        CreditsAsk::LookUp(l) => {
            assert_eq!(l.release_mbid, "m1");
            assert!(l.on_lookup(Err("down".to_string())).is_none());
        }
        _ => panic!("expected a lookup"),
    }
    let mut wrong = request(None);
    wrong.album = None;
    match begin_release_credits(Decoded::Request(wrong), catalogue()) {
        CreditsStart::Answer(r) => assert_eq!(r.status, CascadeStatus::BadRequest),
        _ => panic!("expected an answer"),
    }
    match begin_release_credits(Decoded::Request(request(None)), offline()) {
        CreditsStart::Answer(r) => assert_eq!(r.status, CascadeStatus::NotConfigured),
        _ => panic!("expected an answer"),
    }
}

#[test]
fn album_notes_follow_the_link_to_discogs() {
    let request = AlbumNotesCascadeRequest {
        v: 1,
        artist: some("Pink Floyd"),
        album: some("The Dark Side Of The Moon (Remastered)"),
        release_mbid: some("m1"),
        locale: some("fr"),
    };
    let query = match begin_album_notes(Decoded::Request(request), catalogue()) {
        NotesStart::Fetch(q) => q,
        _ => panic!("expected a query"),
    };
    let (asked, _) = climb(missed(query.wikipedia()), &[]);
    assert_eq!(
        asked,
        vec![
            "fr:The Dark Side of the Moon (Pink Floyd album)",
            "fr:The Dark Side of the Moon (album)",
            "fr:The Dark Side of the Moon",
            "en:The Dark Side of the Moon (Pink Floyd album)",
            "en:The Dark Side of the Moon (album)",
            "en:The Dark Side of the Moon",
        ]
    );
    let link = match missed(query.discogs()) {
        DiscogsNotesAsk::Link(l) => l,
        _ => panic!("expected a link"),
    };
    assert_eq!(link.release_mbid, "m1");
    let by_id = match link.on_link(Some(42)) {
        AfterLink::ById(b) => b,
        _ => panic!("expected a number"),
    };
    let search = match by_id.on_reply(Ok(None)) {
        AfterId::Search(s) => s,
        _ => panic!("expected a search"),
    };
    let source = search.on_reply(Ok(Some(discogs(Some("Recorded in 1972."))))).expect("a source");
    assert_eq!(source.provider_id, "discogs");
    let search = match missed(query.discogs()) {
        DiscogsNotesAsk::Link(l) => match l.on_link(None) {
            AfterLink::Search(s) => s,
            _ => panic!("expected a search"),
        },
        _ => panic!("expected a link"),
    };
    assert!(search.on_reply(Ok(Some(discogs(None)))).is_none(), "nothing to show");
    let ask = missed(query.lastfm());
    assert_eq!((ask.album.as_str(), ask.mbid.as_deref()), ("The Dark Side of the Moon", Some("m1")));
    let none = query.finish(None, None, None, None);
    assert_eq!(none.status, CascadeStatus::NotFound);
    assert!(none.detail.unwrap().contains("Pink Floyd — The Dark Side Of The Moon (Remastered)"));
}

#[test]
fn annotations_come_from_pages_and_genius() {
    let request = TrackAnnotationCascadeRequest {
        v: 1,
        artist: some("Radiohead"),
        track: some("Creep"),
        recording_mbid: None,
        locale: None,
    };
    let query = match begin_track_annotation(Decoded::Request(request), catalogue()) {
        AnnotationStart::Fetch(q) => q,
        _ => panic!("expected a query"),
    };
    let (asked, found) = climb(missed(query.wikipedia()), &[("Creep (Radiohead song)", "en")]);
    assert_eq!(asked, vec!["en:Creep (Radiohead song)"]);
    let genius = missed(query.genius()).on_reply(Ok(Some(GeniusAnnotation {
        song_id: 7,
        description: some("A song."),
        source_url: some("https://genius.com/7"),
    })));
    assert!(genius.is_some());
    let answer = query.finish(found.map(|s| wikipedia_source(&s)), genius);
    let order: Vec<&str> = answer.sources.iter().map(|s| s.provider_id.as_str()).collect();
    assert_eq!(order, vec!["wikipedia", "genius"]);
    let blank = TrackAnnotationCascadeRequest {
        v: 1,
        artist: some("Radiohead"),
        track: some(""),
        recording_mbid: None,
        locale: None,
    };
    match begin_track_annotation(Decoded::Request(blank), catalogue()) {
        AnnotationStart::Answer(r) => assert_eq!(r.status, CascadeStatus::BadRequest),
        _ => panic!("expected an answer"),
    }
}

// Works

#[test]
fn works_are_settled_before_their_pages_are_read() {
    let request = WorkNotesCascadeRequest {
        v: 1,
        work_name: some("Symphony No. 5"),
        work_mbid: None,
        composer: some("Beethoven"),
        locale: None,
    };
    let search = match begin_work_notes(Decoded::Request(request), catalogue()) {
        WorkStart::Search(s) => s,
        _ => panic!("expected a search"),
    };
    assert_eq!((search.name(), search.composer().as_deref()), ("Symphony No. 5", Some("Beethoven")));
    let lookup = match search
        .on_search(Ok(Some(WorkHit { work_mbid: "w1".to_string(), confidence_percent: 100 })))
    {
        AfterWorkSearch::LookUp(l) => l,
        _ => panic!("expected a lookup"),
    };
    assert_eq!(lookup.mbid(), "w1");
    let fetches = lookup.on_lookup(Ok(WorkLookup {
        canonical_title: "Symphony no. 5 in C minor, op. 67".to_string(),
        work_type: some("Symphony"),
        wikipedia_url: None,
        wikidata_url: some("https://www.wikidata.org/wiki/Q1"),
    }));
    let pages = missed(fetches.wikipedia());
    assert_eq!(pages.identity.work_mbid.as_deref(), Some("w1"));
    let (asked, _) = climb(pages.ladder, &[]);
    assert_eq!(asked, vec!["en:Symphony no. 5 in C minor, op. 67", "en:Symphony No. 5"]);
    let facts = missed(fetches.wikidata());
    assert_eq!(facts.wikidata_url, "https://www.wikidata.org/wiki/Q1");
    let source = facts.on_reply(Ok(Some(entity(&[])))).expect("facts");
    assert_eq!(source.payload.get_text("work_type").as_deref(), Some("Symphony"));
    assert_eq!(fetches.finish(None, Some(source)).status, CascadeStatus::Success);
    let nothing = WorkNotesCascadeRequest {
        v: 1,
        work_name: some(" "),
        work_mbid: None,
        composer: None,
        locale: None,
    };
    match begin_work_notes(Decoded::Request(nothing), catalogue()) {
        WorkStart::Answer(r) => assert_eq!(r.status, CascadeStatus::BadRequest),
        _ => panic!("expected an answer"),
    }
}

// Lyrics

fn lyrics_request(duration: Option<i64>) -> LyricsRequest {
    LyricsRequest {
        v: 1,
        artist: some("Radiohead"),
        track: some(" Creep "),
        album: some("Pablo Honey"),
        duration_rounded: duration,
    }
}

fn lyrics_ask(duration: Option<i64>) -> LyricsAsk {
    match begin_lyrics(Decoded::Request(lyrics_request(duration)), &ProviderConfig::defaults()) {
        LyricsStart::Pending(q) => match q.on_cache(None) {
            AfterLyricsCache::Ask(a) => a,
            _ => panic!("expected a question"),
        },
        _ => panic!("expected a query"),
    }
}

#[test]
fn lyrics_of_other_lengths_are_kept_apart() {
    let keys: Vec<String> = [None, Some(1), Some(11), Some(-1)]
        .iter()
        .map(|d| lyrics_ask(*d).key)
        .collect();
    for i in 0..keys.len() {
        for j in 0..i {
            assert_ne!(keys[i], keys[j]);
        }
    }
}

#[test]
fn kept_lyrics_read_the_same() {
    let hit = LyricsHit {
        synced_lyrics: None,
        plain_lyrics: some("When you were here before"),
        is_synced: false,
        lrclib_id: Some(12),
    };
    let ask = lyrics_ask(Some(238));
    assert_eq!((ask.artist.as_str(), ask.track.as_str()), ("Radiohead", "Creep"));
    let (response, entry) = match ask.on_reply(Ok(Some(hit))) {
        AfterLyrics::Hit { response, entry, .. } => (response, entry),
        _ => panic!("expected a hit"),
    };
    let payload = response.payload.as_ref().expect("a payload");
    assert_eq!(payload.get_text("source_url").as_deref(), Some("https://lrclib.net/lyrics/12"));
    let config = ProviderConfig::defaults();
    match begin_lyrics(Decoded::Request(lyrics_request(Some(238))), &config) {
        LyricsStart::Pending(q) => match q.on_cache(Some(entry)) {
            AfterLyricsCache::Answer(again) => assert_eq!(again, response),
            _ => panic!("expected an answer"),
        },
        _ => panic!("expected a query"),
    }
}

#[test]
fn missing_lyrics_are_kept_as_misses() {
    match lyrics_ask(None).on_reply(Ok(None)) {
        AfterLyrics::Miss { response, detail, .. } => {
            assert_eq!(response.status, CascadeStatus::NotFound);
            assert_eq!(detail, NO_LYRICS);
        }
        _ => panic!("expected a miss"),
    }
    assert!(matches!(
        lyrics_ask(None).on_reply(Err("timeout".to_string())),
        AfterLyrics::Refused(e) if e.contains("timeout")
    ));
}

#[test]
fn lyrics_need_lrclib() {
    match begin_lyrics(Decoded::Request(lyrics_request(None)), &offline().config) {
        LyricsStart::Answer(r) => assert_eq!(r.status, CascadeStatus::NotConfigured),
        _ => panic!("expected an answer"),
    }
    match begin_lyrics(Decoded::Empty, &offline().config) {
        LyricsStart::Answer(r) => assert_eq!(r.status, CascadeStatus::BadRequest),
        _ => panic!("expected an answer"),
    }
}

#[test]
fn english_is_tried_once() {
    assert_eq!(fallback_langs("en"), vec!["en"]);
    assert_eq!(fallback_langs("ja"), vec!["ja", "en"]);
}

#[test]
fn answers_go_out_in_order() {
    let source: SourceEntry = wikipedia_source(&summary("Radiohead", "en"));
    assert_eq!(SourceKind::Wikipedia.provider().as_str(), source.provider_id);
    let answer = resolved_bio("x", "Radiohead", "en").finish(Some(source), None, None, None);
    match answer.to_json() {
        Json::Object(members) => {
            let keys: Vec<&str> = members.iter().map(|m| m.key.as_str()).collect();
            assert_eq!(&keys[..2], &["v", "status"]);
            assert!(keys.contains(&"sources"));
            assert_eq!(members[1].value, Json::Text("ok".to_string()));
        }
        other => panic!("expected an object, got {:?}", other),
    }
}

// All verbs

fn keyless() -> ProviderCatalogue {
    let mut c = catalogue();
    c.lastfm = false;
    c.discogs = false;
    c.genius = false;
    c
}

fn album_request() -> AlbumNotesCascadeRequest {
    AlbumNotesCascadeRequest {
        v: 1,
        artist: some("Pink Floyd"),
        album: some("Animals"),
        release_mbid: None,
        locale: None,
    }
}

#[test]
fn missing_keys_silence_no_verb() {
    let bio = bio_request("Radiohead", EntityType::Artist, Some("m"), "en");
    assert!(matches!(
        begin_entity_bio(Decoded::Request(bio), keyless()),
        BioStart::LookUp(_)
    ));
    assert!(matches!(
        begin_album_notes(Decoded::Request(album_request()), keyless()),
        NotesStart::Fetch(_)
    ));
    let credits = ReleaseCreditsCascadeRequest {
        v: 1,
        artist: some("Pink Floyd"),
        album: some("Animals"),
        release_mbid: None,
        locale: None,
    };
    assert!(matches!(
        begin_release_credits(Decoded::Request(credits), keyless()),
        CreditsStart::Fetch(_)
    ));
    let annotation = TrackAnnotationCascadeRequest {
        v: 1,
        artist: some("Pink Floyd"),
        track: some("Dogs"),
        recording_mbid: None,
        locale: None,
    };
    assert!(matches!(
        begin_track_annotation(Decoded::Request(annotation), keyless()),
        AnnotationStart::Fetch(_)
    ));
    let work = WorkNotesCascadeRequest {
        v: 1,
        work_name: some("Symphony No. 5"),
        work_mbid: None,
        composer: None,
        locale: None,
    };
    assert!(matches!(
        begin_work_notes(Decoded::Request(work), keyless()),
        WorkStart::Search(_)
    ));
}

#[test]
fn disabled_providers_are_never_asked() {
    let mut c = catalogue();
    c.config.set_flags(ProviderId::Discogs, ProviderFlags { enabled: false, priority: 0 });
    assert!(!c.wants(ProviderId::Discogs));
    let query = match begin_album_notes(Decoded::Request(album_request()), c) {
        NotesStart::Fetch(q) => q,
        _ => panic!("expected a query"),
    };
    assert!(query.discogs().is_none());
    assert!(query.lastfm().is_some());
}

#[test]
fn entries_name_their_provider() {
    let query = match begin_album_notes(Decoded::Request(album_request()), catalogue()) {
        NotesStart::Fetch(q) => q,
        _ => panic!("expected a query"),
    };
    let mut keys = vec![
        query.wikipedia().expect("a fetch").key,
        query.lastfm().expect("a fetch").key,
        query.theaudiodb().expect("a fetch").key,
        query.discogs().expect("a fetch").key,
    ];
    keys.sort();
    keys.dedup();
    assert_eq!(keys.len(), 4);
}
