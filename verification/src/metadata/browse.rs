//! Browsing the library by recording type.
//!
//! The library's albums are reconciled one by one; those of the wanted type are
//! the matches, and one page of them is the answer.

use crate::json::{array, number, number_model, opt_view, text, with_member, with_text};
use crate::json::{lemma_key_tags, lemma_last_member_push, member};
use crate::json::{models, Json, JsonModel, ObjectWriter};
use crate::metadata::cascade::written;
use crate::metadata::config::{key_text, non_blank};
use crate::metadata::reconcile::{ReconcileModel, ReconcileResponse, ReconcileStatus};
use crate::metadata::request::Decoded;
use crate::text::{
    ascii_lower, chars_of, decimal, decimal_of, hex_digit, joined, same_chars, to_ascii_lower,
    trim_of,
};
use crate::text::has_prefix;
use vstd::prelude::*;

verus! {

/// The most entries that a page holds.
pub const BROWSE_HARD_CAP: usize = 2_000;

/// A request to browse.
pub struct BrowseByRecordingTypeRequest {
    pub v: u8,
    pub recording_type: Option<String>,
    pub page: Option<usize>,
    pub page_size: Option<usize>,
}

/// An album of the wanted type.
#[derive(Debug, PartialEq, Eq)]
pub struct FacetEntry {
    pub artist: String,
    pub album: String,
    pub recording_type: String,
    pub first_release_year: Option<u16>,
    pub release_mbid: Option<String>,
}

/// What a [`FacetEntry`] says.
pub struct FacetModel {
    pub artist: Seq<char>,
    pub album: Seq<char>,
    pub recording_type: Seq<char>,
    pub first_release_year: Option<u16>,
    pub release_mbid: Option<Seq<char>>,
}

impl View for FacetEntry {
    type V = FacetModel;

    open spec fn view(&self) -> FacetModel {
        FacetModel {
            artist: self.artist@,
            album: self.album@,
            recording_type: self.recording_type@,
            first_release_year: self.first_release_year,
            release_mbid: opt_view(self.release_mbid),
        }
    }
}

/// What entries say, in order.
pub open spec fn facet_views(v: Seq<FacetEntry>) -> Seq<FacetModel> {
    Seq::new(v.len(), |i: int| v[i]@)
}

/// The answer to a request to browse.
#[derive(Debug, PartialEq, Eq)]
pub struct BrowseByRecordingTypeResponse {
    /// Whether the request was usable.
    pub ok: bool,
    pub recording_type: Option<String>,
    pub entries: Vec<FacetEntry>,
    pub page: usize,
    pub page_size: usize,
    pub total: usize,
    pub next_page: Option<usize>,
    pub library_album_count: usize,
    pub reconciled_album_count: usize,
    pub reconcile_errors: usize,
    pub detail: Option<String>,
}

/// What a [`BrowseByRecordingTypeResponse`] says.
#[verifier::ext_equal]
pub struct BrowseModel {
    pub ok: bool,
    pub recording_type: Option<Seq<char>>,
    pub entries: Seq<FacetModel>,
    pub page: nat,
    pub page_size: nat,
    pub total: nat,
    pub next_page: Option<nat>,
    pub library_album_count: nat,
    pub reconciled_album_count: nat,
    pub reconcile_errors: nat,
    pub detail: Option<Seq<char>>,
}

impl View for BrowseByRecordingTypeResponse {
    type V = BrowseModel;

    open spec fn view(&self) -> BrowseModel {
        BrowseModel {
            ok: self.ok,
            recording_type: opt_view(self.recording_type),
            entries: facet_views(self.entries@),
            page: self.page as nat,
            page_size: self.page_size as nat,
            total: self.total as nat,
            next_page: match self.next_page {
                Some(p) => Some(p as nat),
                None => None,
            },
            library_album_count: self.library_album_count as nat,
            reconciled_album_count: self.reconciled_album_count as nat,
            reconcile_errors: self.reconcile_errors as nat,
            detail: opt_view(self.detail),
        }
    }
}

/// The answer to a request that is not usable.
pub open spec fn unusable(detail: Seq<char>) -> BrowseModel {
    BrowseModel {
        ok: false,
        recording_type: None,
        entries: Seq::empty(),
        page: 0,
        page_size: 0,
        total: 0,
        next_page: None,
        library_album_count: 0,
        reconciled_album_count: 0,
        reconcile_errors: 0,
        detail: Some(detail),
    }
}

fn bad_request(detail: String) -> (r: BrowseByRecordingTypeResponse)
    ensures
        r@ == unusable(detail@),
{
    let r = BrowseByRecordingTypeResponse {
        ok: false,
        recording_type: None,
        entries: Vec::new(),
        page: 0,
        page_size: 0,
        total: 0,
        next_page: None,
        library_album_count: 0,
        reconciled_album_count: 0,
        reconcile_errors: 0,
        detail: Some(detail),
    };
    assert(r@ =~= unusable(detail@)) by {
        assert(r@.entries =~= Seq::<FacetModel>::empty());
    }
    r
}

// ---------------------------------------------------------------------
// The query
// ---------------------------------------------------------------------

/// What is browsed for.
pub struct Browse {
    pub want_type: String,
    pub page: usize,
    pub page_size: usize,
}

/// Where a request leads.
pub enum BrowseStart {
    /// The request cannot be read.
    Refused(String),
    Answer(BrowseByRecordingTypeResponse),
    /// The library is to be enumerated and reconciled.
    Pending(Browse),
}

/// The size of a page: as asked for, within bounds.
pub open spec fn page_size_of(asked: Option<usize>) -> nat {
    match asked {
        Some(n) => if n < 1 {
            1
        } else if n > BROWSE_HARD_CAP {
            BROWSE_HARD_CAP as nat
        } else {
            n as nat
        },
        None => BROWSE_HARD_CAP as nat,
    }
}

/// Where a browse request leads.
pub open spec fn browse_starts(
    decoded: Decoded<BrowseByRecordingTypeRequest>,
    r: BrowseStart,
) -> bool {
    match decoded {
        Decoded::Empty => r is Answer && r->Answer_0@ == unusable("empty payload"@),
        Decoded::Rejected(e) => r == BrowseStart::Refused(e),
        Decoded::Request(q) => if q.v != 1 {
            r is Answer && r->Answer_0@ == unusable(
                "unsupported request v: "@ + decimal_of(q.v as nat),
            )
        } else {
            match key_text(opt_view(q.recording_type)) {
                None => r is Answer && r->Answer_0@ == unusable(
                    "recording_type is required and must be non-empty"@,
                ),
                Some(wanted) => {
                    &&& r matches BrowseStart::Pending(b)
                    &&& b.want_type@ == wanted
                    &&& b.page == (match q.page {
                        Some(p) => p,
                        None => 0usize,
                    })
                    &&& b.page_size == page_size_of(q.page_size)
                    &&& b.well_formed()
                },
            }
        },
    }
}

/// Starts a browse.
pub fn begin_browse(decoded: Decoded<BrowseByRecordingTypeRequest>) -> (r: BrowseStart)
    ensures
        browse_starts(decoded, r),
{
    let q = match decoded {
        Decoded::Empty => {
            return BrowseStart::Answer(bad_request("empty payload".to_owned()));
        },
        Decoded::Rejected(e) => {
            return BrowseStart::Refused(e);
        },
        Decoded::Request(q) => q,
    };
    if q.v != 1 {
        return BrowseStart::Answer(
            bad_request(joined("unsupported request v: ", decimal(q.v as u64).as_str())),
        );
    }
    let want_type = match non_blank(&q.recording_type) {
        Some(t) => t,
        None => {
            return BrowseStart::Answer(
                bad_request("recording_type is required and must be non-empty".to_owned()),
            );
        },
    };
    let page: usize = match q.page {
        Some(p) => p,
        None => 0,
    };
    let page_size: usize = match q.page_size {
        Some(n) => if n < 1 {
            1
        } else if n > BROWSE_HARD_CAP {
            BROWSE_HARD_CAP
        } else {
            n
        },
        None => BROWSE_HARD_CAP,
    };
    BrowseStart::Pending(Browse { want_type, page, page_size })
}

/// A character inside a JSON string literal: quotes, backslashes and control
/// characters are escaped, those without a short form by their number.
pub open spec fn json_char(c: char) -> Seq<char> {
    if c == '"' || c == '\\' {
        seq!['\\', c]
    } else if c as nat == 8 {
        seq!['\\', 'b']
    } else if c == '\t' {
        seq!['\\', 't']
    } else if c == '\n' {
        seq!['\\', 'n']
    } else if c as nat == 12 {
        seq!['\\', 'f']
    } else if c == '\r' {
        seq!['\\', 'r']
    } else if (c as nat) < 32 {
        seq!['\\', 'u', '0', '0', hex_digit(c as nat / 16), hex_digit(c as nat % 16)]
    } else {
        seq![c]
    }
}

/// Characters inside a JSON string literal.
pub open spec fn json_chars(s: Seq<char>) -> Seq<char>
    decreases s.len(),
{
    if s.len() == 0 {
        Seq::empty()
    } else {
        json_chars(s.drop_last()) + json_char(s.last())
    }
}

/// A text as a JSON string literal.
pub open spec fn json_literal(s: Seq<char>) -> Seq<char> {
    seq!['"'] + json_chars(s) + seq!['"']
}

/// `serde_json::Value::String(..).to_string()`: the text in quotes; quotes,
/// backslashes and control characters escaped, all others as they are.
#[verifier::external_body]
fn quote_json(s: &str) -> (r: String)
    ensures
        r@ == json_literal(s@),
{
    serde_json::Value::String(s.to_string()).to_string()
}

/// A text as a JSON string literal.
pub fn json_str(s: &str) -> (r: String)
    ensures
        r@ == json_literal(s@),
{
    quote_json(s)
}

/// The payload that asks for an album's reconciliation.
pub open spec fn payload_of(artist: Seq<char>, album: Seq<char>) -> Seq<char> {
    "{\"v\":1,\"artist\":"@ + json_literal(artist) + ",\"album\":"@ + json_literal(album) + "}"@
}

/// The payload that asks for an album's reconciliation.
pub fn reconcile_payload(artist: &str, album: &str) -> (r: String)
    ensures
        r@ == payload_of(artist@, album@),
{
    let mut r = joined("{\"v\":1,\"artist\":", json_str(artist).as_str());
    r.append(",\"album\":");
    r.append(json_str(album).as_str());
    r.append("}");
    r
}

/// What a reconciliation adds to the matches: the canonical identity, where there
/// is one of the wanted type, whatever the type's case.
pub open spec fn match_of(response: ReconcileModel, wanted: Seq<char>) -> Option<FacetModel> {
    match response.canonical {
        Some(c) => if response.status is Success && ascii_lower(c.recording_type) == ascii_lower(
            wanted,
        ) {
            Some(
                FacetModel {
                    artist: c.artist,
                    album: c.album,
                    recording_type: c.recording_type,
                    first_release_year: c.first_release_year,
                    release_mbid: Some(c.release_mbid),
                },
            )
        } else {
            None
        },
        None => None,
    }
}

/// What has come of the albums so far.
#[verifier::ext_equal]
pub struct Tally {
    pub matched: Seq<FacetModel>,
    pub reconciled: nat,
    pub errors: nat,
}

/// What came of an album: its reconciliation, or none where that failed.
pub open spec fn outcome_model(outcome: Result<ReconcileResponse, String>) -> Option<
    ReconcileModel,
> {
    match outcome {
        Ok(response) => Some(response@),
        Err(_) => None,
    }
}

/// The tally after one more album.
pub open spec fn after_outcome(
    t: Tally,
    wanted: Seq<char>,
    outcome: Option<ReconcileModel>,
) -> Tally {
    match outcome {
        None => Tally { errors: t.errors + 1, ..t },
        Some(response) => Tally {
            reconciled: t.reconciled + 1,
            matched: match match_of(response, wanted) {
                Some(m) => t.matched.push(m),
                None => t.matched,
            },
            ..t
        },
    }
}

/// The tally after a whole library.
pub open spec fn tally_of(wanted: Seq<char>, outcomes: Seq<Option<ReconcileModel>>) -> Tally
    decreases outcomes.len(),
{
    if outcomes.len() == 0 {
        Tally { matched: Seq::empty(), reconciled: 0, errors: 0 }
    } else {
        after_outcome(tally_of(wanted, outcomes.drop_last()), wanted, outcomes.last())
    }
}

/// Every album of the library is counted once, as reconciled or as failed, and
/// every match is the canonical identity of a reconciled album of the wanted type.
pub proof fn law_every_album_is_counted(wanted: Seq<char>, outcomes: Seq<Option<ReconcileModel>>)
    ensures
        tally_of(wanted, outcomes).reconciled + tally_of(wanted, outcomes).errors
            == outcomes.len(),
        tally_of(wanted, outcomes).matched.len() <= tally_of(wanted, outcomes).reconciled,
        forall|i: int|
            0 <= i < tally_of(wanted, outcomes).matched.len() ==> ascii_lower(
                (#[trigger] tally_of(wanted, outcomes).matched[i]).recording_type,
            ) == ascii_lower(wanted),
    decreases outcomes.len(),
{
    if outcomes.len() > 0 {
        law_every_album_is_counted(wanted, outcomes.drop_last());
    }
}

/// The page of matches that starts after `page * size` of them.
pub open spec fn page_of(matched: Seq<FacetModel>, page: nat, size: nat) -> Seq<FacetModel> {
    let total = matched.len() as int;
    let from = page * size;
    let to = page * size + size;
    matched.subrange(
        if from < total {
            from as int
        } else {
            total
        },
        if to < total {
            to as int
        } else {
            total
        },
    )
}

/// The answer over a whole library: one page of its matches, and what came of its
/// albums. `outcomes` holds what came of each album, in the library's order.
pub open spec fn browse_answer(
    wanted: Seq<char>,
    page: nat,
    size: nat,
    outcomes: Seq<Option<ReconcileModel>>,
) -> BrowseModel {
    let t = tally_of(wanted, outcomes);
    BrowseModel {
        ok: true,
        recording_type: Some(wanted),
        entries: page_of(t.matched, page, size),
        page,
        page_size: size,
        total: t.matched.len(),
        next_page: if (page + 1) * size < t.matched.len() {
            Some(page + 1)
        } else {
            None
        },
        library_album_count: outcomes.len(),
        reconciled_album_count: t.reconciled,
        reconcile_errors: t.errors,
        detail: None,
    }
}

impl Browse {
    /// The page size is within bounds.
    pub open spec fn well_formed(&self) -> bool {
        1 <= self.page_size <= BROWSE_HARD_CAP
    }

    /// Starts going through a library, given as artists and albums.
    pub fn over(self, library: Vec<(String, String)>) -> (r: LibraryBrowse)
        requires
            self.well_formed(),
        ensures
            r.well_formed(),
            r@ == (LibraryModel {
                wanted: self.want_type@,
                page: self.page as nat,
                page_size: self.page_size as nat,
                library: album_views(library@),
                seen: Seq::empty(),
            }),
    {
        let r = LibraryBrowse {
            browse: self,
            library,
            matched: Vec::new(),
            reconciled: 0,
            errors: 0,
            seen: Ghost(Seq::empty()),
        };
        assert(r.tally() =~= tally_of(r.browse.want_type@, r.seen@));
        r
    }
}

/// A browse that goes through a library.
pub struct LibraryBrowse {
    browse: Browse,
    library: Vec<(String, String)>,
    matched: Vec<FacetEntry>,
    reconciled: usize,
    errors: usize,
    /// What came of each album so far.
    seen: Ghost<Seq<Option<ReconcileModel>>>,
}

/// What a [`LibraryBrowse`] holds.
#[verifier::ext_equal]
pub struct LibraryModel {
    pub wanted: Seq<char>,
    pub page: nat,
    pub page_size: nat,
    /// The artist and the title of each album.
    pub library: Seq<(Seq<char>, Seq<char>)>,
    /// What came of each album so far, in the library's order.
    pub seen: Seq<Option<ReconcileModel>>,
}

/// What artists and albums say, in order.
pub open spec fn album_views(library: Seq<(String, String)>) -> Seq<(Seq<char>, Seq<char>)> {
    Seq::new(library.len(), |i: int| (library[i].0@, library[i].1@))
}

impl View for LibraryBrowse {
    type V = LibraryModel;

    closed spec fn view(&self) -> LibraryModel {
        LibraryModel {
            wanted: self.browse.want_type@,
            page: self.browse.page as nat,
            page_size: self.browse.page_size as nat,
            library: album_views(self.library@),
            seen: self.seen@,
        }
    }
}

impl LibraryBrowse {
    /// The matches and counts are those of the albums so far.
    pub closed spec fn well_formed(&self) -> bool {
        &&& self.browse.well_formed()
        &&& self.seen@.len() <= self.library@.len()
        &&& self.tally() == tally_of(self.browse.want_type@, self.seen@)
    }

    /// How far the browse has come.
    closed spec fn tally(&self) -> Tally {
        Tally {
            matched: facet_views(self.matched@),
            reconciled: self.reconciled as nat,
            errors: self.errors as nat,
        }
    }

    /// The payload that asks for the next album's reconciliation; none when the
    /// library has been gone through.
    pub fn next_payload(&self) -> (r: Option<String>)
        requires
            self.well_formed(),
        ensures
            match r {
                Some(p) => {
                    let (artist, album) = self@.library[self@.seen.len() as int];
                    &&& self@.seen.len() < self@.library.len()
                    &&& p@ == payload_of(artist, album)
                },
                None => self@.seen.len() == self@.library.len(),
            },
    {
        proof {
            law_every_album_is_counted(self.browse.want_type@, self.seen@);
            assert(self.tally().reconciled == self.reconciled);
        }
        let n: usize = self.library.len();
        let i: usize = self.reconciled + self.errors;
        if i < n {
            Some(reconcile_payload(self.library[i].0.as_str(), self.library[i].1.as_str()))
        } else {
            None
        }
    }

    /// Takes in what came of the next album's reconciliation; a failure is counted
    /// and passed over.
    pub fn on_reconciled(&mut self, outcome: Result<ReconcileResponse, String>)
        requires
            old(self).well_formed(),
            old(self)@.seen.len() < old(self)@.library.len(),
        ensures
            final(self).well_formed(),
            final(self)@ == (LibraryModel {
                seen: old(self)@.seen.push(outcome_model(outcome)),
                ..old(self)@
            }),
    {
        let ghost next = self.seen@.push(outcome_model(outcome));
        proof {
            law_every_album_is_counted(self.browse.want_type@, self.seen@);
            assert(self.tally().reconciled == self.reconciled);
            assert(next.drop_last() =~= self.seen@);
            assert(self.library.len() <= usize::MAX);
        }
        self.count(outcome);
        self.seen = Ghost(next);
    }

    fn count(&mut self, outcome: Result<ReconcileResponse, String>)
        requires
            old(self).reconciled < usize::MAX,
            old(self).errors < usize::MAX,
        ensures
            final(self).browse == old(self).browse,
            final(self).library == old(self).library,
            final(self).seen == old(self).seen,
            final(self).tally() == after_outcome(
                old(self).tally(),
                old(self).browse.want_type@,
                outcome_model(outcome),
            ),
    {
        let response = match outcome {
            Err(_) => {
                self.errors = self.errors + 1;
                return ;
            },
            Ok(r) => r,
        };
        self.reconciled = self.reconciled + 1;
        match response.status {
            ReconcileStatus::Success => {},
            _ => {
                return ;
            },
        }
        let canonical = match response.canonical {
            Some(c) => c,
            None => {
                return ;
            },
        };
        let theirs = to_ascii_lower(chars_of(canonical.recording_type.as_str()).as_slice());
        let wanted = to_ascii_lower(chars_of(self.browse.want_type.as_str()).as_slice());
        if same_chars(theirs.as_slice(), wanted.as_slice()) {
            let ghost before = self.matched@;
            let entry = FacetEntry {
                artist: canonical.artist,
                album: canonical.album,
                recording_type: canonical.recording_type,
                first_release_year: canonical.first_release_year,
                release_mbid: Some(canonical.release_mbid),
            };
            self.matched.push(entry);
            assert(facet_views(self.matched@) =~= facet_views(before).push(entry@));
        }
    }

    /// The answer, once the library has been gone through: the page asked for, and
    /// what came of the albums.
    pub fn finish(self) -> (r: BrowseByRecordingTypeResponse)
        requires
            self.well_formed(),
            self@.seen.len() == self@.library.len(),
        ensures
            r@ == browse_answer(self@.wanted, self@.page, self@.page_size, self@.seen),
    {
        let page: usize = self.browse.page;
        let page_size: usize = self.browse.page_size;
        let total: usize = self.matched.len();
        let ghost all = facet_views(self.matched@);
        let ghost exact_from: nat = page as nat * page_size as nat;
        let ghost exact_to: nat = exact_from + page_size as nat;
        assert(self.tally().matched == all);
        assert((page + 1) * page_size == exact_to) by (nonlinear_arith)
            requires
                exact_from == page as nat * page_size as nat,
                exact_to == exact_from + page_size as nat,
        ;
        assert(exact_from >= page) by (nonlinear_arith)
            requires
                exact_from == page as nat * page_size as nat,
                page_size >= 1,
        ;
        let from: usize = match page.checked_mul(page_size) {
            Some(p) => if p < total {
                p
            } else {
                total
            },
            None => total,
        };
        let to: usize = if total - from < page_size {
            total
        } else {
            from + page_size
        };
        let next_page: Option<usize> = if to < total {
            Some(page + 1)
        } else {
            None
        };
        let ghost m = self@;
        let mut matched = self.matched;
        let ghost whole = matched@;
        let mut entries = matched.split_off(from);
        assert(entries@ =~= whole.subrange(from as int, total as int));
        entries.truncate(to - from);
        assert(entries@ =~= whole.subrange(from as int, to as int));
        let r = BrowseByRecordingTypeResponse {
            ok: true,
            recording_type: Some(self.browse.want_type),
            entries,
            page,
            page_size,
            total,
            next_page,
            library_album_count: self.library.len(),
            reconciled_album_count: self.reconciled,
            reconcile_errors: self.errors,
            detail: None,
        };
        assert(r@.entries =~= page_of(all, page as nat, page_size as nat));
        assert(r@ =~= browse_answer(m.wanted, m.page, m.page_size, m.seen));
        r
    }
}

/// Pages put end to end are the matches: the next page starts where this one
/// ends, and there is a next page exactly while matches are left.
pub proof fn law_pages_are_seamless(matched: Seq<FacetModel>, page: nat, size: nat)
    requires
        1 <= size,
    ensures
        page_of(matched, page, size).len() <= size,
        page * size + size < matched.len() ==> page_of(matched, page, size).len() == size,
        page * size < matched.len() ==> matched.take((page * size) as int) + page_of(
            matched,
            page,
            size,
        ) == matched.take(
            if page * size + size < matched.len() {
                (page * size + size) as int
            } else {
                matched.len() as int
            },
        ),
        matched.len() <= page * size ==> page_of(matched, page, size).len() == 0,
{
    assert(0 <= page * size) by (nonlinear_arith);
    if page * size < matched.len() {
        let to = if page * size + size < matched.len() {
            (page * size + size) as int
        } else {
            matched.len() as int
        };
        assert(matched.take((page * size) as int) + page_of(matched, page, size) =~= matched.take(
            to,
        ));
    }
}

/// The entries that a caller collects who starts at a page and follows `next_page`
/// to its end.
pub open spec fn collected(
    wanted: Seq<char>,
    page: nat,
    size: nat,
    outcomes: Seq<Option<ReconcileModel>>,
) -> Seq<FacetModel>
    decreases tally_of(wanted, outcomes).matched.len() - page * size,
{
    let answer = browse_answer(wanted, page, size, outcomes);
    if size == 0 || answer.next_page is None {
        answer.entries
    } else {
        proof {
            assert((page + 1) * size == page * size + size) by (nonlinear_arith);
        }
        answer.entries + collected(wanted, page + 1, size, outcomes)
    }
}

/// A browse accounts for the whole library, and its pages hold the matches without
/// a gap or a repeat: each album is counted once, the total is that of the matches,
/// an answer holds those from `page * size` on, it names a next page exactly while
/// matches are left behind it, and whoever follows the pages from the first one
/// collects the matches, in the library's order.
pub proof fn law_browsing_yields_every_match(
    wanted: Seq<char>,
    page: nat,
    size: nat,
    outcomes: Seq<Option<ReconcileModel>>,
)
    requires
        1 <= size,
    ensures
        ({
            let answer = browse_answer(wanted, page, size, outcomes);
            let matched = tally_of(wanted, outcomes).matched;
            let from = if page * size < matched.len() {
                (page * size) as int
            } else {
                matched.len() as int
            };
            let to = if (page + 1) * size < matched.len() {
                ((page + 1) * size) as int
            } else {
                matched.len() as int
            };
            &&& answer.reconciled_album_count + answer.reconcile_errors
                == answer.library_album_count == outcomes.len()
            &&& answer.total == matched.len()
            &&& answer.entries == matched.subrange(from, to)
            &&& answer.next_page is Some <==> (page + 1) * size < answer.total
            &&& answer.next_page matches Some(p) ==> p == page + 1
        }),
        collected(wanted, 0, size, outcomes) == tally_of(wanted, outcomes).matched,
{
    assert((page + 1) * size == page * size + size) by (nonlinear_arith);
    law_every_album_is_counted(wanted, outcomes);
    assert(0 * size == 0) by (nonlinear_arith);
    lemma_collected(wanted, 0, size, outcomes);
    let matched = tally_of(wanted, outcomes).matched;
    assert(matched.skip(0) =~= matched);
}

proof fn lemma_collected(
    wanted: Seq<char>,
    page: nat,
    size: nat,
    outcomes: Seq<Option<ReconcileModel>>,
)
    requires
        1 <= size,
        page * size <= tally_of(wanted, outcomes).matched.len(),
    ensures
        collected(wanted, page, size, outcomes) == tally_of(wanted, outcomes).matched.skip(
            (page * size) as int,
        ),
    decreases tally_of(wanted, outcomes).matched.len() - page * size,
{
    let matched = tally_of(wanted, outcomes).matched;
    assert((page + 1) * size == page * size + size) by (nonlinear_arith);
    assert(0 <= page * size) by (nonlinear_arith);
    if (page + 1) * size < matched.len() {
        lemma_collected(wanted, page + 1, size, outcomes);
    }
    assert(collected(wanted, page, size, outcomes) =~= matched.skip((page * size) as int));
}

/// The matches are the canonical identities of the reconciled albums of the wanted
/// type, in the library's order: one more album adds its match behind those before
/// it, or none.
pub proof fn law_matches_follow_the_library(
    wanted: Seq<char>,
    outcomes: Seq<Option<ReconcileModel>>,
    next: Option<ReconcileModel>,
)
    ensures
        tally_of(wanted, outcomes.push(next)).matched == tally_of(wanted, outcomes).matched + (
        match next {
            Some(response) => match match_of(response, wanted) {
                Some(m) => seq![m],
                None => Seq::empty(),
            },
            None => Seq::empty(),
        }),
{
    assert(outcomes.push(next).drop_last() =~= outcomes);
    let before = tally_of(wanted, outcomes).matched;
    assert(before + Seq::<FacetModel>::empty() =~= before);
    if let Some(response) = next {
        if let Some(m) = match_of(response, wanted) {
            assert(before + seq![m] =~= before.push(m));
        }
    }
}

// ---------------------------------------------------------------------
// Wire form
// ---------------------------------------------------------------------

/// An entry on the wire: what is absent is left out.
pub open spec fn facet_json(e: FacetModel) -> JsonModel {
    let head = seq![
        ("artist"@, JsonModel::Text(e.artist)),
        ("album"@, JsonModel::Text(e.album)),
        ("recording_type"@, JsonModel::Text(e.recording_type)),
    ];
    let head = with_member(
        head,
        "first_release_year"@,
        match e.first_release_year {
            Some(y) => Some(number_model(y as nat)),
            None => None,
        },
    );
    JsonModel::Object(with_text(head, "release_mbid"@, e.release_mbid))
}

/// A response on the wire: what is absent is left out.
pub open spec fn browse_json(r: BrowseModel) -> JsonModel {
    let head = seq![
        ("v"@, number_model(1)),
        (
            "status"@,
            JsonModel::Text(
                if r.ok {
                    "ok"@
                } else {
                    "bad_request"@
                },
            ),
        ),
        ("facet"@, JsonModel::Text("recording_type"@)),
    ];
    let head = with_text(head, "recording_type"@, r.recording_type);
    let head = head.push(
        (
            "entries"@,
            JsonModel::Array(Seq::new(r.entries.len(), |i: int| facet_json(r.entries[i]))),
        ),
    ).push(("page"@, number_model(r.page))).push(("page_size"@, number_model(r.page_size))).push(
        ("total"@, number_model(r.total)),
    ).push(("truncated"@, JsonModel::Bool(r.next_page is Some)));
    let head = with_member(
        head,
        "next_page"@,
        match r.next_page {
            Some(p) => Some(number_model(p)),
            None => None,
        },
    );
    let head = head.push(("library_album_count"@, number_model(r.library_album_count))).push(
        ("reconciled_album_count"@, number_model(r.reconciled_album_count)),
    ).push(("reconcile_errors"@, number_model(r.reconcile_errors)));
    JsonModel::Object(with_text(head, "detail"@, r.detail))
}

impl FacetEntry {
    /// On the wire.
    pub fn to_json(&self) -> (r: Json)
        ensures
            r@ == facet_json(self@),
    {
        let mut w = ObjectWriter::new();
        w.put("artist", text(self.artist.as_str()));
        w.put("album", text(self.album.as_str()));
        w.put("recording_type", text(self.recording_type.as_str()));
        assert(w@ =~= seq![
            ("artist"@, JsonModel::Text(self@.artist)),
            ("album"@, JsonModel::Text(self@.album)),
            ("recording_type"@, JsonModel::Text(self@.recording_type)),
        ]);
        let year = match self.first_release_year {
            Some(y) => Some(number(y as u64)),
            None => None,
        };
        w.put_some("first_release_year", year);
        w.put_text_if_some("release_mbid", &self.release_mbid);
        w.finish()
    }
}

impl BrowseByRecordingTypeResponse {
    /// On the wire.
    pub fn to_json(&self) -> (r: Json)
        ensures
            r@ == browse_json(self@),
    {
        let mut w = ObjectWriter::new();
        let status = if self.ok {
            "ok"
        } else {
            "bad_request"
        };
        w.put("v", number(1));
        w.put("status", text(status));
        w.put("facet", text("recording_type"));
        assert(w@ =~= seq![
            ("v"@, number_model(1)),
            ("status"@, JsonModel::Text(status@)),
            ("facet"@, JsonModel::Text("recording_type"@)),
        ]);
        w.put_text_if_some("recording_type", &self.recording_type);
        let mut items: Vec<Json> = Vec::new();
        let n: usize = self.entries.len();
        for i in 0..n
            invariant
                n == self.entries@.len(),
                items@.len() == i,
                forall|k: int| 0 <= k < i ==> (#[trigger] items@[k])@ == facet_json(self.entries@[k]@),
        {
            items.push(self.entries[i].to_json());
        }
        assert(models(items@) =~= Seq::new(
            self@.entries.len(),
            |i: int| facet_json(self@.entries[i]),
        ));
        w.put("entries", array(items));
        w.put("page", number(self.page as u64));
        w.put("page_size", number(self.page_size as u64));
        w.put("total", number(self.total as u64));
        w.put("truncated", Json::Bool(self.next_page.is_some()));
        let next = match self.next_page {
            Some(p) => Some(number(p as u64)),
            None => None,
        };
        w.put_some("next_page", next);
        w.put("library_album_count", number(self.library_album_count as u64));
        w.put("reconciled_album_count", number(self.reconciled_album_count as u64));
        w.put("reconcile_errors", number(self.reconcile_errors as u64));
        w.put_text_if_some("detail", &self.detail);
        w.finish()
    }
}

// ---------------------------------------------------------------------
// Laws of matching and wire form
// ---------------------------------------------------------------------

/// An album matches exactly if it was reconciled to a release of the wanted type,
/// whatever the case of the type, and the match is that release.
pub proof fn law_a_match_is_the_reconciled_release(response: ReconcileModel, wanted: Seq<char>)
    ensures
        match_of(response, wanted) is Some <==> response.status is Success
            && response.canonical is Some && ascii_lower(
            response.canonical->Some_0.recording_type,
        ) == ascii_lower(wanted),
        match_of(response, wanted) matches Some(m) ==> {
            let c = response.canonical->Some_0;
            &&& m.artist == c.artist && m.album == c.album
            &&& m.recording_type == c.recording_type
            &&& m.first_release_year == c.first_release_year
            &&& m.release_mbid == Some(c.release_mbid)
        },
{
}

/// Every album of the wanted type is among the matches.
pub proof fn law_every_album_of_the_type_is_matched(
    wanted: Seq<char>,
    outcomes: Seq<Option<ReconcileModel>>,
    k: int,
)
    requires
        0 <= k < outcomes.len(),
        outcomes[k] is Some,
        outcomes[k]->Some_0.status is Success,
        outcomes[k]->Some_0.canonical is Some,
        ascii_lower(outcomes[k]->Some_0.canonical->Some_0.recording_type) == ascii_lower(wanted),
    ensures
        exists|i: int|
            0 <= i < tally_of(wanted, outcomes).matched.len() && (#[trigger] tally_of(
                wanted,
                outcomes,
            ).matched[i]).album == outcomes[k]->Some_0.canonical->Some_0.album && tally_of(
                wanted,
                outcomes,
            ).matched[i].artist == outcomes[k]->Some_0.canonical->Some_0.artist && tally_of(
                wanted,
                outcomes,
            ).matched[i].release_mbid == Some(outcomes[k]->Some_0.canonical->Some_0.release_mbid),
    decreases outcomes.len(),
{
    let front = outcomes.drop_last();
    let now = tally_of(wanted, outcomes).matched;
    let before = tally_of(wanted, front).matched;
    let c = outcomes[k]->Some_0.canonical->Some_0;
    if k < front.len() {
        assert(front[k] == outcomes[k]);
        law_every_album_of_the_type_is_matched(wanted, front, k);
        let i = choose|i: int|
            0 <= i < before.len() && (#[trigger] before[i]).album == c.album && before[i].artist
                == c.artist && before[i].release_mbid == Some(c.release_mbid);
        assert(now[i] == before[i]);
    } else {
        assert(now[before.len() as int].album == c.album);
    }
}

/// A page holds as many entries as asked for, but at least one and at most two
/// thousand; without a wish it holds the most.
pub proof fn law_page_sizes_are_bounded(asked: Option<usize>)
    ensures
        1 <= page_size_of(asked) <= 2000,
        asked matches Some(n) ==> (1 <= n <= 2000 ==> page_size_of(asked) == n),
        asked is None ==> page_size_of(asked) == 2000,
        asked matches Some(n) ==> (n > 2000 ==> page_size_of(asked) == 2000),
{
}

/// The payload names the artist as the artist and the album as the album.
pub proof fn law_payloads_name_artist_and_album(artist: Seq<char>, album: Seq<char>)
    ensures
        has_prefix(payload_of(artist, album), "{\"v\":1,\"artist\":"@ + json_literal(artist)),
        payload_of(artist, album).skip(
            ("{\"v\":1,\"artist\":"@ + json_literal(artist)).len() as int,
        ) == ",\"album\":"@ + json_literal(album) + "}"@,
{
    let head = "{\"v\":1,\"artist\":"@ + json_literal(artist);
    let whole = payload_of(artist, album);
    assert(whole.subrange(0, head.len() as int) =~= head);
    assert(whole.skip(head.len() as int) =~= ",\"album\":"@ + json_literal(album) + "}"@);
}

/// On the wire an entry tells each of its parts under its own name.
pub proof fn law_entries_are_written_whole(e: FacetModel)
    ensures
        ({
            let j = facet_json(e);
            &&& member(j, "artist"@) == Some(JsonModel::Text(e.artist))
            &&& member(j, "album"@) == Some(JsonModel::Text(e.album))
            &&& member(j, "recording_type"@) == Some(JsonModel::Text(e.recording_type))
            &&& member(j, "first_release_year"@) == (match e.first_release_year {
                Some(y) => Some(JsonModel::Number(decimal_of(y as nat))),
                None => None,
            })
            &&& member(j, "release_mbid"@) == written(e.release_mbid)
        }),
{
    broadcast use lemma_last_member_push;

    lemma_key_tags();
    let head = seq![
        ("artist"@, JsonModel::Text(e.artist)),
        ("album"@, JsonModel::Text(e.album)),
        ("recording_type"@, JsonModel::Text(e.recording_type)),
    ];
    assert(head =~= Seq::empty().push(head[0]).push(head[1]).push(head[2]));
}

/// On the wire an answer tells its page, its counts and its entries, each under its
/// own name and the entries in order; it says that it is cut short exactly if there
/// is a next page.
#[verifier::rlimit(60)]
pub proof fn law_browse_answers_are_written_whole(r: BrowseModel)
    ensures
        ({
            let j = browse_json(r);
            &&& member(j, "status"@) == Some(
                JsonModel::Text(
                    if r.ok {
                        "ok"@
                    } else {
                        "bad_request"@
                    },
                ),
            )
            &&& member(j, "recording_type"@) == written(r.recording_type)
            &&& member(j, "entries"@) matches Some(JsonModel::Array(all)) && all.len()
                == r.entries.len() && forall|i: int|
                0 <= i < all.len() ==> #[trigger] all[i] == facet_json(r.entries[i])
            &&& member(j, "page"@) == Some(JsonModel::Number(decimal_of(r.page)))
            &&& member(j, "page_size"@) == Some(JsonModel::Number(decimal_of(r.page_size)))
            &&& member(j, "total"@) == Some(JsonModel::Number(decimal_of(r.total)))
            &&& member(j, "truncated"@) == Some(JsonModel::Bool(r.next_page is Some))
            &&& member(j, "next_page"@) == (match r.next_page {
                Some(p) => Some(JsonModel::Number(decimal_of(p))),
                None => None,
            })
            &&& member(j, "library_album_count"@) == Some(JsonModel::Number(decimal_of(r.library_album_count)))
            &&& member(j, "reconciled_album_count"@) == Some(JsonModel::Number(decimal_of(r.reconciled_album_count)))
            &&& member(j, "reconcile_errors"@) == Some(JsonModel::Number(decimal_of(r.reconcile_errors)))
            &&& member(j, "detail"@) == written(r.detail)
        }),
{
    broadcast use lemma_last_member_push;

    lemma_key_tags();
    let head = seq![
        ("v"@, number_model(1)),
        (
            "status"@,
            JsonModel::Text(
                if r.ok {
                    "ok"@
                } else {
                    "bad_request"@
                },
            ),
        ),
        ("facet"@, JsonModel::Text("recording_type"@)),
    ];
    assert(head =~= Seq::empty().push(head[0]).push(head[1]).push(head[2]));
}

/// A string is written character by character: quotes and backslashes are escaped by
/// a backslash, control characters by a name or by their code, and every other
/// character stands for itself.
pub proof fn law_strings_are_escaped_by_character(a: Seq<char>, b: Seq<char>, c: char)
    ensures
        json_chars(a + b) == json_chars(a) + json_chars(b),
        json_chars(Seq::empty()) == Seq::<char>::empty(),
        c == '"' || c == '\\' ==> json_char(c) == seq!['\\', c],
        c as nat >= 32 && c != '"' && c != '\\' ==> json_char(c) == seq![c],
        (c as nat) < 32 ==> json_char(c).len() >= 2 && json_char(c)[0] == '\\',
        c == '\n' ==> json_char(c)[1] == 'n',
        c == '\t' ==> json_char(c)[1] == 't',
        c == '\r' ==> json_char(c)[1] == 'r',
        (c as nat) < 32 && json_char(c)[1] == 'u' ==> json_char(c).len() == 6 && json_char(c)[4]
            == hex_digit(c as nat / 16) && json_char(c)[5] == hex_digit(c as nat % 16),
    decreases b.len(),
{
    if b.len() == 0 {
        assert(a + b =~= a);
        assert(json_chars(b) =~= Seq::<char>::empty());
        assert(json_chars(a) + json_chars(b) =~= json_chars(a));
    } else {
        law_strings_are_escaped_by_character(a, b.drop_last(), c);
        assert((a + b).drop_last() =~= a + b.drop_last());
        assert((a + b).last() == b.last());
        assert(json_chars(a + b) =~= json_chars(a) + json_chars(b));
    }
}

/// The library is gone through exactly if the request, in the one version there is,
/// names a recording type; the page is the one asked for, else the first.
pub proof fn law_who_may_browse(q: BrowseByRecordingTypeRequest, r: BrowseStart)
    requires
        browse_starts(Decoded::Request(q), r),
    ensures
        r is Pending <==> q.v == 1
            && (q.recording_type is Some && trim_of(q.recording_type->Some_0@).len() > 0),
        r is Pending || r is Answer,
        r matches BrowseStart::Pending(b) ==> b.want_type@ == trim_of(q.recording_type->Some_0@) && (
        q.page matches Some(p) ==> b.page == p) && (q.page is None ==> b.page == 0) && b.page_size
            == page_size_of(q.page_size),
        r is Answer ==> !r->Answer_0@.ok && r->Answer_0@.entries.len() == 0
            && r->Answer_0@.detail is Some,
{
}

} // verus!
