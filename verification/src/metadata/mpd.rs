//! Enumerating a music daemon's library by its line protocol.

use crate::text::{
    chars_of, debug_quoted, debug_text, has_prefix, is_text, joined, opt_str_view, push_owned, replace,
    replace_of, starts_with, strip_prefix, text_of, trim, trim_of, views, without_prefix,
};
use vstd::prelude::*;
use vstd::slice::slice_subrange;

verus! {

/// Where the daemon listens.
pub const DEFAULT_MPD_ADDR: &'static str = "127.0.0.1:6600";

// ---------------------------------------------------------------------
// Lines
// ---------------------------------------------------------------------

/// A line without its line end.
pub open spec fn chomped(s: Seq<char>) -> Seq<char>
    decreases s.len(),
{
    if s.len() > 0 && (s.last() == '\r' || s.last() == '\n') {
        chomped(s.drop_last())
    } else {
        s
    }
}

fn chomp(s: &[char]) -> (r: &[char])
    ensures
        r@ == chomped(s@),
{
    let mut n: usize = s.len();
    assert(s@.take(n as int) =~= s@);
    while n > 0 && (s[n - 1] == '\r' || s[n - 1] == '\n')
        invariant
            n <= s@.len(),
            chomped(s@) == chomped(s@.take(n as int)),
        ensures
            n <= s@.len(),
            chomped(s@) == s@.take(n as int),
        decreases n,
    {
        assert(s@.take(n as int).last() == s@[n - 1]);
        assert(s@.take(n as int).drop_last() =~= s@.take(n - 1));
        n = n - 1;
    }
    let r = slice_subrange(s, 0, n);
    assert(r@ =~= s@.take(n as int));
    r
}

/// The value of a `key: value` line, where the line has this key.
pub fn parse_field(line: &str, key: &str) -> (r: Option<String>)
    ensures
        match r {
            Some(v) => without_prefix(line@, key@ + ": "@) == Some(v@),
            None => without_prefix(line@, key@ + ": "@) is None,
        },
{
    let prefix = joined(key, ": ");
    match strip_prefix(chars_of(line).as_slice(), prefix.as_str()) {
        Some(rest) => Some(text_of(rest)),
        None => None,
    }
}

/// Whether the daemon has greeted.
pub fn accept_welcome(welcome: &str) -> (r: Result<(), String>)
    ensures
        r is Ok <==> has_prefix(welcome@, "OK MPD"@),
        r matches Err(e) ==> e@ == "unexpected MPD welcome: "@ + debug_quoted(welcome@),
{
    if starts_with(chars_of(welcome).as_slice(), "OK MPD") {
        Ok(())
    } else {
        Err(joined("unexpected MPD welcome: ", debug_text(welcome).as_str()))
    }
}

/// What a line means to a response in progress.
#[derive(Debug, PartialEq, Eq)]
pub enum ResponseState {
    /// More lines are to come.
    Open,
    /// The response is complete.
    Complete,
    /// The response failed.
    Failed(String),
}

/// A response in progress.
pub struct MpdResponse {
    /// The lines so far, without line ends.
    pub lines: Vec<String>,
}

impl MpdResponse {
    /// A response of which nothing has been read.
    pub fn new() -> (r: MpdResponse)
        ensures
            views(r.lines@) == Seq::<Seq<char>>::empty(),
    {
        let r = MpdResponse { lines: Vec::new() };
        assert(views(r.lines@) =~= Seq::<Seq<char>>::empty());
        r
    }

    /// Takes in a read line; none at the end of the stream. `OK` completes a
    /// response, `ACK` fails it, any other line belongs to it.
    pub fn take(&mut self, read: Option<&str>) -> (r: ResponseState)
        ensures
            match opt_str_view(read) {
                None => {
                    &&& r matches ResponseState::Failed(e)
                    &&& e@ == "MPD closed connection mid-response"@
                    &&& final(self).lines == old(self).lines
                },
                Some(text) => {
                    let line = chomped(text);
                    if line == "OK"@ {
                        r is Complete && final(self).lines == old(self).lines
                    } else if has_prefix(line, "ACK"@) {
                        &&& r matches ResponseState::Failed(e)
                        &&& e@ == "MPD error: "@ + line
                        &&& final(self).lines == old(self).lines
                    } else {
                        r is Open && views(final(self).lines@) == views(old(self).lines@).push(line)
                    }
                },
            },
    {
        let text = match read {
            Some(t) => chars_of(t),
            None => {
                return ResponseState::Failed("MPD closed connection mid-response".to_owned());
            },
        };
        let line = chomp(text.as_slice());
        if is_text(line, "OK") {
            return ResponseState::Complete;
        }
        if starts_with(line, "ACK") {
            return ResponseState::Failed(joined("MPD error: ", text_of(line).as_str()));
        }
        push_owned(&mut self.lines, text_of(line));
        ResponseState::Open
    }
}

// ---------------------------------------------------------------------
// Commands
// ---------------------------------------------------------------------

/// A name as it stands within quotes: backslashes and quotes escaped.
pub open spec fn escaped(name: Seq<char>) -> Seq<char> {
    replace_of(replace_of(name, "\\"@, "\\\\"@), "\""@, "\\\""@)
}

/// The command that lists the values of a tag.
pub fn list_tag_command(tag: &str) -> (r: String)
    ensures
        r@ == "list \""@ + tag@ + "\"\n"@,
{
    let mut r = joined("list \"", tag);
    r.append("\"\n");
    r
}

/// The command that lists an artist's albums.
pub fn list_album_command(artist: &str) -> (r: String)
    ensures
        r@ == "list \"album\" \"albumartist\" \""@ + escaped(artist@) + "\"\n"@,
{
    proof {
        reveal_strlit("\\");
        reveal_strlit("\"");
    }
    let once = replace(chars_of(artist).as_slice(), "\\", "\\\\");
    let twice = replace(once.as_slice(), "\"", "\\\"");
    let mut r = joined("list \"album\" \"albumartist\" \"", text_of(twice.as_slice()).as_str());
    r.append("\"\n");
    r
}

// ---------------------------------------------------------------------
// Ordered pairs
// ---------------------------------------------------------------------

/// Whether a text precedes another, character by character.
pub open spec fn precedes(a: Seq<char>, b: Seq<char>) -> bool
    decreases a.len(),
{
    if b.len() == 0 {
        false
    } else if a.len() == 0 {
        true
    } else if a[0] != b[0] {
        a[0] < b[0]
    } else {
        precedes(a.drop_first(), b.drop_first())
    }
}

/// An artist and an album.
pub type PairModel = (Seq<char>, Seq<char>);

/// Whether a pair precedes another: by artist, then by album.
pub open spec fn pair_precedes(p: PairModel, q: PairModel) -> bool {
    precedes(p.0, q.0) || (p.0 == q.0 && precedes(p.1, q.1))
}

/// Whether pairs stand in order, none of them twice.
pub open spec fn is_ordered(pairs: Seq<PairModel>) -> bool {
    forall|i: int, j: int|
        0 <= i < j < pairs.len() ==> pair_precedes(#[trigger] pairs[i], #[trigger] pairs[j])
}

proof fn lemma_irreflexive(a: Seq<char>)
    ensures
        !precedes(a, a),
    decreases a.len(),
{
    if a.len() > 0 {
        lemma_irreflexive(a.drop_first());
    }
}

proof fn lemma_transitive(a: Seq<char>, b: Seq<char>, c: Seq<char>)
    requires
        precedes(a, b),
        precedes(b, c),
    ensures
        precedes(a, c),
    decreases a.len(),
{
    if a.len() > 0 && a[0] == b[0] && b[0] == c[0] {
        lemma_transitive(a.drop_first(), b.drop_first(), c.drop_first());
    }
}

proof fn lemma_pair_transitive(p: PairModel, q: PairModel, r: PairModel)
    requires
        pair_precedes(p, q),
        pair_precedes(q, r),
    ensures
        pair_precedes(p, r),
{
    if precedes(p.0, q.0) && precedes(q.0, r.0) {
        lemma_transitive(p.0, q.0, r.0);
    }
    if p.0 == q.0 && q.0 == r.0 {
        lemma_irreflexive(p.0);
        lemma_transitive(p.1, q.1, r.1);
    }
}

/// How two texts stand.
#[derive(Debug, Clone, Copy, PartialEq, Eq, Structural)]
enum Standing {
    Before,
    Same,
    After,
}

fn standing(a: &[char], b: &[char]) -> (r: Standing)
    ensures
        r is Before <==> precedes(a@, b@),
        r is Same <==> a@ == b@,
        r is After <==> precedes(b@, a@),
{
    let mut i: usize = 0;
    proof {
        lemma_irreflexive(a@);
        assert(a@.skip(0) =~= a@);
        assert(b@.skip(0) =~= b@);
    }
    while i < a.len() && i < b.len()
        invariant
            i <= a@.len(),
            i <= b@.len(),
            a@.take(i as int) == b@.take(i as int),
            precedes(a@, b@) == precedes(a@.skip(i as int), b@.skip(i as int)),
            precedes(b@, a@) == precedes(b@.skip(i as int), a@.skip(i as int)),
        decreases a@.len() - i,
    {
        let ghost ra = a@.skip(i as int);
        let ghost rb = b@.skip(i as int);
        assert(ra[0] == a@[i as int] && rb[0] == b@[i as int]);
        if a[i] != b[i] {
            assert(a@ != b@);
            if a[i] < b[i] {
                return Standing::Before;
            }
            return Standing::After;
        }
        assert(ra.drop_first() =~= a@.skip(i + 1));
        assert(rb.drop_first() =~= b@.skip(i + 1));
        assert(a@.take(i + 1) =~= a@.take(i as int).push(a@[i as int]));
        assert(b@.take(i + 1) =~= b@.take(i as int).push(b@[i as int]));
        i = i + 1;
    }
    if i < b.len() {
        assert(a@.len() < b@.len());
        Standing::Before
    } else if i < a.len() {
        Standing::After
    } else {
        assert(a@.take(i as int) =~= a@);
        assert(b@.take(i as int) =~= b@);
        Standing::Same
    }
}

/// An artist and one of the artist's albums.
pub struct AlbumPair {
    pub artist: Vec<char>,
    pub album: Vec<char>,
}

/// What pairs say, in order.
pub open spec fn pair_views(v: Seq<AlbumPair>) -> Seq<PairModel> {
    Seq::new(v.len(), |i: int| (v[i].artist@, v[i].album@))
}

fn pair_standing(p: &AlbumPair, q: &AlbumPair) -> (r: Standing)
    ensures
        r is Before <==> pair_precedes((p.artist@, p.album@), (q.artist@, q.album@)),
        r is Same <==> (p.artist@ == q.artist@ && p.album@ == q.album@),
        r is After <==> pair_precedes((q.artist@, q.album@), (p.artist@, p.album@)),
{
    proof {
        lemma_irreflexive(p.artist@);
    }
    match standing(p.artist.as_slice(), q.artist.as_slice()) {
        Standing::Same => standing(p.album.as_slice(), q.album.as_slice()),
        other => other,
    }
}

/// Puts a pair into its place, unless it is there.
fn insert_pair(pairs: &mut Vec<AlbumPair>, pair: AlbumPair)
    requires
        is_ordered(pair_views(old(pairs)@)),
    ensures
        is_ordered(pair_views(final(pairs)@)),
        pair_views(final(pairs)@).to_set() == pair_views(old(pairs)@).to_set().insert(
            (pair.artist@, pair.album@),
        ),
{
    let ghost before = pair_views(pairs@);
    let ghost new = (pair.artist@, pair.album@);
    let mut lo: usize = 0;
    let mut hi: usize = pairs.len();
    while lo < hi
        invariant
            lo <= hi <= pairs@.len(),
            before == pair_views(pairs@),
            *pairs == *old(pairs),
            new == (pair.artist@, pair.album@),
            is_ordered(before),
            forall|k: int| 0 <= k < lo ==> pair_precedes(#[trigger] before[k], new),
            forall|k: int| hi <= k < before.len() ==> pair_precedes(new, #[trigger] before[k]),
        decreases hi - lo,
    {
        let mid: usize = lo + (hi - lo) / 2;
        assert(before[mid as int] == (pairs@[mid as int].artist@, pairs@[mid as int].album@));
        match pair_standing(&pairs[mid], &pair) {
            Standing::Same => {
                proof {
                    assert(before.contains(new));
                    assert(before.to_set().insert(new) =~= before.to_set());
                }
                return ;
            },
            Standing::Before => {
                proof {
                    assert forall|k: int| 0 <= k < mid + 1 implies pair_precedes(
                        #[trigger] before[k],
                        new,
                    ) by {
                        if k < mid {
                            lemma_pair_transitive(before[k], before[mid as int], new);
                        }
                    }
                }
                lo = mid + 1;
            },
            Standing::After => {
                proof {
                    assert forall|k: int| mid <= k < before.len() implies pair_precedes(
                        new,
                        #[trigger] before[k],
                    ) by {
                        if k > mid {
                            lemma_pair_transitive(new, before[mid as int], before[k]);
                        }
                    }
                }
                hi = mid;
            },
        }
    }
    pairs.insert(lo, pair);
    proof {
        let after = pair_views(pairs@);
        assert(after =~= before.insert(lo as int, new));
        assert forall|i: int, j: int| 0 <= i < j < after.len() implies pair_precedes(
            #[trigger] after[i],
            #[trigger] after[j],
        ) by {
            if j < lo {
                assert(after[i] == before[i] && after[j] == before[j]);
            } else if j == lo {
                assert(after[i] == before[i]);
            } else if i == lo {
                assert(after[j] == before[j - 1]);
            } else if i < lo {
                assert(after[i] == before[i] && after[j] == before[j - 1]);
            } else {
                assert(after[i] == before[i - 1] && after[j] == before[j - 1]);
            }
        }
        assert forall|p: PairModel| after.to_set().contains(p) == before.to_set().insert(
            new,
        ).contains(p) by {
            if after.contains(p) {
                let i = choose|i: int| 0 <= i < after.len() && after[i] == p;
                if i < lo {
                    assert(before[i] == p);
                } else if i > lo {
                    assert(before[i - 1] == p);
                }
            }
            if before.contains(p) {
                let i = choose|i: int| 0 <= i < before.len() && before[i] == p;
                if i < lo {
                    assert(after[i] == p);
                } else {
                    assert(after[i + 1] == p);
                }
            }
            if p == new {
                assert(after[lo as int] == p);
            }
        }
        assert(after.to_set() =~= before.to_set().insert(new));
    }
}

// ---------------------------------------------------------------------
// Enumeration
// ---------------------------------------------------------------------

/// The values of a tag in a response, the empty ones left out.
pub open spec fn tag_values(lines: Seq<Seq<char>>, key: Seq<char>) -> Seq<Seq<char>>
    decreases lines.len(),
{
    if lines.len() == 0 {
        Seq::empty()
    } else {
        let rest = tag_values(lines.drop_last(), key);
        match without_prefix(lines.last(), key + ": "@) {
            Some(v) => if v.len() > 0 {
                rest.push(v)
            } else {
                rest
            },
            None => rest,
        }
    }
}

/// The pairs that a response to an artist's album listing names: trimmed titles,
/// the blank ones left out.
pub open spec fn listed_pairs(artist: Seq<char>, lines: Seq<Seq<char>>) -> Set<PairModel>
    decreases lines.len(),
{
    if lines.len() == 0 {
        Set::empty()
    } else {
        let rest = listed_pairs(artist, lines.drop_last());
        match without_prefix(lines.last(), "Album: "@) {
            Some(v) => if trim_of(v).len() > 0 {
                rest.insert((artist, trim_of(v)))
            } else {
                rest
            },
            None => rest,
        }
    }
}

/// A traversal of the library: the album artists, and the albums found so far.
pub struct AlbumEnumeration {
    pub artists: Vec<String>,
    /// How many artists have been listed.
    pub listed: usize,
    pub pairs: Vec<AlbumPair>,
}

impl AlbumEnumeration {
    /// What every step keeps.
    pub open spec fn well_formed(&self) -> bool {
        self.listed <= self.artists@.len() && is_ordered(pair_views(self.pairs@))
    }

    /// Whether every artist has been listed.
    pub open spec fn is_complete(&self) -> bool {
        self.listed == self.artists@.len()
    }

    /// Starts from the response to the album-artist listing.
    pub fn begin(lines: &Vec<String>) -> (r: AlbumEnumeration)
        ensures
            r.well_formed(),
            views(r.artists@) == tag_values(views(lines@), "AlbumArtist"@),
            r.listed == 0,
            pair_views(r.pairs@) == Seq::<PairModel>::empty(),
    {
        let mut artists: Vec<String> = Vec::new();
        let n: usize = lines.len();
        assert(views(artists@) =~= Seq::<Seq<char>>::empty());
        for i in 0..n
            invariant
                n == lines@.len(),
                views(artists@) == tag_values(views(lines@).take(i as int), "AlbumArtist"@),
        {
            let ghost upto = views(lines@).take(i + 1);
            assert(upto.drop_last() =~= views(lines@).take(i as int));
            assert(upto.last() == lines@[i as int]@);
            proof {
                reveal_strlit("AlbumArtist");
            }
            if let Some(v) = parse_field(lines[i].as_str(), "AlbumArtist") {
                if chars_of(v.as_str()).len() > 0 {
                    push_owned(&mut artists, v);
                }
            }
        }
        assert(views(lines@).take(n as int) =~= views(lines@));
        let r = AlbumEnumeration { artists, listed: 0, pairs: Vec::new() };
        assert(pair_views(r.pairs@) =~= Seq::<PairModel>::empty());
        r
    }

    /// The next command to send; none when every artist has been listed.
    pub fn next_command(&self) -> (r: Option<String>)
        requires
            self.well_formed(),
        ensures
            match r {
                Some(c) => !self.is_complete() && c@ == "list \"album\" \"albumartist\" \""@
                    + escaped(self.artists@[self.listed as int]@) + "\"\n"@,
                None => self.is_complete(),
            },
    {
        if self.listed < self.artists.len() {
            Some(list_album_command(self.artists[self.listed].as_str()))
        } else {
            None
        }
    }

    /// Takes in the response to the command.
    pub fn take(&mut self, lines: &Vec<String>)
        requires
            old(self).well_formed(),
            !old(self).is_complete(),
        ensures
            final(self).well_formed(),
            final(self).artists == old(self).artists,
            final(self).listed == old(self).listed + 1,
            pair_views(final(self).pairs@).to_set() == pair_views(old(self).pairs@).to_set().union(
                listed_pairs(old(self).artists@[old(self).listed as int]@, views(lines@)),
            ),
    {
        let artist = chars_of(self.artists[self.listed].as_str());
        let ghost before = pair_views(self.pairs@).to_set();
        let n: usize = lines.len();
        assert(before.union(Set::<PairModel>::empty()) =~= before);
        for i in 0..n
            invariant
                n == lines@.len(),
                self.artists == old(self).artists,
                self.listed == old(self).listed,
                self.listed < self.artists@.len(),
                is_ordered(pair_views(self.pairs@)),
                pair_views(self.pairs@).to_set() == before.union(
                    listed_pairs(artist@, views(lines@).take(i as int)),
                ),
        {
            let ghost upto = views(lines@).take(i + 1);
            assert(upto.drop_last() =~= views(lines@).take(i as int));
            assert(upto.last() == lines@[i as int]@);
            assert("Album"@ + ": "@ =~= "Album: "@) by {
                reveal_strlit("Album");
                reveal_strlit(": ");
                reveal_strlit("Album: ");
            }
            if let Some(v) = parse_field(lines[i].as_str(), "Album") {
                let whole = chars_of(v.as_str());
                let title = trim(whole.as_slice());
                if title.len() > 0 {
                    let pair = AlbumPair {
                        artist: crate::text::copy_chars(artist.as_slice()),
                        album: crate::text::copy_chars(title),
                    };
                    let ghost rest = listed_pairs(artist@, upto.drop_last());
                    assert(before.union(rest).insert((artist@, title@)) =~= before.union(
                        rest.insert((artist@, title@)),
                    ));
                    insert_pair(&mut self.pairs, pair);
                }
            }
        }
        assert(views(lines@).take(n as int) =~= views(lines@));
        assert(self.listed < self.artists.len());
        self.listed = self.listed + 1;
    }

    /// The pairs found, in order, none of them twice.
    pub fn finish(self) -> (r: Vec<(String, String)>)
        requires
            self.well_formed(),
        ensures
            r@.len() == self.pairs@.len(),
            forall|i: int|
                0 <= i < r@.len() ==> ((#[trigger] r@[i]).0@, r@[i].1@) == pair_views(
                    self.pairs@,
                )[i],
    {
        let mut r: Vec<(String, String)> = Vec::new();
        let n: usize = self.pairs.len();
        for i in 0..n
            invariant
                n == self.pairs@.len(),
                r@.len() == i,
                forall|k: int|
                    0 <= k < i ==> ((#[trigger] r@[k]).0@, r@[k].1@) == pair_views(self.pairs@)[k],
        {
            r.push(
                (
                    text_of(self.pairs[i].artist.as_slice()),
                    text_of(self.pairs[i].album.as_slice()),
                ),
            );
        }
        r
    }
}

/// Two orderly lists of the same pairs are the same list.
pub proof fn law_the_order_is_unique(a: Seq<PairModel>, b: Seq<PairModel>)
    requires
        is_ordered(a),
        is_ordered(b),
        a.to_set() == b.to_set(),
    ensures
        a == b,
    decreases a.len(),
{
    if a.len() == 0 {
        if b.len() > 0 {
            assert(b.contains(b[0]));
            assert(a.to_set().contains(b[0]));
        }
        assert(a =~= b);
    } else {
        assert(a.contains(a[0]));
        assert(b.to_set().contains(a[0]));
        let i = choose|i: int| 0 <= i < b.len() && b[i] == a[0];
        assert(b.contains(b[0]));
        assert(a.to_set().contains(b[0]));
        let j = choose|j: int| 0 <= j < a.len() && a[j] == b[0];
        if i > 0 {
            assert(pair_precedes(b[0], b[i]));
            if j > 0 {
                assert(pair_precedes(a[0], a[j]));
                lemma_pair_transitive(a[0], a[j], a[0]);
            }
            lemma_irreflexive(a[0].0);
            lemma_irreflexive(a[0].1);
        }
        assert(a[0] == b[0]);
        let ra = a.drop_first();
        let rb = b.drop_first();
        assert(is_ordered(ra));
        assert(is_ordered(rb));
        assert forall|p: PairModel| ra.to_set().contains(p) == rb.to_set().contains(p) by {
            lemma_rest_of_ordered(a, p);
            lemma_rest_of_ordered(b, p);
            assert(a.to_set().contains(p) == a.contains(p));
            assert(b.to_set().contains(p) == b.contains(p));
            assert(ra.to_set().contains(p) == ra.contains(p));
            assert(rb.to_set().contains(p) == rb.contains(p));
        }
        assert(ra.to_set() =~= rb.to_set());
        law_the_order_is_unique(ra, rb);
        assert(a =~= seq![a[0]] + ra);
        assert(b =~= seq![b[0]] + rb);
    }
}

proof fn lemma_rest_of_ordered(a: Seq<PairModel>, p: PairModel)
    requires
        is_ordered(a),
        a.len() > 0,
    ensures
        a.drop_first().contains(p) <==> (a.contains(p) && p != a[0]),
{
    let ra = a.drop_first();
    if ra.contains(p) {
        let i = choose|i: int| 0 <= i < ra.len() && ra[i] == p;
        assert(a[i + 1] == p);
        assert(pair_precedes(a[0], a[i + 1]));
        lemma_irreflexive(p.0);
        lemma_irreflexive(p.1);
    }
    if a.contains(p) && p != a[0] {
        let i = choose|i: int| 0 <= i < a.len() && a[i] == p;
        assert(ra[i - 1] == p);
    }
}

/// The line end does not belong to a line, of whatever carriage returns and line
/// feeds it is made; everything before it does.
pub proof fn law_lines_are_read_without_their_end(line: Seq<char>, end: Seq<char>)
    requires
        line.len() > 0 ==> line.last() != '\r' && line.last() != '\n',
        forall|i: int| 0 <= i < end.len() ==> #[trigger] end[i] == '\r' || end[i] == '\n',
    ensures
        chomped(line + end) == line,
    decreases end.len(),
{
    if end.len() == 0 {
        assert(line + end =~= line);
    } else {
        let rest = end.drop_last();
        assert(end[end.len() - 1] == '\r' || end[end.len() - 1] == '\n');
        assert forall|i: int| 0 <= i < rest.len() implies #[trigger] rest[i] == '\r' || rest[i]
            == '\n' by {
            assert(rest[i] == end[i]);
        }
        law_lines_are_read_without_their_end(line, rest);
        assert((line + end).drop_last() =~= line + rest);
    }
}

/// The first character that differs decides which text precedes, and a text
/// precedes every longer one that begins with it.
pub proof fn law_the_first_difference_decides(
    common: Seq<char>,
    x: char,
    a: Seq<char>,
    y: char,
    b: Seq<char>,
)
    ensures
        x != y ==> precedes(common + seq![x] + a, common + seq![y] + b) == (x < y),
        precedes(common, common + seq![y] + b),
        !precedes(common + seq![x] + a, common),
    decreases common.len(),
{
    let p = common + seq![x] + a;
    let q = common + seq![y] + b;
    if common.len() == 0 {
        assert(p[0] == x && q[0] == y);
    } else {
        let rest = common.drop_first();
        law_the_first_difference_decides(rest, x, a, y, b);
        assert(p.drop_first() =~= rest + seq![x] + a);
        assert(q.drop_first() =~= rest + seq![y] + b);
        assert(p[0] == common[0] && q[0] == common[0]);
    }
}

/// Pairs are ordered by artist first, and albums of one artist by title.
pub proof fn law_artists_come_before_albums(p: PairModel, q: PairModel)
    ensures
        p.0 != q.0 ==> pair_precedes(p, q) == precedes(p.0, q.0),
        p.0 == q.0 ==> pair_precedes(p, q) == precedes(p.1, q.1),
{
    lemma_irreflexive(p.0);
}

/// Every value of a tag is taken, in the order of the lines, and nothing else: a
/// line of the tag gives the value behind it, unless that is empty.
pub proof fn law_every_tag_value_is_taken(
    lines: Seq<Seq<char>>,
    key: Seq<char>,
    value: Seq<char>,
    other: Seq<char>,
)
    ensures
        value.len() > 0 ==> tag_values(lines.push(key + ": "@ + value), key) == tag_values(
            lines,
            key,
        ).push(value),
        tag_values(lines.push(key + ": "@), key) == tag_values(lines, key),
        !has_prefix(other, key + ": "@) ==> tag_values(lines.push(other), key) == tag_values(
            lines,
            key,
        ),
        tag_values(Seq::empty(), key) == Seq::<Seq<char>>::empty(),
{
    let mark = key + ": "@;
    let line = mark + value;
    assert(key + ": "@ + value =~= line);
    assert(lines.push(line).drop_last() =~= lines);
    assert(line.subrange(0, mark.len() as int) =~= mark);
    assert(line.skip(mark.len() as int) =~= value);
    assert(lines.push(mark).drop_last() =~= lines);
    assert(mark.subrange(0, mark.len() as int) =~= mark);
    assert(mark.skip(mark.len() as int) =~= Seq::<char>::empty());
    assert(lines.push(other).drop_last() =~= lines);
}

/// Every album that the daemon lists for an artist is a pair of that artist and the
/// trimmed title, and nothing else is; a blank title names no album.
pub proof fn law_every_listed_album_is_a_pair(
    artist: Seq<char>,
    lines: Seq<Seq<char>>,
    pair: PairModel,
)
    ensures
        listed_pairs(artist, lines).contains(pair) <==> pair.0 == artist && pair.1.len() > 0
            && exists|i: int|
            0 <= i < lines.len() && has_prefix(#[trigger] lines[i], "Album: "@) && trim_of(
                lines[i].skip("Album: "@.len() as int),
            ) == pair.1,
    decreases lines.len(),
{
    if lines.len() > 0 {
        let front = lines.drop_last();
        law_every_listed_album_is_a_pair(artist, front, pair);
        let n = front.len() as int;
        assert(lines[n] == lines.last());
        let ok = |l: Seq<char>|
            has_prefix(l, "Album: "@) && trim_of(l.skip("Album: "@.len() as int)) == pair.1;
        if exists|i: int| 0 <= i < front.len() && ok(#[trigger] front[i]) {
            let i = choose|i: int| 0 <= i < front.len() && ok(#[trigger] front[i]);
            assert(lines[i] == front[i]);
            assert(has_prefix(lines[i], "Album: "@));
        }
        if exists|i: int| 0 <= i < lines.len() && ok(#[trigger] lines[i]) {
            let i = choose|i: int| 0 <= i < lines.len() && ok(#[trigger] lines[i]);
            if i < n {
                assert(front[i] == lines[i]);
                assert(ok(front[i]));
            }
        }
    }
}

proof fn lemma_replaced_apart(a: Seq<char>, b: Seq<char>, c: char, by: Seq<char>)
    ensures
        replace_of(a + b, seq![c], by) == replace_of(a, seq![c], by) + replace_of(b, seq![c], by),
    decreases a.len(),
{
    let pat = seq![c];
    if a.len() == 0 {
        assert(a + b =~= b);
        assert(replace_of(a, pat, by) + replace_of(b, pat, by) =~= replace_of(b, pat, by));
    } else {
        let rest = a.drop_first();
        lemma_replaced_apart(rest, b, c, by);
        assert((a + b).drop_first() =~= rest + b);
        assert((a + b).skip(1) =~= rest + b);
        assert(a.skip(1) =~= rest);
        assert((a + b)[0] == a[0]);
        assert(has_prefix(a, pat) <==> a[0] == c) by {
            assert(a.subrange(0, 1)[0] == a[0]);
            if a[0] == c {
                assert(a.subrange(0, 1) =~= pat);
            }
        }
        assert(has_prefix(a + b, pat) <==> a[0] == c) by {
            assert((a + b).subrange(0, 1)[0] == a[0]);
            if a[0] == c {
                assert((a + b).subrange(0, 1) =~= pat);
            }
        }
        assert(replace_of(a + b, pat, by) =~= replace_of(a, pat, by) + replace_of(b, pat, by));
    }
}

proof fn lemma_one_replaced(x: char, c: char, by: Seq<char>)
    ensures
        replace_of(seq![x], seq![c], by) == (if x == c {
            by
        } else {
            seq![x]
        }),
{
    let s = seq![x];
    assert(s.subrange(0, 1) =~= s);
    assert(s.skip(1) =~= Seq::<char>::empty());
    assert(s.drop_first() =~= Seq::<char>::empty());
    assert(s[0] == x);
    assert(seq![c][0] == c);
    reveal_with_fuel(replace_of, 2);
    assert(by + Seq::<char>::empty() =~= by);
    assert(seq![x] + Seq::<char>::empty() =~= seq![x]);
}

/// A name is escaped character by character: a quote or a backslash gets a
/// backslash before it, and every other character stands for itself.
pub proof fn law_names_are_escaped_by_character(a: Seq<char>, b: Seq<char>, c: char)
    ensures
        escaped(a + b) == escaped(a) + escaped(b),
        escaped(Seq::empty()) == Seq::<char>::empty(),
        c == '"' || c == '\\' ==> escaped(seq![c]) == seq!['\\', c],
        c != '"' && c != '\\' ==> escaped(seq![c]) == seq![c],
{
    reveal_strlit("\\");
    reveal_strlit("\\\\");
    reveal_strlit("\"");
    reveal_strlit("\\\"");
    let slash = seq!['\\'];
    let quote = seq!['"'];
    assert("\\"@ =~= slash);
    assert("\""@ =~= quote);
    assert("\\\\"@ =~= seq!['\\', '\\']);
    assert("\\\""@ =~= seq!['\\', '"']);
    let two = "\\\\"@;
    let esc = "\\\""@;
    lemma_replaced_apart(a, b, '\\', two);
    lemma_replaced_apart(replace_of(a, slash, two), replace_of(b, slash, two), '"', esc);
    lemma_one_replaced(c, '\\', two);
    lemma_one_replaced(c, '"', esc);
    lemma_one_replaced('\\', '"', esc);
    lemma_replaced_apart(slash, slash, '"', esc);
    assert(slash + slash =~= two);
}

} // verus!
