//! JSON documents as plain values.
//!
//! Response and cache payloads are trees of [`Json`] nodes. [`JsonModel`] is the
//! mathematical value of such a tree; contracts speak of it alone.

use crate::text::{decimal, decimal_of, same_text};
use vstd::prelude::*;

verus! {

/// One JSON value.
#[derive(Debug, PartialEq, Eq)]
pub enum Json {
    Null,
    Bool(bool),
    /// A number, by its literal.
    Number(String),
    Text(String),
    Array(Vec<Json>),
    Object(Vec<Member>),
}

/// One member of a JSON object.
#[derive(Debug, PartialEq, Eq)]
pub struct Member {
    pub key: String,
    pub value: Json,
}

/// What a [`Json`] value denotes.
#[verifier::ext_equal]
pub enum JsonModel {
    Null,
    Bool(bool),
    Number(Seq<char>),
    Text(Seq<char>),
    Array(Seq<JsonModel>),
    Object(Seq<(Seq<char>, JsonModel)>),
}

impl View for Json {
    type V = JsonModel;

    open spec fn view(&self) -> JsonModel {
        json_model(*self)
    }
}

/// The denotation of a JSON tree.
pub open spec fn json_model(j: Json) -> JsonModel
    decreases j,
{
    match j {
        Json::Null => JsonModel::Null,
        Json::Bool(b) => JsonModel::Bool(b),
        Json::Number(n) => JsonModel::Number(n@),
        Json::Text(t) => JsonModel::Text(t@),
        Json::Array(items) => JsonModel::Array(
            Seq::new(
                items@.len(),
                |i: int|
                    if 0 <= i < items@.len() {
                        json_model(items@[i])
                    } else {
                        JsonModel::Null
                    },
            ),
        ),
        Json::Object(members) => JsonModel::Object(
            Seq::new(
                members@.len(),
                |i: int|
                    if 0 <= i < members@.len() {
                        (members@[i].key@, json_model(members@[i].value))
                    } else {
                        (Seq::empty(), JsonModel::Null)
                    },
            ),
        ),
    }
}

impl Json {
    /// A deep copy.
    pub fn copy(&self) -> (r: Json)
        ensures
            r@ == self@,
        decreases self,
    {
        match self {
            Json::Null => Json::Null,
            Json::Bool(b) => Json::Bool(*b),
            Json::Number(n) => Json::Number(n.clone()),
            Json::Text(t) => Json::Text(t.clone()),
            Json::Array(items) => {
                let mut out: Vec<Json> = Vec::new();
                let n: usize = items.len();
                for i in 0..n
                    invariant
                        n == items@.len(),
                        *self == Json::Array(*items),
                        out@.len() == i,
                        forall|k: int| 0 <= k < i ==> out@[k]@ == items@[k]@,
                {
                    assert(decreases_to!(*self => self->Array_0@[i as int]));
                    out.push(items[i].copy());
                }
                let r = Json::Array(out);
                assert(r@->Array_0 =~= self@->Array_0);
                r
            },
            Json::Object(members) => {
                let mut out: Vec<Member> = Vec::new();
                let n: usize = members.len();
                for i in 0..n
                    invariant
                        n == members@.len(),
                        *self == Json::Object(*members),
                        out@.len() == i,
                        forall|k: int|
                            0 <= k < i ==> out@[k].key@ == members@[k].key@ && out@[k].value@
                                == members@[k].value@,
                {
                    assert(decreases_to!(*self => self->Object_0@[i as int].value));
                    out.push(Member { key: members[i].key.clone(), value: members[i].value.copy() });
                }
                let r = Json::Object(out);
                assert(r@->Object_0 =~= self@->Object_0);
                r
            },
        }
    }
}

/// The text of an optional string.
pub open spec fn opt_view(o: Option<String>) -> Option<Seq<char>> {
    match o {
        Some(s) => Some(s@),
        None => None,
    }
}

/// An optional text as a JSON value: `null` when absent.
pub open spec fn opt_text_model(o: Option<Seq<char>>) -> JsonModel {
    match o {
        Some(t) => JsonModel::Text(t),
        None => JsonModel::Null,
    }
}

/// An unsigned integer as a JSON value.
pub open spec fn number_model(n: nat) -> JsonModel {
    JsonModel::Number(decimal_of(n))
}

/// An optional unsigned integer as a JSON value: `null` when absent.
pub open spec fn opt_number_model(n: Option<u64>) -> JsonModel {
    match n {
        Some(v) => number_model(v as nat),
        None => JsonModel::Null,
    }
}

/// A JSON string.
pub fn text(s: &str) -> (r: Json)
    ensures
        r@ == JsonModel::Text(s@),
{
    Json::Text(s.to_owned())
}

/// A JSON string, or `null`.
pub fn opt_text(o: &Option<String>) -> (r: Json)
    ensures
        r@ == opt_text_model(opt_view(*o)),
{
    match o {
        Some(s) => Json::Text(s.clone()),
        None => Json::Null,
    }
}

/// A JSON number.
pub fn number(n: u64) -> (r: Json)
    ensures
        r@ == number_model(n as nat),
{
    Json::Number(decimal(n))
}

/// A JSON number, or `null`.
pub fn opt_number(n: Option<u64>) -> (r: Json)
    ensures
        r@ == opt_number_model(n),
{
    match n {
        Some(v) => number(v),
        None => Json::Null,
    }
}

/// The text under `key` in an object: that of the first member of this name,
/// where its value is a string.
pub open spec fn member_text(j: JsonModel, key: Seq<char>) -> Option<Seq<char>> {
    match j {
        JsonModel::Object(members) => members_text(members, key),
        _ => None,
    }
}

/// [`member_text`] over the member list.
pub open spec fn members_text(members: Seq<(Seq<char>, JsonModel)>, key: Seq<char>) -> Option<
    Seq<char>,
>
    decreases members.len(),
{
    if members.len() == 0 {
        None
    } else if members[0].0 == key {
        match members[0].1 {
            JsonModel::Text(t) => Some(t),
            _ => None,
        }
    } else {
        members_text(members.drop_first(), key)
    }
}

/// The first member of a name decides.
pub proof fn lemma_member_at(members: Seq<(Seq<char>, JsonModel)>, key: Seq<char>, i: int)
    requires
        0 <= i < members.len(),
        members[i].0 == key,
        forall|j: int| 0 <= j < i ==> (#[trigger] members[j]).0 != key,
    ensures
        members_text(members, key) == (match members[i].1 {
            JsonModel::Text(t) => Some(t),
            _ => None,
        }),
    decreases i,
{
    if i > 0 {
        let rest = members.drop_first();
        assert(members[0].0 != key);
        assert forall|j: int| 0 <= j < i - 1 implies (#[trigger] rest[j]).0 != key by {
            assert(rest[j] == members[j + 1]);
        }
        lemma_member_at(rest, key, i - 1);
    }
}

/// No member of a name, no text.
pub proof fn lemma_member_absent(members: Seq<(Seq<char>, JsonModel)>, key: Seq<char>)
    requires
        forall|j: int| 0 <= j < members.len() ==> (#[trigger] members[j]).0 != key,
    ensures
        members_text(members, key) is None,
    decreases members.len(),
{
    if members.len() > 0 {
        let rest = members.drop_first();
        assert(members[0].0 != key);
        assert forall|j: int| 0 <= j < rest.len() implies (#[trigger] rest[j]).0 != key by {
            assert(rest[j] == members[j + 1]);
        }
        lemma_member_absent(rest, key);
    }
}

impl Json {
    /// Reads the text under `key`.
    pub fn get_text(&self, key: &str) -> (r: Option<String>)
        ensures
            opt_view(r) == member_text(self@, key@),
    {
        match self {
            Json::Object(members) => {
                let ghost all = self@->Object_0;
                let n: usize = members.len();
                assert(all.skip(0) =~= all);
                for i in 0..n
                    invariant
                        n == members@.len(),
                        *self == Json::Object(*members),
                        all == self@->Object_0,
                        members_text(all, key@) == members_text(all.skip(i as int), key@),
                {
                    assert(all[i as int] == (members@[i as int].key@, members@[i as int].value@));
                    assert(all.skip(i as int).drop_first() =~= all.skip(i + 1));
                    if same_text(members[i].key.as_str(), key) {
                        return match &members[i].value {
                            Json::Text(t) => Some(t.clone()),
                            _ => None,
                        };
                    }
                }
                None
            },
            _ => None,
        }
    }
}

/// Members with one more at the end, where it has a value.
pub open spec fn with_member(
    members: Seq<(Seq<char>, JsonModel)>,
    key: Seq<char>,
    value: Option<JsonModel>,
) -> Seq<(Seq<char>, JsonModel)> {
    match value {
        Some(j) => members.push((key, j)),
        None => members,
    }
}

/// Members with one more text at the end, where there is one.
pub open spec fn with_text(
    members: Seq<(Seq<char>, JsonModel)>,
    key: Seq<char>,
    value: Option<Seq<char>>,
) -> Seq<(Seq<char>, JsonModel)> {
    match value {
        Some(t) => members.push((key, JsonModel::Text(t))),
        None => members,
    }
}

/// An object under construction.
pub struct ObjectWriter {
    members: Vec<Member>,
}

impl View for ObjectWriter {
    type V = Seq<(Seq<char>, JsonModel)>;

    closed spec fn view(&self) -> Seq<(Seq<char>, JsonModel)> {
        Seq::new(self.members@.len(), |i: int| (self.members@[i].key@, self.members@[i].value@))
    }
}

impl ObjectWriter {
    /// No members yet.
    pub fn new() -> (r: ObjectWriter)
        ensures
            r@ == Seq::<(Seq<char>, JsonModel)>::empty(),
    {
        let r = ObjectWriter { members: Vec::new() };
        assert(r@ =~= Seq::<(Seq<char>, JsonModel)>::empty());
        r
    }

    /// Appends a member.
    pub fn put(&mut self, key: &str, value: Json)
        ensures
            final(self)@ == old(self)@.push((key@, value@)),
    {
        self.members.push(Member { key: key.to_owned(), value });
        assert(self@ =~= old(self)@.push((key@, value@)));
    }

    /// Appends a member, unless there is no value.
    pub fn put_some(&mut self, key: &str, value: Option<Json>)
        ensures
            final(self)@ == with_member(
                old(self)@,
                key@,
                match value {
                    Some(j) => Some(j@),
                    None => None,
                },
            ),
    {
        if let Some(j) = value {
            self.put(key, j);
        }
    }

    /// Appends a text member, unless there is no text.
    pub fn put_text_if_some(&mut self, key: &str, value: &Option<String>)
        ensures
            final(self)@ == with_text(old(self)@, key@, opt_view(*value)),
    {
        if let Some(t) = value {
            self.put(key, text(t.as_str()));
        }
    }

    /// The finished object.
    pub fn finish(self) -> (r: Json)
        ensures
            r@ == JsonModel::Object(self@),
    {
        let r = Json::Object(self.members);
        assert(r@->Object_0 =~= self@);
        r
    }
}

/// The denotations of a list of JSON values, in order.
pub open spec fn models(items: Seq<Json>) -> Seq<JsonModel> {
    Seq::new(items.len(), |i: int| items[i]@)
}

/// A JSON array.
pub fn array(items: Vec<Json>) -> (r: Json)
    ensures
        r@ == JsonModel::Array(models(items@)),
{
    let r = Json::Array(items);
    assert(r@->Array_0 =~= models(items@));
    r
}

// ---------------------------------------------------------------------
// Reading request payloads
// ---------------------------------------------------------------------

/// What a JSON document holds under a key as a string: the reason why `bytes` is
/// no JSON document, or the string member, where there is one.
pub uninterp spec fn document_text(bytes: Seq<u8>, key: Seq<char>) -> Result<
    Option<Seq<char>>,
    Seq<char>,
>;

/// What a JSON document holds under a key as an unsigned integer: the reason why
/// `bytes` is no JSON document, or the integer member, where there is one.
pub uninterp spec fn document_unsigned(bytes: Seq<u8>, key: Seq<char>) -> Result<
    Option<u64>,
    Seq<char>,
>;

/// The text of a read member or of the parse error.
pub open spec fn text_reading(r: Result<Option<String>, String>) -> Result<
    Option<Seq<char>>,
    Seq<char>,
> {
    match r {
        Ok(o) => Ok(opt_view(o)),
        Err(e) => Err(e@),
    }
}

/// The read integer or the text of the parse error.
pub open spec fn unsigned_reading(r: Result<Option<u64>, String>) -> Result<Option<u64>, Seq<char>> {
    match r {
        Ok(o) => Ok(o),
        Err(e) => Err(e@),
    }
}

/// `serde_json::from_slice::<serde_json::Value>` and, on the value it parses,
/// `Value::get` and `Value::as_str`. The outcome depends on the bytes and the key
/// alone; which bytes are a JSON document is not spelled out here.
#[verifier::external_body]
pub(crate) fn read_text(bytes: &[u8], key: &str) -> (r: Result<Option<String>, String>)
    ensures
        text_reading(r) == document_text(bytes@, key@),
{
    match serde_json::from_slice::<serde_json::Value>(bytes) {
        Ok(v) => Ok(v.get(key).and_then(|m| m.as_str()).map(|s| s.to_string())),
        Err(e) => Err(e.to_string()),
    }
}

/// `serde_json::from_slice::<serde_json::Value>` and, on the value it parses,
/// `Value::get` and `Value::as_u64`. The outcome depends on the bytes and the key
/// alone; which bytes are a JSON document is not spelled out here.
#[verifier::external_body]
pub(crate) fn read_unsigned(bytes: &[u8], key: &str) -> (r: Result<Option<u64>, String>)
    ensures
        unsigned_reading(r) == document_unsigned(bytes@, key@),
{
    match serde_json::from_slice::<serde_json::Value>(bytes) {
        Ok(v) => Ok(v.get(key).and_then(|m| m.as_u64())),
        Err(e) => Err(e.to_string()),
    }
}

// ---------------------------------------------------------------------
// Reading members
// ---------------------------------------------------------------------

/// What an object holds under `key`, as a reader of the document finds it: the
/// value of the last member of this name.
pub open spec fn member(j: JsonModel, key: Seq<char>) -> Option<JsonModel> {
    match j {
        JsonModel::Object(members) => last_member(members, key),
        _ => None,
    }
}

/// [`member`] over the member list.
pub open spec fn last_member(members: Seq<(Seq<char>, JsonModel)>, key: Seq<char>) -> Option<
    JsonModel,
>
    decreases members.len(),
{
    if members.len() == 0 {
        None
    } else if members.last().0 == key {
        Some(members.last().1)
    } else {
        last_member(members.drop_last(), key)
    }
}

/// One more member at the end is what is read under its name, and leaves all
/// others as they were.
pub broadcast proof fn lemma_last_member_push(
    members: Seq<(Seq<char>, JsonModel)>,
    m: (Seq<char>, JsonModel),
    key: Seq<char>,
)
    ensures
        #[trigger] last_member(members.push(m), key) == (if m.0 == key {
            Some(m.1)
        } else {
            last_member(members, key)
        }),
{
    assert(members.push(m).drop_last() =~= members);
}

/// Two members, read one by one.
pub proof fn lemma_two_members(members: Seq<(Seq<char>, JsonModel)>)
    requires
        members.len() == 2,
    ensures
        members == Seq::empty().push(members[0]).push(members[1]),
        forall|key: Seq<char>| #[trigger]
            last_member(members, key) == (if members[1].0 == key {
                Some(members[1].1)
            } else if members[0].0 == key {
                Some(members[0].1)
            } else {
                None
            }),
{
    reveal_with_fuel(last_member, 3);
    assert(members =~= Seq::empty().push(members[0]).push(members[1]));
}

/// A number that tells the member names of this library's documents apart.
pub open spec fn key_tag(key: Seq<char>) -> int {
    let n = key.len() as int;
    let (third, second) = if n >= 3 {
        (key[n - 3], key[n - 2])
    } else {
        (key[0], key[0])
    };
    (((n * 128 + key[0] as int) * 128 + third as int) * 128 + second as int) * 128
        + key[n / 2] as int
}

proof fn lemma_key_tags_a()
    ensures
        key_tag("album"@) == 1547221730,
        key_tag("album_artist"@) == 3426384353,
        key_tag("alsa_pcm"@) == 2352755167,
        key_tag("applied_leader_ms"@) == 4768397036,
        key_tag("artist"@) == 1815771625,
        key_tag("artist_mbid"@) == 3157832948,
        key_tag("attribution"@) == 3157948386,
        key_tag("canonical"@) == 2625171694,
        key_tag("catalog_number"@) == 3967333087,
        key_tag("composer"@) == 2356998895,
        key_tag("conductor"@) == 2625452021,
        key_tag("confidence_percent"@) == 5041125221,
        key_tag("content"@) == 2088335220,
        key_tag("country"@) == 2088581486,
        key_tag("date_of_birth"@) == 3701258854,
        key_tag("date_of_death"@) == 3700980326,
{
    assert(key_tag("album"@) == 1547221730) by {
        reveal_strlit("album");
        assert("album"@.len() == 5);
    }
    assert(key_tag("album_artist"@) == 3426384353) by {
        reveal_strlit("album_artist");
        assert("album_artist"@.len() == 12);
    }
    assert(key_tag("alsa_pcm"@) == 2352755167) by {
        reveal_strlit("alsa_pcm");
        assert("alsa_pcm"@.len() == 8);
    }
    assert(key_tag("applied_leader_ms"@) == 4768397036) by {
        reveal_strlit("applied_leader_ms");
        assert("applied_leader_ms"@.len() == 17);
    }
    assert(key_tag("artist"@) == 1815771625) by {
        reveal_strlit("artist");
        assert("artist"@.len() == 6);
    }
    assert(key_tag("artist_mbid"@) == 3157832948) by {
        reveal_strlit("artist_mbid");
        assert("artist_mbid"@.len() == 11);
    }
    assert(key_tag("attribution"@) == 3157948386) by {
        reveal_strlit("attribution");
        assert("attribution"@.len() == 11);
    }
    assert(key_tag("canonical"@) == 2625171694) by {
        reveal_strlit("canonical");
        assert("canonical"@.len() == 9);
    }
    assert(key_tag("catalog_number"@) == 3967333087) by {
        reveal_strlit("catalog_number");
        assert("catalog_number"@.len() == 14);
    }
    assert(key_tag("composer"@) == 2356998895) by {
        reveal_strlit("composer");
        assert("composer"@.len() == 8);
    }
    assert(key_tag("conductor"@) == 2625452021) by {
        reveal_strlit("conductor");
        assert("conductor"@.len() == 9);
    }
    assert(key_tag("confidence_percent"@) == 5041125221) by {
        reveal_strlit("confidence_percent");
        assert("confidence_percent"@.len() == 18);
    }
    assert(key_tag("content"@) == 2088335220) by {
        reveal_strlit("content");
        assert("content"@.len() == 7);
    }
    assert(key_tag("country"@) == 2088581486) by {
        reveal_strlit("country");
        assert("country"@.len() == 7);
    }
    assert(key_tag("date_of_birth"@) == 3701258854) by {
        reveal_strlit("date_of_birth");
        assert("date_of_birth"@.len() == 13);
    }
    assert(key_tag("date_of_death"@) == 3700980326) by {
        reveal_strlit("date_of_death");
        assert("date_of_death"@.len() == 13);
    }
}

proof fn lemma_key_tags_b()
    ensures
        key_tag("description"@) == 3164239849,
        key_tag("detail"@) == 1821930721,
        key_tag("dissolution"@) == 3164239852,
        key_tag("enhancement"@) == 3166271331,
        key_tag("entries"@) == 2092593906,
        key_tag("facet"@) == 1557721827,
        key_tag("first_release_year"@) == 5047415013,
        key_tag("format"@) == 1826320621,
        key_tag("formed_year"@) == 3168366820,
        key_tag("frames_received"@) == 4242387698,
        key_tag("frames_sent"@) == 3168368499,
        key_tag("genre"@) == 1560000878,
        key_tag("genre_ids"@) == 2633658981,
        key_tag("group_id"@) == 2365060336,
        key_tag("group_leader_ms"@) == 4244109029,
        key_tag("inception"@) == 2637854704,
{
    assert(key_tag("description"@) == 3164239849) by {
        reveal_strlit("description");
        assert("description"@.len() == 11);
    }
    assert(key_tag("detail"@) == 1821930721) by {
        reveal_strlit("detail");
        assert("detail"@.len() == 6);
    }
    assert(key_tag("dissolution"@) == 3164239852) by {
        reveal_strlit("dissolution");
        assert("dissolution"@.len() == 11);
    }
    assert(key_tag("enhancement"@) == 3166271331) by {
        reveal_strlit("enhancement");
        assert("enhancement"@.len() == 11);
    }
    assert(key_tag("entries"@) == 2092593906) by {
        reveal_strlit("entries");
        assert("entries"@.len() == 7);
    }
    assert(key_tag("facet"@) == 1557721827) by {
        reveal_strlit("facet");
        assert("facet"@.len() == 5);
    }
    assert(key_tag("first_release_year"@) == 5047415013) by {
        reveal_strlit("first_release_year");
        assert("first_release_year"@.len() == 18);
    }
    assert(key_tag("format"@) == 1826320621) by {
        reveal_strlit("format");
        assert("format"@.len() == 6);
    }
    assert(key_tag("formed_year"@) == 3168366820) by {
        reveal_strlit("formed_year");
        assert("formed_year"@.len() == 11);
    }
    assert(key_tag("frames_received"@) == 4242387698) by {
        reveal_strlit("frames_received");
        assert("frames_received"@.len() == 15);
    }
    assert(key_tag("frames_sent"@) == 3168368499) by {
        reveal_strlit("frames_sent");
        assert("frames_sent"@.len() == 11);
    }
    assert(key_tag("genre"@) == 1560000878) by {
        reveal_strlit("genre");
        assert("genre"@.len() == 5);
    }
    assert(key_tag("genre_ids"@) == 2633658981) by {
        reveal_strlit("genre_ids");
        assert("genre_ids"@.len() == 9);
    }
    assert(key_tag("group_id"@) == 2365060336) by {
        reveal_strlit("group_id");
        assert("group_id"@.len() == 8);
    }
    assert(key_tag("group_leader_ms"@) == 4244109029) by {
        reveal_strlit("group_leader_ms");
        assert("group_leader_ms"@.len() == 15);
    }
    assert(key_tag("inception"@) == 2637854704) by {
        reveal_strlit("inception");
        assert("inception"@.len() == 9);
    }
}

proof fn lemma_key_tags_c()
    ensures
        key_tag("is_synced"@) == 2637755129,
        key_tag("label"@) == 1570288354,
        key_tag("label_name"@) == 2912450271,
        key_tag("language"@) == 2375578613,
        key_tag("leader_mode"@) == 3181113970,
        key_tag("leader_ms"@) == 2643982053,
        key_tag("leader_ms_max"@) == 3717951711,
        key_tag("leader_ms_min"@) == 3717952735,
        key_tag("length_ms"@) == 2643982068,
        key_tag("library_album_count"@) == 5328697196,
        key_tag("license"@) == 2107357669,
        key_tag("lrclib_id"@) == 2643981545,
        key_tag("next_page"@) == 2648208351,
        key_tag("notes"@) == 1574777588,
        key_tag("observed_jitter_p95_ms"@) == 6139934452,
        key_tag("page"@) == 1310225383,
{
    assert(key_tag("is_synced"@) == 2637755129) by {
        reveal_strlit("is_synced");
        assert("is_synced"@.len() == 9);
    }
    assert(key_tag("label"@) == 1570288354) by {
        reveal_strlit("label");
        assert("label"@.len() == 5);
    }
    assert(key_tag("label_name"@) == 2912450271) by {
        reveal_strlit("label_name");
        assert("label_name"@.len() == 10);
    }
    assert(key_tag("language"@) == 2375578613) by {
        reveal_strlit("language");
        assert("language"@.len() == 8);
    }
    assert(key_tag("leader_mode"@) == 3181113970) by {
        reveal_strlit("leader_mode");
        assert("leader_mode"@.len() == 11);
    }
    assert(key_tag("leader_ms"@) == 2643982053) by {
        reveal_strlit("leader_ms");
        assert("leader_ms"@.len() == 9);
    }
    assert(key_tag("leader_ms_max"@) == 3717951711) by {
        reveal_strlit("leader_ms_max");
        assert("leader_ms_max"@.len() == 13);
    }
    assert(key_tag("leader_ms_min"@) == 3717952735) by {
        reveal_strlit("leader_ms_min");
        assert("leader_ms_min"@.len() == 13);
    }
    assert(key_tag("length_ms"@) == 2643982068) by {
        reveal_strlit("length_ms");
        assert("length_ms"@.len() == 9);
    }
    assert(key_tag("library_album_count"@) == 5328697196) by {
        reveal_strlit("library_album_count");
        assert("library_album_count"@.len() == 19);
    }
    assert(key_tag("license"@) == 2107357669) by {
        reveal_strlit("license");
        assert("license"@.len() == 7);
    }
    assert(key_tag("lrclib_id"@) == 2643981545) by {
        reveal_strlit("lrclib_id");
        assert("lrclib_id"@.len() == 9);
    }
    assert(key_tag("next_page"@) == 2648208351) by {
        reveal_strlit("next_page");
        assert("next_page"@.len() == 9);
    }
    assert(key_tag("notes"@) == 1574777588) by {
        reveal_strlit("notes");
        assert("notes"@.len() == 5);
    }
    assert(key_tag("observed_jitter_p95_ms"@) == 6139934452) by {
        reveal_strlit("observed_jitter_p95_ms");
        assert("observed_jitter_p95_ms"@.len() == 22);
    }
    assert(key_tag("page"@) == 1310225383) by {
        reveal_strlit("page");
        assert("page"@.len() == 4);
    }
}

proof fn lemma_key_tags_d()
    ensures
        key_tag("page_size"@) == 2652536159,
        key_tag("payload"@) == 2115760364,
        key_tag("peer_telemetry"@) == 3994892652,
        key_tag("performer"@) == 2652599023,
        key_tag("plain_lyrics"@) == 3457839596,
        key_tag("position"@) == 2384099316,
        key_tag("privacy_class"@) == 3726146041,
        key_tag("profile"@) == 2115663462,
        key_tag("provider"@) == 2384016105,
        key_tag("provider_id"@) == 3189241060,
        key_tag("reason"@) == 1851586547,
        key_tag("receiver_jitter_p95_ms"@) == 6146225908,
        key_tag("receiver_queue_depth"@) == 5609634421,
        key_tag("receiver_underruns"@) == 5072844661,
        key_tag("reconcile_errors"@) == 4535875941,
        key_tag("reconciled_album_count"@) == 6146586465,
{
    assert(key_tag("page_size"@) == 2652536159) by {
        reveal_strlit("page_size");
        assert("page_size"@.len() == 9);
    }
    assert(key_tag("payload"@) == 2115760364) by {
        reveal_strlit("payload");
        assert("payload"@.len() == 7);
    }
    assert(key_tag("peer_telemetry"@) == 3994892652) by {
        reveal_strlit("peer_telemetry");
        assert("peer_telemetry"@.len() == 14);
    }
    assert(key_tag("performer"@) == 2652599023) by {
        reveal_strlit("performer");
        assert("performer"@.len() == 9);
    }
    assert(key_tag("plain_lyrics"@) == 3457839596) by {
        reveal_strlit("plain_lyrics");
        assert("plain_lyrics"@.len() == 12);
    }
    assert(key_tag("position"@) == 2384099316) by {
        reveal_strlit("position");
        assert("position"@.len() == 8);
    }
    assert(key_tag("privacy_class"@) == 3726146041) by {
        reveal_strlit("privacy_class");
        assert("privacy_class"@.len() == 13);
    }
    assert(key_tag("profile"@) == 2115663462) by {
        reveal_strlit("profile");
        assert("profile"@.len() == 7);
    }
    assert(key_tag("provider"@) == 2384016105) by {
        reveal_strlit("provider");
        assert("provider"@.len() == 8);
    }
    assert(key_tag("provider_id"@) == 3189241060) by {
        reveal_strlit("provider_id");
        assert("provider_id"@.len() == 11);
    }
    assert(key_tag("reason"@) == 1851586547) by {
        reveal_strlit("reason");
        assert("reason"@.len() == 6);
    }
    assert(key_tag("receiver_jitter_p95_ms"@) == 6146225908) by {
        reveal_strlit("receiver_jitter_p95_ms");
        assert("receiver_jitter_p95_ms"@.len() == 22);
    }
    assert(key_tag("receiver_queue_depth"@) == 5609634421) by {
        reveal_strlit("receiver_queue_depth");
        assert("receiver_queue_depth"@.len() == 20);
    }
    assert(key_tag("receiver_underruns"@) == 5072844661) by {
        reveal_strlit("receiver_underruns");
        assert("receiver_underruns"@.len() == 18);
    }
    assert(key_tag("reconcile_errors"@) == 4535875941) by {
        reveal_strlit("reconcile_errors");
        assert("reconcile_errors"@.len() == 16);
    }
    assert(key_tag("reconciled_album_count"@) == 6146586465) by {
        reveal_strlit("reconciled_album_count");
        assert("reconciled_album_count"@.len() == 22);
    }
}

proof fn lemma_key_tags_e()
    ensures
        key_tag("recording_type"@) == 3999168622,
        key_tag("release_group_mbid"@) == 5072532722,
        key_tag("release_id"@) == 2924999923,
        key_tag("release_mbid"@) == 3461919973,
        key_tag("remote_device_id"@) == 4535612645,
        key_tag("render_buffer_capacity_ms"@) == 6951532274,
        key_tag("requires_key"@) == 3462066917,
        key_tag("review"@) == 1851421417,
        key_tag("role"@) == 1314649708,
        key_tag("song_id"@) == 2121790695,
        key_tag("source_name"@) == 3195565797,
        key_tag("source_pcm"@) == 2927374821,
        key_tag("source_url"@) == 2927458661,
        key_tag("sources"@) == 2121855730,
        key_tag("status"@) == 1853700852,
        key_tag("summary"@) == 2121824621,
{
    assert(key_tag("recording_type"@) == 3999168622) by {
        reveal_strlit("recording_type");
        assert("recording_type"@.len() == 14);
    }
    assert(key_tag("release_group_mbid"@) == 5072532722) by {
        reveal_strlit("release_group_mbid");
        assert("release_group_mbid"@.len() == 18);
    }
    assert(key_tag("release_id"@) == 2924999923) by {
        reveal_strlit("release_id");
        assert("release_id"@.len() == 10);
    }
    assert(key_tag("release_mbid"@) == 3461919973) by {
        reveal_strlit("release_mbid");
        assert("release_mbid"@.len() == 12);
    }
    assert(key_tag("remote_device_id"@) == 4535612645) by {
        reveal_strlit("remote_device_id");
        assert("remote_device_id"@.len() == 16);
    }
    assert(key_tag("render_buffer_capacity_ms"@) == 6951532274) by {
        reveal_strlit("render_buffer_capacity_ms");
        assert("render_buffer_capacity_ms"@.len() == 25);
    }
    assert(key_tag("requires_key"@) == 3462066917) by {
        reveal_strlit("requires_key");
        assert("requires_key"@.len() == 12);
    }
    assert(key_tag("review"@) == 1851421417) by {
        reveal_strlit("review");
        assert("review"@.len() == 6);
    }
    assert(key_tag("role"@) == 1314649708) by {
        reveal_strlit("role");
        assert("role"@.len() == 4);
    }
    assert(key_tag("song_id"@) == 2121790695) by {
        reveal_strlit("song_id");
        assert("song_id"@.len() == 7);
    }
    assert(key_tag("source_name"@) == 3195565797) by {
        reveal_strlit("source_name");
        assert("source_name"@.len() == 11);
    }
    assert(key_tag("source_pcm"@) == 2927374821) by {
        reveal_strlit("source_pcm");
        assert("source_pcm"@.len() == 10);
    }
    assert(key_tag("source_url"@) == 2927458661) by {
        reveal_strlit("source_url");
        assert("source_url"@.len() == 10);
    }
    assert(key_tag("sources"@) == 2121855730) by {
        reveal_strlit("sources");
        assert("sources"@.len() == 7);
    }
    assert(key_tag("status"@) == 1853700852) by {
        reveal_strlit("status");
        assert("status"@.len() == 6);
    }
    assert(key_tag("summary"@) == 2121824621) by {
        reveal_strlit("summary");
        assert("summary"@.len() == 7);
    }
}

proof fn lemma_key_tags_f()
    ensures
        key_tag("synced_lyrics"@) == 3732566495,
        key_tag("title"@) == 1587361396,
        key_tag("total"@) == 1587359988,
        key_tag("track_artist"@) == 3466230241,
        key_tag("track_count"@) == 3197990751,
        key_tag("tracks"@) == 1855518179,
        key_tag("truncated"@) == 2661102307,
        key_tag("underrun_count"@) == 4005394286,
        key_tag("v"@) == 517847926,
        key_tag("work_mbid"@) == 2667099359,
        key_tag("work_type"@) == 2667477087,
        key_tag("year"@) == 1329164513,
{
    assert(key_tag("synced_lyrics"@) == 3732566495) by {
        reveal_strlit("synced_lyrics");
        assert("synced_lyrics"@.len() == 13);
    }
    assert(key_tag("title"@) == 1587361396) by {
        reveal_strlit("title");
        assert("title"@.len() == 5);
    }
    assert(key_tag("total"@) == 1587359988) by {
        reveal_strlit("total");
        assert("total"@.len() == 5);
    }
    assert(key_tag("track_artist"@) == 3466230241) by {
        reveal_strlit("track_artist");
        assert("track_artist"@.len() == 12);
    }
    assert(key_tag("track_count"@) == 3197990751) by {
        reveal_strlit("track_count");
        assert("track_count"@.len() == 11);
    }
    assert(key_tag("tracks"@) == 1855518179) by {
        reveal_strlit("tracks");
        assert("tracks"@.len() == 6);
    }
    assert(key_tag("truncated"@) == 2661102307) by {
        reveal_strlit("truncated");
        assert("truncated"@.len() == 9);
    }
    assert(key_tag("underrun_count"@) == 4005394286) by {
        reveal_strlit("underrun_count");
        assert("underrun_count"@.len() == 14);
    }
    assert(key_tag("v"@) == 517847926) by {
        reveal_strlit("v");
        assert("v"@.len() == 1);
    }
    assert(key_tag("work_mbid"@) == 2667099359) by {
        reveal_strlit("work_mbid");
        assert("work_mbid"@.len() == 9);
    }
    assert(key_tag("work_type"@) == 2667477087) by {
        reveal_strlit("work_type");
        assert("work_type"@.len() == 9);
    }
    assert(key_tag("year"@) == 1329164513) by {
        reveal_strlit("year");
        assert("year"@.len() == 4);
    }
}

/// The tags of the member names: no two are the same.
pub proof fn lemma_key_tags()
    ensures
        key_tag("album"@) == 1547221730,
        key_tag("album_artist"@) == 3426384353,
        key_tag("alsa_pcm"@) == 2352755167,
        key_tag("applied_leader_ms"@) == 4768397036,
        key_tag("artist"@) == 1815771625,
        key_tag("artist_mbid"@) == 3157832948,
        key_tag("attribution"@) == 3157948386,
        key_tag("canonical"@) == 2625171694,
        key_tag("catalog_number"@) == 3967333087,
        key_tag("composer"@) == 2356998895,
        key_tag("conductor"@) == 2625452021,
        key_tag("confidence_percent"@) == 5041125221,
        key_tag("content"@) == 2088335220,
        key_tag("country"@) == 2088581486,
        key_tag("date_of_birth"@) == 3701258854,
        key_tag("date_of_death"@) == 3700980326,
        key_tag("description"@) == 3164239849,
        key_tag("detail"@) == 1821930721,
        key_tag("dissolution"@) == 3164239852,
        key_tag("enhancement"@) == 3166271331,
        key_tag("entries"@) == 2092593906,
        key_tag("facet"@) == 1557721827,
        key_tag("first_release_year"@) == 5047415013,
        key_tag("format"@) == 1826320621,
        key_tag("formed_year"@) == 3168366820,
        key_tag("frames_received"@) == 4242387698,
        key_tag("frames_sent"@) == 3168368499,
        key_tag("genre"@) == 1560000878,
        key_tag("genre_ids"@) == 2633658981,
        key_tag("group_id"@) == 2365060336,
        key_tag("group_leader_ms"@) == 4244109029,
        key_tag("inception"@) == 2637854704,
        key_tag("is_synced"@) == 2637755129,
        key_tag("label"@) == 1570288354,
        key_tag("label_name"@) == 2912450271,
        key_tag("language"@) == 2375578613,
        key_tag("leader_mode"@) == 3181113970,
        key_tag("leader_ms"@) == 2643982053,
        key_tag("leader_ms_max"@) == 3717951711,
        key_tag("leader_ms_min"@) == 3717952735,
        key_tag("length_ms"@) == 2643982068,
        key_tag("library_album_count"@) == 5328697196,
        key_tag("license"@) == 2107357669,
        key_tag("lrclib_id"@) == 2643981545,
        key_tag("next_page"@) == 2648208351,
        key_tag("notes"@) == 1574777588,
        key_tag("observed_jitter_p95_ms"@) == 6139934452,
        key_tag("page"@) == 1310225383,
        key_tag("page_size"@) == 2652536159,
        key_tag("payload"@) == 2115760364,
        key_tag("peer_telemetry"@) == 3994892652,
        key_tag("performer"@) == 2652599023,
        key_tag("plain_lyrics"@) == 3457839596,
        key_tag("position"@) == 2384099316,
        key_tag("privacy_class"@) == 3726146041,
        key_tag("profile"@) == 2115663462,
        key_tag("provider"@) == 2384016105,
        key_tag("provider_id"@) == 3189241060,
        key_tag("reason"@) == 1851586547,
        key_tag("receiver_jitter_p95_ms"@) == 6146225908,
        key_tag("receiver_queue_depth"@) == 5609634421,
        key_tag("receiver_underruns"@) == 5072844661,
        key_tag("reconcile_errors"@) == 4535875941,
        key_tag("reconciled_album_count"@) == 6146586465,
        key_tag("recording_type"@) == 3999168622,
        key_tag("release_group_mbid"@) == 5072532722,
        key_tag("release_id"@) == 2924999923,
        key_tag("release_mbid"@) == 3461919973,
        key_tag("remote_device_id"@) == 4535612645,
        key_tag("render_buffer_capacity_ms"@) == 6951532274,
        key_tag("requires_key"@) == 3462066917,
        key_tag("review"@) == 1851421417,
        key_tag("role"@) == 1314649708,
        key_tag("song_id"@) == 2121790695,
        key_tag("source_name"@) == 3195565797,
        key_tag("source_pcm"@) == 2927374821,
        key_tag("source_url"@) == 2927458661,
        key_tag("sources"@) == 2121855730,
        key_tag("status"@) == 1853700852,
        key_tag("summary"@) == 2121824621,
        key_tag("synced_lyrics"@) == 3732566495,
        key_tag("title"@) == 1587361396,
        key_tag("total"@) == 1587359988,
        key_tag("track_artist"@) == 3466230241,
        key_tag("track_count"@) == 3197990751,
        key_tag("tracks"@) == 1855518179,
        key_tag("truncated"@) == 2661102307,
        key_tag("underrun_count"@) == 4005394286,
        key_tag("v"@) == 517847926,
        key_tag("work_mbid"@) == 2667099359,
        key_tag("work_type"@) == 2667477087,
        key_tag("year"@) == 1329164513,
{
    lemma_key_tags_a();
    lemma_key_tags_b();
    lemma_key_tags_c();
    lemma_key_tags_d();
    lemma_key_tags_e();
    lemma_key_tags_f();
}

/// An absent value is read as `null`, and a present one as itself: a text as that
/// text, and a number as its decimal digits.
pub proof fn law_present_values_are_written(t: Seq<char>, n: u64)
    ensures
        opt_text_model(Some(t)) == JsonModel::Text(t),
        opt_text_model(None) == JsonModel::Null,
        opt_number_model(Some(n)) == JsonModel::Number(decimal_of(n as nat)),
        opt_number_model(None) == JsonModel::Null,
{
}

/// What is read under a name is what was last written under it; a member without
/// a value changes nothing.
pub proof fn law_members_are_read_back(
    members: Seq<(Seq<char>, JsonModel)>,
    key: Seq<char>,
    other: Seq<char>,
    value: JsonModel,
    t: Seq<char>,
)
    requires
        key != other,
    ensures
        last_member(members.push((key, value)), key) == Some(value),
        last_member(with_member(members, key, Some(value)), key) == Some(value),
        last_member(with_text(members, key, Some(t)), key) == Some(JsonModel::Text(t)),
        last_member(with_member(members, key, Some(value)), other) == last_member(members, other),
        last_member(with_text(members, key, Some(t)), other) == last_member(members, other),
        with_member(members, key, None) == members,
        with_text(members, key, None) == members,
{
    broadcast use lemma_last_member_push;

}

} // verus!
