//! Configured shares.

use crate::json::opt_view;
use crate::text::{
    clone_opt, chars_of, text_of, trim_end_char, trim_end_char_of, trim_start_char, trim_start_char_of,
};
use vstd::prelude::*;

verus! {

/// Version of the persisted state.
pub const NETWORK_SHARES_SCHEMA_VERSION: u32 = 1;

/// Name of the persisted state's file in the state directory.
pub const NETWORK_SHARES_FILE: &'static str = "network_shares.toml";

/// Directory below which shares are mounted.
pub const NAS_MOUNT_ROOT: &'static str = "/var/lib/evo/music/NAS";

/// Stable identifier of a share.
#[derive(Debug, PartialEq, Eq)]
pub struct ShareId(pub String);

impl View for ShareId {
    type V = Seq<char>;

    open spec fn view(&self) -> Seq<char> {
        self.0@
    }
}

/// A lower-case hexadecimal digit.
pub open spec fn is_hex_digit(c: char) -> bool {
    ('0' <= c && c <= '9') || ('a' <= c && c <= 'f')
}

/// The canonical text of a random UUID: lower-case hexadecimal digits in groups
/// of 8, 4, 4, 4 and 12 joined by hyphens, with the version digit 4 and a variant
/// digit of 8, 9, a or b.
pub open spec fn is_uuid_v4_text(s: Seq<char>) -> bool {
    &&& s.len() == 36
    &&& forall|i: int|
        0 <= i < 36 ==> if i == 8 || i == 13 || i == 18 || i == 23 {
            #[trigger] s[i] == '-'
        } else {
            is_hex_digit(s[i])
        }
    &&& s[14] == '4'
    &&& s[19] == '8' || s[19] == '9' || s[19] == 'a' || s[19] == 'b'
}

/// `uuid::Uuid::new_v4`, rendered by its `Display`: a random UUID in canonical
/// lower-case hyphenated form. Which one it is rests on chance.
#[verifier::external_body]
fn random_uuid_text() -> (r: String)
    ensures
        is_uuid_v4_text(r@),
{
    uuid::Uuid::new_v4().to_string()
}

impl ShareId {
    /// Mints an identifier.
    pub fn new_v4() -> (r: ShareId)
        ensures
            is_uuid_v4_text(r@),
    {
        ShareId(random_uuid_text())
    }

    /// The identifier's text.
    pub fn to_text(&self) -> (r: String)
        ensures
            r@ == self@,
    {
        self.0.clone()
    }

    /// Whether two identifiers are the same.
    pub fn same(&self, other: &ShareId) -> (r: bool)
        ensures
            r == (self@ == other@),
    {
        self.0 == other.0
    }
}

impl Clone for ShareId {
    fn clone(&self) -> (r: ShareId)
        ensures
            r == *self,
    {
        ShareId(self.0.clone())
    }
}

/// File system of a share.
#[derive(Debug, Clone, Copy, PartialEq, Eq, Structural)]
pub enum FsType {
    /// SMB: the dialect is probed, unless the operator's options name one.
    Cifs,
    /// NFS: the kernel negotiates the version.
    Nfs,
}

impl FsType {
    /// The `-t` argument of `mount`.
    pub open spec fn mount_type(self) -> Seq<char> {
        match self {
            FsType::Cifs => "cifs"@,
            FsType::Nfs => "nfs"@,
        }
    }

    /// The `-t` argument of `mount`.
    pub fn as_mount_type(self) -> (r: &'static str)
        ensures
            r@ == self.mount_type(),
    {
        match self {
            FsType::Cifs => "cifs",
            FsType::Nfs => "nfs",
        }
    }
}

/// How a share is authenticated to. Passwords are never held here, only the key
/// under which the credential vault holds them.
#[derive(Debug, PartialEq, Eq)]
pub enum Credentials {
    Guest,
    UserPassword { username: String, credential_key: String },
    /// An operator-managed key file.
    KeyFile { path: String },
}

/// What [`Credentials`] say.
pub enum CredentialsModel {
    Guest,
    UserPassword { username: Seq<char>, credential_key: Seq<char> },
    KeyFile { path: Seq<char> },
}

impl View for Credentials {
    type V = CredentialsModel;

    open spec fn view(&self) -> CredentialsModel {
        match *self {
            Credentials::Guest => CredentialsModel::Guest,
            Credentials::UserPassword { username, credential_key } => {
                CredentialsModel::UserPassword {
                    username: username@,
                    credential_key: credential_key@,
                }
            },
            Credentials::KeyFile { path } => CredentialsModel::KeyFile { path: path@ },
        }
    }
}

impl Credentials {
    /// Whether two credentials say the same.
    pub fn same(&self, other: &Credentials) -> (r: bool)
        ensures
            r == (self@ == other@),
    {
        match (self, other) {
            (Credentials::Guest, Credentials::Guest) => true,
            (
                Credentials::UserPassword { username: u, credential_key: k },
                Credentials::UserPassword { username: v, credential_key: l },
            ) => *u == *v && *k == *l,
            (Credentials::KeyFile { path: p }, Credentials::KeyFile { path: q }) => *p == *q,
            _ => false,
        }
    }
}

impl Clone for Credentials {
    fn clone(&self) -> (r: Credentials)
        ensures
            r == *self,
    {
        match self {
            Credentials::Guest => Credentials::Guest,
            Credentials::UserPassword { username, credential_key } => Credentials::UserPassword {
                username: username.clone(),
                credential_key: credential_key.clone(),
            },
            Credentials::KeyFile { path } => Credentials::KeyFile { path: path.clone() },
        }
    }
}

/// Operational state of a share.
#[derive(Debug, Clone, Copy, PartialEq, Eq, Structural)]
pub enum MountState {
    Unmounted,
    Mounting,
    Mounted,
    /// The operator has to act.
    Failed,
}

/// A configured share.
#[derive(Debug, PartialEq, Eq)]
pub struct ShareRecord {
    pub share_id: ShareId,
    /// Display name.
    pub alias: String,
    pub fstype: FsType,
    pub host: String,
    /// Share name (CIFS) or export path (NFS).
    pub path: String,
    pub credentials: Credentials,
    /// Operator's mount options, verbatim.
    pub advanced_options: String,
    /// Dialect of the last successful CIFS mount.
    pub persisted_vers: Option<String>,
    /// Local mount point.
    pub mount_root: String,
    pub created_at_ms: i64,
    /// Time of the last successful mount.
    pub last_mounted_at_ms: Option<i64>,
}

/// What a [`ShareRecord`] says.
#[verifier::ext_equal]
pub struct RecordModel {
    pub share_id: Seq<char>,
    pub alias: Seq<char>,
    pub fstype: FsType,
    pub host: Seq<char>,
    pub path: Seq<char>,
    pub credentials: CredentialsModel,
    pub advanced_options: Seq<char>,
    pub persisted_vers: Option<Seq<char>>,
    pub mount_root: Seq<char>,
    pub created_at_ms: i64,
    pub last_mounted_at_ms: Option<i64>,
}

impl View for ShareRecord {
    type V = RecordModel;

    open spec fn view(&self) -> RecordModel {
        RecordModel {
            share_id: self.share_id@,
            alias: self.alias@,
            fstype: self.fstype,
            host: self.host@,
            path: self.path@,
            credentials: self.credentials@,
            advanced_options: self.advanced_options@,
            persisted_vers: opt_view(self.persisted_vers),
            mount_root: self.mount_root@,
            created_at_ms: self.created_at_ms,
            last_mounted_at_ms: self.last_mounted_at_ms,
        }
    }
}

impl Clone for ShareRecord {
    fn clone(&self) -> (r: ShareRecord)
        ensures
            r == *self,
    {
        ShareRecord {
            share_id: self.share_id.clone(),
            alias: self.alias.clone(),
            fstype: self.fstype,
            host: self.host.clone(),
            path: self.path.clone(),
            credentials: self.credentials.clone(),
            advanced_options: self.advanced_options.clone(),
            persisted_vers: clone_opt(&self.persisted_vers),
            mount_root: self.mount_root.clone(),
            created_at_ms: self.created_at_ms,
            last_mounted_at_ms: self.last_mounted_at_ms,
        }
    }
}

/// Whether a character may stand in a mount-point name.
pub open spec fn is_path_safe(c: char) -> bool {
    ||| 'a' <= c && c <= 'z'
    ||| 'A' <= c && c <= 'Z'
    ||| '0' <= c && c <= '9'
    ||| c == '-'
    ||| c == '_'
}

/// `s` with every character that is not path-safe turned into an underscore.
pub open spec fn sanitised(s: Seq<char>) -> Seq<char> {
    Seq::new(
        s.len(),
        |i: int|
            if is_path_safe(s[i]) {
                s[i]
            } else {
                '_'
            },
    )
}

/// Name of the mount point for an alias: the sanitised alias without leading and
/// trailing underscores, or `share` when nothing is left.
pub open spec fn mount_name(alias: Seq<char>) -> Seq<char> {
    let trimmed = trim_end_char_of(trim_start_char_of(sanitised(alias), '_'), '_');
    if trimmed.len() == 0 {
        "share"@
    } else {
        trimmed
    }
}

/// Mount point for an alias.
pub open spec fn mount_root_for(alias: Seq<char>) -> Seq<char> {
    NAS_MOUNT_ROOT@ + "/"@ + mount_name(alias)
}

impl ShareRecord {
    /// Default mount point for an alias.
    pub fn default_mount_root(alias: &str) -> (r: String)
        ensures
            r@ == mount_root_for(alias@),
    {
        let chars = chars_of(alias);
        let mut safe: Vec<char> = Vec::new();
        let n: usize = chars.len();
        for i in 0..n
            invariant
                n == chars@.len(),
                safe@ == sanitised(chars@).take(i as int),
        {
            let c = chars[i];
            let keep = ('a' <= c && c <= 'z') || ('A' <= c && c <= 'Z') || ('0' <= c && c <= '9')
                || c == '-' || c == '_';
            safe.push(
                if keep {
                    c
                } else {
                    '_'
                },
            );
            assert(safe@ =~= sanitised(chars@).take(i + 1));
        }
        assert(safe@ =~= sanitised(alias@));
        let trimmed = trim_end_char(trim_start_char(safe.as_slice(), '_'), '_');
        let mut r = NAS_MOUNT_ROOT.to_owned();
        r.append("/");
        if trimmed.len() == 0 {
            r.append("share");
        } else {
            let name = text_of(trimmed);
            r.append(name.as_str());
        }
        r
    }

    /// A fresh record: minted identifier, default mount point, never mounted.
    pub fn new(
        alias: String,
        fstype: FsType,
        host: String,
        path: String,
        credentials: Credentials,
        advanced_options: String,
        created_at_ms: i64,
    ) -> (r: ShareRecord)
        ensures
            is_uuid_v4_text(r.share_id@),
            r@ == (RecordModel {
                share_id: r.share_id@,
                alias: alias@,
                fstype,
                host: host@,
                path: path@,
                credentials: credentials@,
                advanced_options: advanced_options@,
                persisted_vers: None,
                mount_root: mount_root_for(alias@),
                created_at_ms,
                last_mounted_at_ms: None,
            }),
    {
        let mount_root = ShareRecord::default_mount_root(alias.as_str());
        ShareRecord {
            share_id: ShareId::new_v4(),
            alias,
            fstype,
            host,
            path,
            credentials,
            advanced_options,
            persisted_vers: None,
            mount_root,
            created_at_ms,
            last_mounted_at_ms: None,
        }
    }
}

/// A partial update: what is left out keeps its value.
#[derive(Debug, PartialEq, Eq)]
pub struct ShareEdits {
    pub alias: Option<String>,
    /// A changed file system clears the persisted dialect.
    pub fstype: Option<FsType>,
    pub host: Option<String>,
    pub path: Option<String>,
    pub credentials: Option<Credentials>,
    /// An empty string clears the operator's options.
    pub advanced_options: Option<String>,
}

impl Default for ShareEdits {
    fn default() -> (r: Self)
        ensures
            r.alias is None,
            r.fstype is None,
            r.host is None,
            r.path is None,
            r.credentials is None,
            r.advanced_options is None,
    {
        ShareEdits {
            alias: None,
            fstype: None,
            host: None,
            path: None,
            credentials: None,
            advanced_options: None,
        }
    }
}

/// The edited text, or the current one.
pub open spec fn or_text(edit: Option<String>, current: Seq<char>) -> Seq<char> {
    match edit {
        Some(s) => s@,
        None => current,
    }
}

impl ShareEdits {
    /// The record after the edits.
    pub open spec fn applied(self, m: RecordModel) -> RecordModel {
        let fstype = match self.fstype {
            Some(f) => f,
            None => m.fstype,
        };
        RecordModel {
            alias: or_text(self.alias, m.alias),
            fstype,
            host: or_text(self.host, m.host),
            path: or_text(self.path, m.path),
            credentials: match self.credentials {
                Some(c) => c@,
                None => m.credentials,
            },
            advanced_options: or_text(self.advanced_options, m.advanced_options),
            persisted_vers: if fstype != m.fstype {
                None
            } else {
                m.persisted_vers
            },
            ..m
        }
    }

    /// Applies the edits. Returns whether anything changed.
    pub fn apply_to(self, record: &mut ShareRecord) -> (changed: bool)
        ensures
            final(record)@ == self.applied(old(record)@),
            changed == (final(record)@ != old(record)@),
            final(record).share_id == old(record).share_id,
    {
        let mut changed = false;
        if let Some(alias) = self.alias {
            if record.alias != alias {
                record.alias = alias;
                changed = true;
            }
        }
        if let Some(fstype) = self.fstype {
            if record.fstype != fstype {
                record.fstype = fstype;
                record.persisted_vers = None;
                changed = true;
            }
        }
        if let Some(host) = self.host {
            if record.host != host {
                record.host = host;
                changed = true;
            }
        }
        if let Some(path) = self.path {
            if record.path != path {
                record.path = path;
                changed = true;
            }
        }
        if let Some(credentials) = self.credentials {
            if !record.credentials.same(&credentials) {
                record.credentials = credentials;
                changed = true;
            }
        }
        if let Some(advanced_options) = self.advanced_options {
            if record.advanced_options != advanced_options {
                record.advanced_options = advanced_options;
                changed = true;
            }
        }
        changed
    }
}

// ---------------------------------------------------------------------
// Laws
// ---------------------------------------------------------------------

/// Whether every character of `s` is path-safe.
pub open spec fn all_path_safe(s: Seq<char>) -> bool {
    forall|i: int| 0 <= i < s.len() ==> is_path_safe(#[trigger] s[i])
}

proof fn lemma_trim_start_safe(s: Seq<char>, c: char)
    requires
        all_path_safe(s),
    ensures
        all_path_safe(trim_start_char_of(s, c)),
    decreases s.len(),
{
    if s.len() > 0 && s[0] == c {
        lemma_trim_start_safe(s.drop_first(), c);
    }
}

proof fn lemma_trim_end_safe(s: Seq<char>, c: char)
    requires
        all_path_safe(s),
    ensures
        all_path_safe(trim_end_char_of(s, c)),
    decreases s.len(),
{
    if s.len() > 0 && s.last() == c {
        lemma_trim_end_safe(s.drop_last(), c);
    }
}

/// Whatever the operator calls a share, its mount point is one non-empty,
/// path-safe segment below the mount root: it holds no separator and is neither
/// `.` nor `..`.
pub proof fn law_mount_point_is_one_segment(alias: Seq<char>)
    ensures
        mount_name(alias).len() > 0,
        all_path_safe(mount_name(alias)),
        mount_root_for(alias) == NAS_MOUNT_ROOT@ + "/"@ + mount_name(alias),
{
    reveal_strlit("share");
    assert(all_path_safe("share"@));
    assert(all_path_safe(sanitised(alias)));
    lemma_trim_start_safe(sanitised(alias), '_');
    lemma_trim_end_safe(trim_start_char_of(sanitised(alias), '_'), '_');
}

/// Applying the same edits again changes nothing.
pub proof fn law_edits_are_idempotent(e: ShareEdits, m: RecordModel)
    ensures
        e.applied(e.applied(m)) == e.applied(m),
{
}

/// Edits never touch what the framework manages, except that a changed file
/// system clears the persisted dialect.
pub proof fn law_edits_keep_managed_fields(e: ShareEdits, m: RecordModel)
    ensures
        e.applied(m).share_id == m.share_id,
        e.applied(m).mount_root == m.mount_root,
        e.applied(m).created_at_ms == m.created_at_ms,
        e.applied(m).last_mounted_at_ms == m.last_mounted_at_ms,
        e.applied(m).fstype == m.fstype ==> e.applied(m).persisted_vers == m.persisted_vers,
        e.applied(m).fstype != m.fstype ==> e.applied(m).persisted_vers is None,
{
}

/// What an edit gives is in force, and what it leaves out stays as it was.
pub proof fn law_edits_take_effect(e: ShareEdits, m: RecordModel)
    ensures
        ({
            let after = e.applied(m);
            &&& after.alias == (match e.alias {
                Some(s) => s@,
                None => m.alias,
            })
            &&& after.host == (match e.host {
                Some(s) => s@,
                None => m.host,
            })
            &&& after.path == (match e.path {
                Some(s) => s@,
                None => m.path,
            })
            &&& after.advanced_options == (match e.advanced_options {
                Some(s) => s@,
                None => m.advanced_options,
            })
            &&& after.credentials == (match e.credentials {
                Some(c) => c@,
                None => m.credentials,
            })
            &&& after.fstype == (match e.fstype {
                Some(f) => f,
                None => m.fstype,
            })
        }),
{
}

proof fn lemma_start_stays(s: Seq<char>, c: char)
    requires
        s.len() > 0 ==> s[0] != c,
    ensures
        trim_start_char_of(s, c) == s,
{
}

/// An alias that can stand in a path as it is names its own mount point.
pub proof fn law_plain_aliases_name_their_mount_point(alias: Seq<char>)
    requires
        alias.len() > 0,
        all_path_safe(alias),
        alias[0] != '_',
        alias.last() != '_',
    ensures
        mount_name(alias) == alias,
        mount_root_for(alias) == "/var/lib/evo/music/NAS"@ + "/"@ + alias,
{
    assert forall|i: int| 0 <= i < alias.len() implies is_path_safe(#[trigger] alias[i]) by {}
    assert(sanitised(alias) =~= alias);
    lemma_start_stays(alias, '_');
}

/// What cannot stand in a path becomes an underscore, character by character, and
/// what can stays.
pub proof fn law_unsafe_characters_become_underscores(s: Seq<char>, i: int)
    requires
        0 <= i < s.len(),
    ensures
        sanitised(s).len() == s.len(),
        ('a' <= s[i] <= 'z') || ('A' <= s[i] <= 'Z') || ('0' <= s[i] <= '9') || s[i] == '-' || s[i]
            == '_' ==> sanitised(s)[i] == s[i],
        !(('a' <= s[i] <= 'z') || ('A' <= s[i] <= 'Z') || ('0' <= s[i] <= '9') || s[i] == '-'
            || s[i] == '_') ==> sanitised(s)[i] == '_',
{
}

} // verus!
