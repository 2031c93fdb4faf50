//! Command lines of the mount helpers.

use crate::shares::records::{
    Credentials, CredentialsModel, FsType, RecordModel, ShareRecord,
};
use crate::text::{
    chars_of, has_prefix, join, join_of, joined, opt_str_view, push_owned, starts_with, text_of,
    trim_start_char, trim_start_char_of, views,
};
use vstd::prelude::*;

verus! {

/// The credential options of a CIFS mount.
pub open spec fn credential_options(
    credentials: CredentialsModel,
    password: Option<Seq<char>>,
) -> Seq<Seq<char>> {
    match credentials {
        CredentialsModel::Guest => seq!["guest"@],
        CredentialsModel::UserPassword { username, .. } => match password {
            Some(pw) => seq!["username="@ + username, "password="@ + pw],
            None => seq!["username="@ + username],
        },
        CredentialsModel::KeyFile { path } => seq!["credentials="@ + path],
    }
}

/// The operator's options as a last option, unless they are empty.
pub open spec fn operator_options(advanced: Seq<char>) -> Seq<Seq<char>> {
    if advanced.len() == 0 {
        Seq::empty()
    } else {
        seq![advanced]
    }
}

/// The options of a CIFS mount: dialect, defaults, credentials, operator.
pub open spec fn cifs_options(
    m: RecordModel,
    dialect: Seq<char>,
    password: Option<Seq<char>>,
) -> Seq<Seq<char>> {
    seq!["vers="@ + dialect, "ro"@, "noauto"@, "iocharset=utf8"@] + credential_options(
        m.credentials,
        password,
    ) + operator_options(m.advanced_options)
}

/// The options of an NFS mount: defaults, operator.
pub open spec fn nfs_options(m: RecordModel) -> Seq<Seq<char>> {
    seq!["ro"@, "soft"@, "noauto"@] + operator_options(m.advanced_options)
}

/// Remote name of a CIFS share.
pub open spec fn cifs_remote(m: RecordModel) -> Seq<char> {
    "//"@ + m.host + "/"@ + trim_start_char_of(m.path, '/')
}

/// Remote name of an NFS export.
pub open spec fn nfs_remote(m: RecordModel) -> Seq<char> {
    m.host + ":"@ + (if has_prefix(m.path, "/"@) {
        m.path
    } else {
        "/"@ + m.path
    })
}

/// Arguments of a CIFS mount attempt.
pub open spec fn cifs_args(m: RecordModel, dialect: Seq<char>, password: Option<Seq<char>>) -> Seq<
    Seq<char>,
> {
    seq![
        "-t"@,
        "cifs"@,
        "-o"@,
        join_of(cifs_options(m, dialect, password), ","@),
        cifs_remote(m),
        m.mount_root,
    ]
}

/// Arguments of an NFS mount attempt.
pub open spec fn nfs_args(m: RecordModel) -> Seq<Seq<char>> {
    seq![
        "-t"@,
        "nfs"@,
        "-o"@,
        join_of(nfs_options(m), ","@),
        nfs_remote(m),
        m.mount_root,
    ]
}

/// Builds the arguments of a CIFS mount attempt with the given dialect.
pub fn build_cifs_mount_args(record: &ShareRecord, dialect: &str, password: Option<&str>) -> (r:
    Vec<String>)
    ensures
        views(r@) == cifs_args(record@, dialect@, opt_str_view(password)),
{
    let mut options: Vec<String> = Vec::new();
    push_owned(&mut options, joined("vers=", dialect));
    push_owned(&mut options, "ro".to_owned());
    push_owned(&mut options, "noauto".to_owned());
    push_owned(&mut options, "iocharset=utf8".to_owned());
    match &record.credentials {
        Credentials::Guest => {
            push_owned(&mut options, "guest".to_owned());
        },
        Credentials::UserPassword { username, .. } => {
            push_owned(&mut options, joined("username=", username.as_str()));
            if let Some(pw) = password {
                push_owned(&mut options, joined("password=", pw));
            }
        },
        Credentials::KeyFile { path } => {
            push_owned(&mut options, joined("credentials=", path.as_str()));
        },
    }
    if !record.advanced_options.as_str().is_empty() {
        push_owned(&mut options, record.advanced_options.clone());
    }
    assert(views(options@) =~= cifs_options(record@, dialect@, opt_str_view(password)));

    let path = chars_of(record.path.as_str());
    let bare = text_of(trim_start_char(path.as_slice(), '/'));
    let mut remote = joined("//", record.host.as_str());
    remote.append("/");
    remote.append(bare.as_str());

    let mut args: Vec<String> = Vec::new();
    push_owned(&mut args, "-t".to_owned());
    push_owned(&mut args, FsType::Cifs.as_mount_type().to_owned());
    push_owned(&mut args, "-o".to_owned());
    push_owned(&mut args, join(&options, ","));
    push_owned(&mut args, remote);
    push_owned(&mut args, record.mount_root.clone());
    assert(views(args@) =~= cifs_args(record@, dialect@, opt_str_view(password)));
    args
}

/// Builds the arguments of an NFS mount attempt.
pub fn build_nfs_mount_args(record: &ShareRecord) -> (r: Vec<String>)
    ensures
        views(r@) == nfs_args(record@),
{
    let mut options: Vec<String> = Vec::new();
    push_owned(&mut options, "ro".to_owned());
    push_owned(&mut options, "soft".to_owned());
    push_owned(&mut options, "noauto".to_owned());
    if !record.advanced_options.as_str().is_empty() {
        push_owned(&mut options, record.advanced_options.clone());
    }
    assert(views(options@) =~= nfs_options(record@));

    let path = chars_of(record.path.as_str());
    let mut remote = joined(record.host.as_str(), ":");
    if !starts_with(path.as_slice(), "/") {
        remote.append("/");
    }
    remote.append(record.path.as_str());
    assert(remote@ =~= nfs_remote(record@));

    let mut args: Vec<String> = Vec::new();
    push_owned(&mut args, "-t".to_owned());
    push_owned(&mut args, FsType::Nfs.as_mount_type().to_owned());
    push_owned(&mut args, "-o".to_owned());
    push_owned(&mut args, join(&options, ","));
    push_owned(&mut args, remote);
    push_owned(&mut args, record.mount_root.clone());
    assert(views(args@) =~= nfs_args(record@));
    args
}

/// Arguments of an unmount; `lazy` detaches at once and releases later.
pub open spec fn umount_args(mount_root: Seq<char>, lazy: bool) -> Seq<Seq<char>> {
    if lazy {
        seq!["-l"@, mount_root]
    } else {
        seq![mount_root]
    }
}

/// Builds the arguments of an unmount.
pub fn build_umount_args(mount_root: &str, lazy: bool) -> (r: Vec<String>)
    ensures
        views(r@) == umount_args(mount_root@, lazy),
{
    let mut args: Vec<String> = Vec::new();
    if lazy {
        push_owned(&mut args, "-l".to_owned());
    }
    push_owned(&mut args, mount_root.to_owned());
    assert(views(args@) =~= umount_args(mount_root@, lazy));
    args
}

/// Arguments of the service browser.
pub open spec fn avahi_browse_args() -> Seq<Seq<char>> {
    seq!["-trkp"@, "_smb._tcp"@]
}

/// Builds the arguments of the service browser: terminate, resolve, no database
/// lookup, parseable. No flag for all services: a service type is given.
pub fn build_avahi_browse_args() -> (r: Vec<String>)
    ensures
        views(r@) == avahi_browse_args(),
{
    let mut args: Vec<String> = Vec::new();
    push_owned(&mut args, "-trkp".to_owned());
    push_owned(&mut args, "_smb._tcp".to_owned());
    assert(views(args@) =~= avahi_browse_args());
    args
}

/// Arguments of the share lister.
pub open spec fn smbclient_list_args(ip: Seq<char>) -> Seq<Seq<char>> {
    seq!["-N"@, "-L"@, ip, "-m"@, "SMB3_11"@, "--debuglevel=4"@]
}

/// Builds the arguments of the share lister for one host. The debug level makes
/// it print the negotiated dialect.
pub fn build_smbclient_list_args(ip: &str) -> (r: Vec<String>)
    ensures
        views(r@) == smbclient_list_args(ip@),
{
    let mut args: Vec<String> = Vec::new();
    push_owned(&mut args, "-N".to_owned());
    push_owned(&mut args, "-L".to_owned());
    push_owned(&mut args, ip.to_owned());
    push_owned(&mut args, "-m".to_owned());
    push_owned(&mut args, "SMB3_11".to_owned());
    push_owned(&mut args, "--debuglevel=4".to_owned());
    assert(views(args@) =~= smbclient_list_args(ip@));
    args
}

/// The operator's options stand verbatim at the end of the option string, so
/// that where they repeat a default, theirs is the later definition.
pub proof fn law_operator_options_come_last(
    m: RecordModel,
    dialect: Seq<char>,
    password: Option<Seq<char>>,
)
    requires
        m.advanced_options.len() > 0,
    ensures
        cifs_args(m, dialect, password)[3] == join_of(
            seq!["vers="@ + dialect, "ro"@, "noauto"@, "iocharset=utf8"@] + credential_options(
                m.credentials,
                password,
            ),
            ","@,
        ) + ","@ + m.advanced_options,
        nfs_args(m)[3] == join_of(seq!["ro"@, "soft"@, "noauto"@], ","@) + ","@
            + m.advanced_options,
{
    let c = cifs_options(m, dialect, password);
    assert(c.drop_last() =~= seq!["vers="@ + dialect, "ro"@, "noauto"@, "iocharset=utf8"@]
        + credential_options(m.credentials, password));
    let n = nfs_options(m);
    assert(n.drop_last() =~= seq!["ro"@, "soft"@, "noauto"@]);
}

proof fn lemma_slashes_are_dropped(slashes: Seq<char>, rest: Seq<char>, c: char)
    requires
        forall|i: int| 0 <= i < slashes.len() ==> #[trigger] slashes[i] == c,
        rest.len() > 0 ==> rest[0] != c,
    ensures
        trim_start_char_of(slashes + rest, c) == rest,
    decreases slashes.len(),
{
    if slashes.len() == 0 {
        assert(slashes + rest =~= rest);
    } else {
        let tail = slashes.drop_first();
        assert(slashes[0] == c);
        assert forall|i: int| 0 <= i < tail.len() implies #[trigger] tail[i] == c by {
            assert(slashes[i + 1] == c);
        }
        lemma_slashes_are_dropped(tail, rest, c);
        assert((slashes + rest).drop_first() =~= tail + rest);
    }
}

/// A CIFS mount asks for the share on its host, whatever slashes the operator wrote
/// before its name, and puts it at the share's mount point.
pub proof fn law_cifs_mounts_the_share_at_its_place(
    m: RecordModel,
    slashes: Seq<char>,
    name: Seq<char>,
    dialect: Seq<char>,
    password: Option<Seq<char>>,
)
    requires
        m.path == slashes + name,
        forall|i: int| 0 <= i < slashes.len() ==> #[trigger] slashes[i] == '/',
        name.len() > 0 ==> name[0] != '/',
    ensures
        ({
            let args = cifs_args(m, dialect, password);
            &&& args.len() == 6
            &&& args[0] == "-t"@ && args[1] == "cifs"@ && args[2] == "-o"@
            &&& args[4] == "//"@ + m.host + "/"@ + name
            &&& args[5] == m.mount_root
        }),
{
    lemma_slashes_are_dropped(slashes, name, '/');
}

/// A CIFS mount is read-only and not automatic, names the dialect that is tried,
/// and carries the credentials of the share and no others: guest access as such, a
/// user with the password that was fetched, or the operator's key file.
pub proof fn law_cifs_options_carry_the_credentials(
    m: RecordModel,
    dialect: Seq<char>,
    password: Option<Seq<char>>,
)
    ensures
        ({
            let o = cifs_options(m, dialect, password);
            &&& cifs_args(m, dialect, password)[3] == join_of(o, ","@)
            &&& o[0] == "vers="@ + dialect && o[1] == "ro"@ && o[2] == "noauto"@
            &&& o[3] == "iocharset=utf8"@
            &&& m.credentials is Guest ==> o[4] == "guest"@
            &&& m.credentials matches CredentialsModel::UserPassword { username, .. } ==> o[4]
                == "username="@ + username && (password matches Some(pw) ==> o[5] == "password="@
                + pw)
            &&& m.credentials matches CredentialsModel::KeyFile { path } ==> o[4] == "credentials="@
                + path
            &&& o.len() == (if m.credentials is UserPassword && password is Some {
                6int
            } else {
                5int
            }) + (if m.advanced_options.len() > 0 {
                1int
            } else {
                0int
            })
            &&& m.advanced_options.len() > 0 ==> o.last() == m.advanced_options
        }),
{
}

/// An NFS mount is read-only and soft, asks for the export on its host by its
/// absolute path, and puts it at the share's mount point.
pub proof fn law_nfs_mounts_the_export_at_its_place(m: RecordModel)
    ensures
        ({
            let args = nfs_args(m);
            let o = nfs_options(m);
            &&& args.len() == 6
            &&& args[0] == "-t"@ && args[1] == "nfs"@ && args[2] == "-o"@
            &&& args[3] == join_of(o, ","@)
            &&& o[0] == "ro"@ && o[1] == "soft"@ && o[2] == "noauto"@
            &&& m.advanced_options.len() == 0 ==> o.len() == 3
            &&& m.path.len() > 0 && m.path[0] == '/' ==> args[4] == m.host + ":"@ + m.path
            &&& !(m.path.len() > 0 && m.path[0] == '/') ==> args[4] == m.host + ":"@ + ("/"@
                + m.path)
            &&& args[5] == m.mount_root
        }),
{
    reveal_strlit("/");
    assert("/"@.len() == 1);
    if m.path.len() > 0 {
        assert(m.path.subrange(0, 1)[0] == m.path[0]);
        if m.path[0] == '/' {
            assert(m.path.subrange(0, 1) =~= "/"@);
        }
    }
}

/// An unmount is of the mount point it is given, and detaches at once exactly if it
/// is lazy; a listing is of the host it is given.
pub proof fn law_unmounts_and_listings_have_their_target(
    root: Seq<char>,
    lazy: bool,
    ip: Seq<char>,
)
    ensures
        umount_args(root, lazy).last() == root,
        lazy ==> umount_args(root, lazy) == seq!["-l"@, root],
        !lazy ==> umount_args(root, lazy) == seq![root],
        smbclient_list_args(ip).contains(ip),
        smbclient_list_args(ip)[1] == "-L"@ && smbclient_list_args(ip)[2] == ip,
{
    assert(smbclient_list_args(ip)[2] == ip);
}

} // verus!
