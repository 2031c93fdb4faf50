//! Parsers for what the mount table and the discovery helpers print.

use crate::json::opt_view;
use crate::text::{
    after_first, chars_of, find_char, has_prefix, index_of, is_text, lines, lines_of,
    piece_views, split, split_after, split_on, starts_with, strip_prefix, text_of, trim, trim_end,
    trim_end_of, trim_of, trim_start, trim_start_of, without_prefix, word_end, word_len, words,
    words_of,
};
use crate::text::{
    is_blank, is_unbroken, is_white, law_a_word_ends_at_white,
    law_leading_white_is_dropped, law_the_first_is_found, law_the_first_occurrence_decides,
    law_trailing_white_is_dropped, occurs_at,
};
use vstd::prelude::*;
use vstd::slice::slice_subrange;

verus! {

// ---------------------------------------------------------------------
// Mount table
// ---------------------------------------------------------------------

/// The version that one mount option gives.
pub open spec fn version_of_option(option: Seq<char>) -> Option<Seq<char>> {
    match without_prefix(option, "vers="@) {
        Some(v) => Some(v),
        None => without_prefix(option, "nfsvers="@),
    }
}

/// The first version among mount options.
pub open spec fn version_in_options(options: Seq<Seq<char>>) -> Option<Seq<char>>
    decreases options.len(),
{
    if options.len() == 0 {
        None
    } else {
        match version_of_option(options[0]) {
            Some(v) => Some(v),
            None => version_in_options(options.drop_first()),
        }
    }
}

/// The version that one line of the mount table gives for `mount_root`. A line
/// reads `source target fstype options ..`; only NFS lines for this target count.
pub open spec fn version_of_line(line: Seq<char>, mount_root: Seq<char>) -> Option<Seq<char>> {
    let cols = words_of(line);
    if cols.len() >= 4 && cols[1] == mount_root && (cols[2] == "nfs"@ || cols[2] == "nfs4"@) {
        version_in_options(split_on(cols[3], ','))
    } else {
        None
    }
}

/// The first version among lines of the mount table.
pub open spec fn version_in_lines(lines: Seq<Seq<char>>, mount_root: Seq<char>) -> Option<Seq<char>>
    decreases lines.len(),
{
    if lines.len() == 0 {
        None
    } else {
        match version_of_line(lines[0], mount_root) {
            Some(v) => Some(v),
            None => version_in_lines(lines.drop_first(), mount_root),
        }
    }
}

fn option_version(option: &[char]) -> (r: Option<String>)
    ensures
        opt_view(r) == version_of_option(option@),
{
    match strip_prefix(option, "vers=") {
        Some(v) => Some(text_of(v)),
        None => match strip_prefix(option, "nfsvers=") {
            Some(v) => Some(text_of(v)),
            None => None,
        },
    }
}

fn line_version(line: &[char], mount_root: &str) -> (r: Option<String>)
    ensures
        opt_view(r) == version_of_line(line@, mount_root@),
{
    let cols = words(line);
    let ghost seen = piece_views(cols@);
    if cols.len() < 4 {
        return None;
    }
    assert(seen[1] == cols@[1]@ && seen[2] == cols@[2]@ && seen[3] == cols@[3]@);
    if !is_text(cols[1].as_slice(), mount_root) {
        return None;
    }
    if !is_text(cols[2].as_slice(), "nfs") && !is_text(cols[2].as_slice(), "nfs4") {
        return None;
    }
    let options = split(cols[3].as_slice(), ',');
    let ghost all = piece_views(options@);
    let n: usize = options.len();
    assert(all.skip(0) =~= all);
    for i in 0..n
        invariant
            n == options@.len(),
            all == piece_views(options@),
            version_of_line(line@, mount_root@) == version_in_options(all),
            version_in_options(all) == version_in_options(all.skip(i as int)),
    {
        assert(all.skip(i as int)[0] == options@[i as int]@);
        assert(all.skip(i as int).drop_first() =~= all.skip(i + 1));
        let found = option_version(options[i].as_slice());
        if found.is_some() {
            return found;
        }
    }
    None
}

/// Reads the negotiated NFS version of a mount from the mount table.
pub fn parse_nfs_version_from_proc_mounts(proc_mounts: &str, mount_root: &str) -> (r: Option<String>)
    ensures
        opt_view(r) == version_in_lines(lines_of(proc_mounts@), mount_root@),
{
    let chars = chars_of(proc_mounts);
    let rows = lines(chars.as_slice());
    let ghost all = piece_views(rows@);
    let n: usize = rows.len();
    assert(all.skip(0) =~= all);
    for i in 0..n
        invariant
            n == rows@.len(),
            all == piece_views(rows@),
            all == lines_of(proc_mounts@),
            version_in_lines(all, mount_root@) == version_in_lines(all.skip(i as int), mount_root@),
    {
        assert(all.skip(i as int)[0] == rows@[i as int]@);
        assert(all.skip(i as int).drop_first() =~= all.skip(i + 1));
        let found = line_version(rows[i].as_slice(), mount_root);
        if found.is_some() {
            return found;
        }
    }
    None
}

// ---------------------------------------------------------------------
// Service browser
// ---------------------------------------------------------------------

/// The name and address on one line of the service browser: a resolved entry
/// (`=`) with a name in column 3 and an IPv4 address in column 7.
pub open spec fn host_of_line(line: Seq<char>) -> Option<(Seq<char>, Seq<char>)> {
    let cols = split_on(line, ';');
    if has_prefix(line, "="@) && cols.len() >= 8 {
        let name = trim_of(cols[3]);
        let addr = trim_of(cols[7]);
        if name.len() > 0 && addr.len() > 0 && index_of(addr, ':') == addr.len() {
            Some((name, addr))
        } else {
            None
        }
    } else {
        None
    }
}

/// Whether some host has address `addr`.
pub open spec fn has_addr(hosts: Seq<(Seq<char>, Seq<char>)>, addr: Seq<char>) -> bool {
    exists|i: int| 0 <= i < hosts.len() && (#[trigger] hosts[i]).1 == addr
}

/// The hosts on the lines, in order, the first for each address.
pub open spec fn hosts_of_lines(lines: Seq<Seq<char>>) -> Seq<(Seq<char>, Seq<char>)>
    decreases lines.len(),
{
    if lines.len() == 0 {
        Seq::empty()
    } else {
        let before = hosts_of_lines(lines.drop_last());
        match host_of_line(lines.last()) {
            Some(host) => if has_addr(before, host.1) {
                before
            } else {
                before.push(host)
            },
            None => before,
        }
    }
}

/// The views of name and address pairs.
pub open spec fn host_views(hosts: Seq<(String, String)>) -> Seq<(Seq<char>, Seq<char>)> {
    Seq::new(hosts.len(), |i: int| (hosts[i].0@, hosts[i].1@))
}

fn line_host(line: &[char]) -> (r: Option<(String, String)>)
    ensures
        match r {
            Some(host) => host_of_line(line@) == Some((host.0@, host.1@)),
            None => host_of_line(line@) is None,
        },
{
    if !starts_with(line, "=") {
        return None;
    }
    let cols = split(line, ';');
    let ghost seen = piece_views(cols@);
    if cols.len() < 8 {
        return None;
    }
    assert(seen[3] == cols@[3]@ && seen[7] == cols@[7]@);
    let name = trim(cols[3].as_slice());
    let addr = trim(cols[7].as_slice());
    if name.len() == 0 || addr.len() == 0 || find_char(addr, ':') < addr.len() {
        return None;
    }
    Some((text_of(name), text_of(addr)))
}

fn knows_addr(hosts: &Vec<(String, String)>, addr: &String) -> (r: bool)
    ensures
        r == has_addr(host_views(hosts@), addr@),
{
    let ghost all = host_views(hosts@);
    let n: usize = hosts.len();
    for i in 0..n
        invariant
            n == hosts@.len(),
            all == host_views(hosts@),
            forall|j: int| 0 <= j < i ==> (#[trigger] all[j]).1 != addr@,
    {
        assert(all[i as int].1 == hosts@[i as int].1@);
        if hosts[i].1 == *addr {
            return true;
        }
    }
    false
}

/// Reads the hosts that the service browser resolved.
pub fn parse_avahi_browse_output(stdout: &str) -> (r: Vec<(String, String)>)
    ensures
        host_views(r@) == hosts_of_lines(lines_of(stdout@)),
{
    let chars = chars_of(stdout);
    let rows = lines(chars.as_slice());
    let ghost all = piece_views(rows@);
    let mut out: Vec<(String, String)> = Vec::new();
    let n: usize = rows.len();
    assert(host_views(out@) =~= hosts_of_lines(all.take(0)));
    for i in 0..n
        invariant
            n == rows@.len(),
            all == piece_views(rows@),
            host_views(out@) == hosts_of_lines(all.take(i as int)),
    {
        assert(all.take(i + 1).drop_last() =~= all.take(i as int));
        assert(all.take(i + 1).last() == rows@[i as int]@);
        if let Some(host) = line_host(rows[i].as_slice()) {
            if !knows_addr(&out, &host.1) {
                let ghost before = out@;
                out.push(host);
                assert(host_views(out@) =~= host_views(before).push((host.0@, host.1@)));
            }
        }
    }
    assert(all.take(n as int) =~= all);
    out
}

// ---------------------------------------------------------------------
// Share lister
// ---------------------------------------------------------------------

/// One share that a host advertises.
#[derive(Debug, PartialEq, Eq)]
pub struct DiscoveredShare {
    pub name: String,
    /// The server's comment, unless blank.
    pub comment: Option<String>,
}

/// What a [`DiscoveredShare`] says.
pub struct ShareModel {
    pub name: Seq<char>,
    pub comment: Option<Seq<char>>,
}

impl View for DiscoveredShare {
    type V = ShareModel;

    open spec fn view(&self) -> ShareModel {
        ShareModel { name: self.name@, comment: opt_view(self.comment) }
    }
}

impl Clone for DiscoveredShare {
    fn clone(&self) -> (r: DiscoveredShare)
        ensures
            r == *self,
    {
        DiscoveredShare {
            name: self.name.clone(),
            comment: crate::text::clone_opt(&self.comment),
        }
    }
}

/// The text after the leading word of `s` and the white space behind it.
pub open spec fn after_word(s: Seq<char>) -> Seq<char> {
    trim_start_of(s.skip(word_len(s)))
}

/// The share on one row of the listing (`name type comment`): a disk share whose
/// name does not end in `$`.
pub open spec fn share_of_row(row: Seq<char>) -> Option<ShareModel> {
    let name = row.take(word_len(row));
    let rest = after_word(row);
    let kind = rest.take(word_len(rest));
    let comment = trim_end_of(after_word(rest));
    if name.len() > 0 && kind == "Disk"@ && name.last() != '$' {
        Some(
            ShareModel {
                name,
                comment: if comment.len() == 0 {
                    None
                } else {
                    Some(comment)
                },
            },
        )
    } else {
        None
    }
}

/// The shares of a listing: the rows between the `Sharename` header and the next
/// blank line, without separator rows. `listed` says whether the header has been
/// met.
pub open spec fn shares_of_lines(lines: Seq<Seq<char>>, listed: bool) -> Seq<ShareModel>
    decreases lines.len(),
{
    if lines.len() == 0 {
        Seq::empty()
    } else {
        let row = trim_start_of(lines[0]);
        let rest = lines.drop_first();
        if has_prefix(row, "Sharename"@) {
            shares_of_lines(rest, true)
        } else if !listed {
            shares_of_lines(rest, false)
        } else if row.len() == 0 {
            Seq::empty()
        } else if row[0] == '-' {
            shares_of_lines(rest, true)
        } else {
            match share_of_row(row) {
                Some(share) => seq![share] + shares_of_lines(rest, true),
                None => shares_of_lines(rest, true),
            }
        }
    }
}

/// The views of discovered shares.
pub open spec fn share_views(shares: Seq<DiscoveredShare>) -> Seq<ShareModel> {
    Seq::new(shares.len(), |i: int| shares[i]@)
}

fn skip_word(s: &[char]) -> (r: &[char])
    ensures
        r@ == after_word(s@),
{
    let end: usize = word_end(s);
    let rest = slice_subrange(s, end, s.len());
    assert(rest@ =~= s@.skip(end as int));
    trim_start(rest)
}

fn leading_word(s: &[char]) -> (r: &[char])
    ensures
        r@ == s@.take(word_len(s@)),
{
    let end: usize = word_end(s);
    let word = slice_subrange(s, 0, end);
    assert(word@ =~= s@.take(end as int));
    word
}

fn row_share(row: &[char]) -> (r: Option<DiscoveredShare>)
    ensures
        match r {
            Some(share) => share_of_row(row@) == Some(share@),
            None => share_of_row(row@) is None,
        },
{
    let name = leading_word(row);
    let rest = skip_word(row);
    let kind = leading_word(rest);
    let comment = trim_end(skip_word(rest));
    if name.len() == 0 || !is_text(kind, "Disk") || name[name.len() - 1] == '$' {
        return None;
    }
    let share = DiscoveredShare {
        name: text_of(name),
        comment: if comment.len() == 0 {
            None
        } else {
            Some(text_of(comment))
        },
    };
    Some(share)
}

/// Reads the disk shares of a host from the share lister's standard output.
pub fn parse_smbclient_disk_lines(stdout: &str) -> (r: Vec<DiscoveredShare>)
    ensures
        share_views(r@) == shares_of_lines(lines_of(stdout@), false),
{
    let chars = chars_of(stdout);
    let rows = lines(chars.as_slice());
    let ghost all = piece_views(rows@);
    let mut out: Vec<DiscoveredShare> = Vec::new();
    let mut listed = false;
    let n: usize = rows.len();
    let mut i: usize = 0;
    assert(all.skip(0) =~= all);
    assert(share_views(out@) + shares_of_lines(all, false) =~= shares_of_lines(all, false));
    while i < n
        invariant_except_break
            i <= n,
            n == rows@.len(),
            all == piece_views(rows@),
            shares_of_lines(all, false) == share_views(out@) + shares_of_lines(
                all.skip(i as int),
                listed,
            ),
        ensures
            shares_of_lines(all, false) == share_views(out@),
        decreases n - i,
    {
        let ghost rest = all.skip(i as int);
        assert(rest[0] == rows@[i as int]@);
        assert(rest.drop_first() =~= all.skip(i + 1));
        let row = trim_start(rows[i].as_slice());
        if starts_with(row, "Sharename") {
            listed = true;
        } else if listed {
            if row.len() == 0 {
                assert(share_views(out@) + shares_of_lines(rest, listed) =~= share_views(out@));
                break ;
            }
            if row[0] != '-' {
                if let Some(share) = row_share(row) {
                    let ghost before = out@;
                    out.push(share);
                    assert(share_views(out@) =~= share_views(before).push(share@));
                    assert(share_views(before) + (seq![share@] + shares_of_lines(
                        all.skip(i + 1),
                        true,
                    )) =~= share_views(out@) + shares_of_lines(all.skip(i + 1), true));
                }
            }
        }
        i = i + 1;
        if i == n {
            assert(all.skip(n as int) =~= Seq::<Seq<char>>::empty());
            assert(share_views(out@) + shares_of_lines(all.skip(i as int), listed) =~= share_views(
                out@,
            ));
        }
    }
    out
}

/// The dialect on one line of the share lister's diagnostics: what stands
/// between `negotiated dialect[` and the next `]`, unless it is empty.
pub open spec fn dialect_of_line(line: Seq<char>) -> Option<Seq<char>> {
    match after_first(line, "negotiated dialect["@) {
        Some(rest) => {
            let end = index_of(rest, ']');
            if 0 < end < rest.len() {
                Some(rest.take(end))
            } else {
                None
            }
        },
        None => None,
    }
}

/// The first dialect among lines.
pub open spec fn dialect_in_lines(lines: Seq<Seq<char>>) -> Option<Seq<char>>
    decreases lines.len(),
{
    if lines.len() == 0 {
        None
    } else {
        match dialect_of_line(lines[0]) {
            Some(d) => Some(d),
            None => dialect_in_lines(lines.drop_first()),
        }
    }
}

fn line_dialect(line: &[char]) -> (r: Option<String>)
    ensures
        opt_view(r) == dialect_of_line(line@),
{
    match split_after(line, "negotiated dialect[") {
        None => None,
        Some(rest) => {
            let end: usize = find_char(rest, ']');
            if end == 0 || end == rest.len() {
                None
            } else {
                let value = slice_subrange(rest, 0, end);
                assert(value@ =~= rest@.take(end as int));
                Some(text_of(value))
            }
        },
    }
}

/// Reads the negotiated dialect from the share lister's diagnostics.
pub fn parse_smbclient_dialect(stderr: &str) -> (r: Option<String>)
    ensures
        opt_view(r) == dialect_in_lines(lines_of(stderr@)),
{
    let chars = chars_of(stderr);
    let rows = lines(chars.as_slice());
    let ghost all = piece_views(rows@);
    let n: usize = rows.len();
    assert(all.skip(0) =~= all);
    for i in 0..n
        invariant
            n == rows@.len(),
            all == piece_views(rows@),
            all == lines_of(stderr@),
            dialect_in_lines(all) == dialect_in_lines(all.skip(i as int)),
    {
        assert(all.skip(i as int)[0] == rows@[i as int]@);
        assert(all.skip(i as int).drop_first() =~= all.skip(i + 1));
        let found = line_dialect(rows[i].as_slice());
        if found.is_some() {
            return found;
        }
    }
    None
}

// ---------------------------------------------------------------------
// Laws
// ---------------------------------------------------------------------

proof fn lemma_no_colon(s: Seq<char>, i: int)
    requires
        index_of(s, ':') == s.len(),
        0 <= i < s.len(),
    ensures
        s[i] != ':',
    decreases s.len(),
{
    if i > 0 {
        lemma_no_colon(s.drop_first(), i - 1);
    }
}

/// Discovery reports each address once, and no IPv6 address.
pub proof fn law_hosts_are_distinct_ipv4(lines: Seq<Seq<char>>)
    ensures
        forall|i: int, j: int|
            0 <= i < j < hosts_of_lines(lines).len() ==> (#[trigger] hosts_of_lines(lines)[i]).1 != (
            #[trigger] hosts_of_lines(lines)[j]).1,
        forall|i: int, k: int|
            0 <= i < hosts_of_lines(lines).len() && 0 <= k < hosts_of_lines(lines)[i].1.len()
                ==> #[trigger] hosts_of_lines(lines)[i].1[k] != ':',
    decreases lines.len(),
{
    if lines.len() > 0 {
        law_hosts_are_distinct_ipv4(lines.drop_last());
        let before = hosts_of_lines(lines.drop_last());
        let after = hosts_of_lines(lines);
        if let Some(host) = host_of_line(lines.last()) {
            if !has_addr(before, host.1) {
                assert(after == before.push(host));
                assert forall|i: int, j: int| 0 <= i < j < after.len() implies (
                #[trigger] after[i]).1 != (#[trigger] after[j]).1 by {
                    if j == before.len() {
                        assert(before[i].1 != host.1);
                    } else {
                        assert(before[i].1 != before[j].1);
                    }
                }
                assert forall|i: int, k: int| 0 <= i < after.len() && 0 <= k < after[i].1.len()
                    implies #[trigger] after[i].1[k] != ':' by {
                    if i == before.len() {
                        lemma_no_colon(host.1, k);
                    } else {
                        assert(before[i].1[k] != ':');
                    }
                }
            }
        }
    }
}

/// No administrative share (a name ending in `$`) is ever listed.
pub proof fn law_no_administrative_shares(lines: Seq<Seq<char>>, listed: bool)
    ensures
        forall|i: int|
            0 <= i < shares_of_lines(lines, listed).len() ==> (#[trigger] shares_of_lines(
                lines,
                listed,
            )[i]).name.len() > 0 && shares_of_lines(lines, listed)[i].name.last() != '$',
    decreases lines.len(),
{
    if lines.len() > 0 {
        law_no_administrative_shares(lines.drop_first(), true);
        law_no_administrative_shares(lines.drop_first(), false);
    }
}

/// Whether a line is the header of the listing.
pub open spec fn is_header(line: Seq<char>) -> bool {
    has_prefix(trim_start_of(line), "Sharename"@)
}

proof fn lemma_blank_row(line: Seq<char>)
    ensures
        is_blank(line) == (trim_start_of(line).len() == 0),
    decreases line.len(),
{
    if line.len() > 0 {
        let rest = line.drop_first();
        lemma_blank_row(rest);
        if is_white(line[0]) {
            if is_blank(rest) {
                assert forall|i: int| 0 <= i < line.len() implies is_white(#[trigger] line[i]) by {
                    if i > 0 {
                        assert(is_white(rest[i - 1]));
                    }
                }
            }
            if is_blank(line) {
                assert forall|i: int| 0 <= i < rest.len() implies is_white(#[trigger] rest[i]) by {
                    assert(is_white(line[i + 1]));
                }
            }
        }
    }
}

/// A listing is read row by row: what one row yields depends on no other row.
pub proof fn law_rows_are_read_one_by_one(rows: Seq<Seq<char>>, more: Seq<Seq<char>>)
    requires
        forall|i: int|
            0 <= i < rows.len() ==> !is_blank(#[trigger] rows[i]) && !is_header(rows[i]),
    ensures
        shares_of_lines(rows + more, true) == shares_of_lines(rows, true) + shares_of_lines(
            more,
            true,
        ),
    decreases rows.len(),
{
    if rows.len() == 0 {
        assert(rows + more =~= more);
        assert(shares_of_lines(rows, true) + shares_of_lines(more, true) =~= shares_of_lines(
            more,
            true,
        ));
    } else {
        let rest = rows.drop_first();
        assert(!is_blank(rows[0]) && !is_header(rows[0]));
        lemma_blank_row(rows[0]);
        assert forall|i: int| 0 <= i < rest.len() implies !is_blank(#[trigger] rest[i])
            && !is_header(rest[i]) by {
            assert(!is_blank(rows[i + 1]) && !is_header(rows[i + 1]));
        }
        law_rows_are_read_one_by_one(rest, more);
        assert((rows + more).drop_first() =~= rest + more);
        assert((rows + more)[0] == rows[0]);
        let row = trim_start_of(rows[0]);
        if row[0] != '-' {
            if let Some(share) = share_of_row(row) {
                assert(seq![share] + (shares_of_lines(rest, true) + shares_of_lines(more, true))
                    =~= (seq![share] + shares_of_lines(rest, true)) + shares_of_lines(more, true));
            }
        }
    }
}

/// The listing stands between the header and the next blank line, or the end of
/// the output: what stands before and behind yields nothing.
pub proof fn law_the_listing_has_its_bounds(
    before: Seq<Seq<char>>,
    header: Seq<char>,
    rows: Seq<Seq<char>>,
    blank: Seq<char>,
    after: Seq<Seq<char>>,
)
    requires
        forall|i: int| 0 <= i < before.len() ==> !is_header(#[trigger] before[i]),
        is_header(header),
        forall|i: int|
            0 <= i < rows.len() ==> !is_blank(#[trigger] rows[i]) && !is_header(rows[i]),
        is_blank(blank),
    ensures
        shares_of_lines(before + seq![header] + rows + seq![blank] + after, false)
            == shares_of_lines(rows, true),
        shares_of_lines(before + seq![header] + rows, false) == shares_of_lines(rows, true),
        shares_of_lines(before, false) == Seq::<ShareModel>::empty(),
    decreases before.len(),
{
    let all = before + seq![header] + rows + seq![blank] + after;
    let open = before + seq![header] + rows;
    if before.len() == 0 {
        let tail = seq![blank] + after;
        assert(all[0] == header);
        assert(open[0] == header);
        assert(all.drop_first() =~= rows + tail);
        assert(open.drop_first() =~= rows);
        law_rows_are_read_one_by_one(rows, tail);
        assert(tail[0] == blank);
        lemma_blank_row(blank);
        reveal_strlit("Sharename");
        assert("Sharename"@.len() == 9);
        assert(shares_of_lines(tail, true) =~= Seq::<ShareModel>::empty());
        assert(shares_of_lines(rows, true) + shares_of_lines(tail, true) =~= shares_of_lines(
            rows,
            true,
        ));
    } else {
        let rest = before.drop_first();
        assert(!is_header(before[0]));
        assert forall|i: int| 0 <= i < rest.len() implies !is_header(#[trigger] rest[i]) by {
            assert(!is_header(before[i + 1]));
        }
        law_the_listing_has_its_bounds(rest, header, rows, blank, after);
        assert(all.drop_first() =~= rest + seq![header] + rows + seq![blank] + after);
        assert(open.drop_first() =~= rest + seq![header] + rows);
        assert(all[0] == before[0]);
        assert(open[0] == before[0]);
    }
}

/// One row of the listing is read by its first two words alone: a disk share whose
/// name does not end in `$` is listed under that name, and its comment is what
/// follows, where anything does. No other row is listed.
pub proof fn law_disk_rows_are_shares(
    pad: Seq<char>,
    name: Seq<char>,
    gap: Seq<char>,
    kind: Seq<char>,
    space: Seq<char>,
    comment: Seq<char>,
    tail: Seq<char>,
)
    requires
        is_blank(pad),
        is_unbroken(name) && name.len() > 0,
        is_blank(gap) && gap.len() > 0,
        is_unbroken(kind) && kind.len() > 0,
        is_blank(space),
        comment.len() > 0 ==> space.len() > 0 && !is_white(comment[0]) && !is_white(comment.last()),
        is_blank(tail),
        !has_prefix(name, "Sharename"@),
    ensures
        shares_of_lines(seq![pad + name + gap + kind + space + comment + tail], true) == (if kind
            == "Disk"@ && name[name.len() - 1] != '$' && name[0] != '-' {
            seq![
                ShareModel {
                    name,
                    comment: if comment.len() > 0 {
                        Some(comment)
                    } else {
                        None
                    },
                },
            ]
        } else {
            Seq::empty()
        }),
        !is_blank(pad + name + gap + kind + space + comment + tail),
        !is_header(pad + name + gap + kind + space + comment + tail),
{
    let line = pad + name + gap + kind + space + comment + tail;
    let behind_kind = space + comment + tail;
    let behind_name = gap + (kind + behind_kind);
    let row = name + behind_name;
    assert(!is_white(name[0]) && is_white(gap[0]) && !is_white(kind[0]));
    assert(line =~= pad + row);
    law_leading_white_is_dropped(pad, row);
    assert(trim_start_of(line) == row);
    lemma_blank_row(line);
    assert(behind_name[0] == gap[0]);
    law_a_word_ends_at_white(name, behind_name);
    assert(row.take(name.len() as int) =~= name);
    assert(row.skip(name.len() as int) =~= behind_name);
    law_leading_white_is_dropped(gap, kind + behind_kind);
    let rest = kind + behind_kind;
    assert(after_word(row) == rest);
    if behind_kind.len() > 0 {
        if space.len() > 0 {
            assert(is_white(space[0]) && behind_kind[0] == space[0]);
        } else {
            assert(is_white(tail[0]) && behind_kind[0] == tail[0]);
        }
    }
    law_a_word_ends_at_white(kind, behind_kind);
    assert(rest.take(kind.len() as int) =~= kind);
    assert(rest.skip(kind.len() as int) =~= behind_kind);
    if comment.len() > 0 {
        assert(behind_kind =~= space + (comment + tail));
        law_leading_white_is_dropped(space, comment + tail);
        law_trailing_white_is_dropped(comment, tail);
    } else {
        assert forall|i: int| 0 <= i < behind_kind.len() implies is_white(
            #[trigger] behind_kind[i],
        ) by {
            if i < space.len() {
                assert(is_white(space[i]));
            } else {
                assert(is_white(tail[i - space.len()]));
            }
        }
        law_leading_white_is_dropped(behind_kind, Seq::empty());
        assert(behind_kind + Seq::<char>::empty() =~= behind_kind);
    }
    assert(trim_end_of(after_word(rest)) == comment);
    assert(!has_prefix(row, "Sharename"@)) by {
        reveal_strlit("Sharename");
        assert("Sharename"@.len() == 9);
        if has_prefix(row, "Sharename"@) {
            assert(row.subrange(0, 9) == "Sharename"@);
            if name.len() >= 9 {
                assert(name.subrange(0, 9) =~= row.subrange(0, 9));
            } else {
                let k = name.len() as int;
                assert(row[k] == gap[0]);
                assert(row.subrange(0, 9)[k] == row[k]);
                assert(!is_white("Sharename"@[k]));
            }
        }
    }
    let one = seq![line];
    assert(one[0] == line);
    assert(one.drop_first() =~= Seq::<Seq<char>>::empty());
    assert(shares_of_lines(one.drop_first(), true) =~= Seq::<ShareModel>::empty());
    let got = shares_of_lines(one, true);
    if row[0] != '-' {
        if let Some(share) = share_of_row(row) {
            assert(seq![share] + Seq::<ShareModel>::empty() =~= seq![share]);
        }
    }
}

/// Every disk share of the listing is reported, whatever its comment: a row that
/// stands between the header and the blank line, of a name that is no
/// administrative one, yields a share of that name and comment.
pub proof fn law_every_disk_share_is_reported(
    before: Seq<Seq<char>>,
    header: Seq<char>,
    rows: Seq<Seq<char>>,
    blank: Seq<char>,
    after: Seq<Seq<char>>,
    k: int,
    pad: Seq<char>,
    name: Seq<char>,
    gap: Seq<char>,
    space: Seq<char>,
    comment: Seq<char>,
    tail: Seq<char>,
)
    requires
        forall|i: int| 0 <= i < before.len() ==> !is_header(#[trigger] before[i]),
        is_header(header),
        forall|i: int|
            0 <= i < rows.len() ==> !is_blank(#[trigger] rows[i]) && !is_header(rows[i]),
        is_blank(blank),
        0 <= k < rows.len(),
        rows[k] == pad + name + gap + "Disk"@ + space + comment + tail,
        is_blank(pad),
        is_unbroken(name) && name.len() > 0,
        is_blank(gap) && gap.len() > 0,
        is_blank(space),
        comment.len() > 0 ==> space.len() > 0 && !is_white(comment[0]) && !is_white(comment.last()),
        is_blank(tail),
        !has_prefix(name, "Sharename"@),
        name[0] != '-',
        name.last() != '$',
    ensures
        shares_of_lines(before + seq![header] + rows + seq![blank] + after, false).contains(
            ShareModel {
                name,
                comment: if comment.len() > 0 {
                    Some(comment)
                } else {
                    None
                },
            },
        ),
{
    law_the_listing_has_its_bounds(before, header, rows, blank, after);
    let kind = "Disk"@;
    reveal_strlit("Disk");
    assert(kind.len() == 4);
    assert(is_unbroken(kind));
    law_disk_rows_are_shares(pad, name, gap, kind, space, comment, tail);
    let front = rows.take(k);
    let here = seq![rows[k]];
    let rest = rows.skip(k + 1);
    assert(rows =~= front + (here + rest));
    assert forall|i: int| 0 <= i < front.len() implies !is_blank(#[trigger] front[i])
        && !is_header(front[i]) by {
        assert(!is_blank(rows[i]) && !is_header(rows[i]));
    }
    assert forall|i: int| 0 <= i < here.len() implies !is_blank(#[trigger] here[i]) && !is_header(
        here[i],
    ) by {
        assert(!is_blank(rows[k]) && !is_header(rows[k]));
    }
    law_rows_are_read_one_by_one(front, here + rest);
    law_rows_are_read_one_by_one(here, rest);
    let n = shares_of_lines(front, true).len() as int;
    let got = shares_of_lines(rows, true);
    assert(got[n] == shares_of_lines(here, true)[0]);
}

/// Every host that the browser resolved to an IPv4 address is found, under the
/// name on the first line that gave the address, and nothing else is: an entry
/// stands on a line that begins with `=`, its name in column 3 and its address in
/// column 7.
pub proof fn law_every_resolved_host_is_found(lines: Seq<Seq<char>>, k: int)
    requires
        0 <= k < lines.len(),
        lines[k].len() > 0 && lines[k][0] == '=',
        split_on(lines[k], ';').len() >= 8,
        trim_of(split_on(lines[k], ';')[3]).len() > 0,
        trim_of(split_on(lines[k], ';')[7]).len() > 0,
        !trim_of(split_on(lines[k], ';')[7]).contains(':'),
    ensures
        ({
            let name = trim_of(split_on(lines[k], ';')[3]);
            let addr = trim_of(split_on(lines[k], ';')[7]);
            let hosts = hosts_of_lines(lines);
            &&& exists|i: int| 0 <= i < hosts.len() && (#[trigger] hosts[i]).1 == addr
            &&& (forall|j: int|
                0 <= j < k ==> split_on(#[trigger] lines[j], ';').len() < 8 || trim_of(
                    split_on(lines[j], ';')[7],
                ) != addr) ==> hosts.contains((name, addr))
        }),
    decreases lines.len(),
{
    let line = lines[k];
    let name = trim_of(split_on(line, ';')[3]);
    let addr = trim_of(split_on(line, ';')[7]);
    law_the_first_is_found(addr, ':', Seq::empty());
    reveal_strlit("=");
    assert("="@.len() == 1);
    assert(line.subrange(0, 1) =~= "="@);
    assert(host_of_line(line) == Some((name, addr)));
    let front = lines.drop_last();
    let before = hosts_of_lines(front);
    let hosts = hosts_of_lines(lines);
    if k < front.len() {
        assert(front[k] == lines[k]);
        law_every_resolved_host_is_found(front, k);
        let i = choose|i: int| 0 <= i < before.len() && (#[trigger] before[i]).1 == addr;
        assert(hosts[i].1 == addr);
        if forall|j: int|
            0 <= j < k ==> split_on(#[trigger] lines[j], ';').len() < 8 || trim_of(
                split_on(lines[j], ';')[7],
            ) != addr {
            assert forall|j: int| 0 <= j < k implies split_on(#[trigger] front[j], ';').len() < 8
                || trim_of(split_on(front[j], ';')[7]) != addr by {
                assert(front[j] == lines[j]);
            }
            let at = choose|at: int| 0 <= at < before.len() && before[at] == (name, addr);
            assert(hosts[at] == (name, addr));
        }
    } else {
        if has_addr(before, addr) {
            let i = choose|i: int| 0 <= i < before.len() && (#[trigger] before[i]).1 == addr;
            assert(hosts[i].1 == addr);
            lemma_host_has_line(front, i);
            let j = choose|j: int|
                0 <= j < front.len() && host_of_line(#[trigger] front[j]) == Some(before[i]);
            assert(front[j] == lines[j]);
            assert(split_on(lines[j], ';').len() >= 8);
        } else {
            assert(hosts[before.len() as int] == (name, addr));
        }
    }
}

proof fn lemma_host_has_line(lines: Seq<Seq<char>>, i: int)
    requires
        0 <= i < hosts_of_lines(lines).len(),
    ensures
        exists|j: int|
            0 <= j < lines.len() && host_of_line(#[trigger] lines[j]) == Some(
                hosts_of_lines(lines)[i],
            ),
    decreases lines.len(),
{
    let front = lines.drop_last();
    let before = hosts_of_lines(front);
    if i < before.len() {
        lemma_host_has_line(front, i);
        let j = choose|j: int|
            0 <= j < front.len() && host_of_line(#[trigger] front[j]) == Some(before[i]);
        assert(lines[j] == front[j]);
        assert(hosts_of_lines(lines)[i] == before[i]);
    } else {
        assert(lines[lines.len() - 1] == lines.last());
    }
}

/// Every host found stands on a line: it has the name and the address that a
/// resolved entry gives.
pub proof fn law_hosts_stand_on_lines(lines: Seq<Seq<char>>, i: int)
    requires
        0 <= i < hosts_of_lines(lines).len(),
    ensures
        exists|j: int|
            0 <= j < lines.len() && (#[trigger] lines[j]).len() > 0 && lines[j][0] == '='
                && split_on(lines[j], ';').len() >= 8 && hosts_of_lines(lines)[i] == (
                trim_of(split_on(lines[j], ';')[3]),
                trim_of(split_on(lines[j], ';')[7]),
            ),
{
    lemma_host_has_line(lines, i);
    let j = choose|j: int|
        0 <= j < lines.len() && host_of_line(#[trigger] lines[j]) == Some(hosts_of_lines(lines)[i]);
    reveal_strlit("=");
    assert("="@.len() == 1);
    assert(lines[j].subrange(0, 1)[0] == lines[j][0]);
}

/// The dialect is what stands in the brackets of the first line that tells it.
pub proof fn law_the_dialect_stands_in_brackets(
    before: Seq<Seq<char>>,
    head: Seq<char>,
    dialect: Seq<char>,
    tail: Seq<char>,
    after: Seq<Seq<char>>,
)
    requires
        forall|i: int|
            0 <= i < before.len() ==> forall|j: int|
                !occurs_at(#[trigger] before[i], "negotiated dialect["@, j),
        forall|j: int|
            0 <= j < head.len() ==> !#[trigger] occurs_at(
                head + "negotiated dialect["@ + (dialect + seq![']'] + tail),
                "negotiated dialect["@,
                j,
            ),
        dialect.len() > 0,
        !dialect.contains(']'),
    ensures
        dialect_in_lines(
            before + seq![head + "negotiated dialect["@ + (dialect + seq![']'] + tail)] + after,
        ) == Some(dialect),
        dialect_in_lines(before) is None,
    decreases before.len(),
{
    let mark = "negotiated dialect["@;
    let line = head + mark + (dialect + seq![']'] + tail);
    let all = before + seq![line] + after;
    if before.len() == 0 {
        assert(all[0] == line);
        law_the_first_occurrence_decides(head, mark, dialect + seq![']'] + tail);
        law_the_first_is_found(dialect, ']', tail);
        assert((dialect + seq![']'] + tail).take(dialect.len() as int) =~= dialect);
    } else {
        let rest = before.drop_first();
        assert(all[0] == before[0]);
        assert(forall|j: int| !occurs_at(before[0], mark, j));
        assert(dialect_of_line(before[0]) is None);
        assert forall|i: int| 0 <= i < rest.len() implies forall|j: int|
            !occurs_at(#[trigger] rest[i], mark, j) by {
            assert(rest[i] == before[i + 1]);
        }
        law_the_dialect_stands_in_brackets(rest, head, dialect, tail, after);
        assert(all.drop_first() =~= rest + seq![line] + after);
    }
}

/// The version of a mount is what the first `vers=` or `nfsvers=` option says on
/// the first NFS line for that mount point; lines for other mount points or file
/// systems say nothing of it.
pub proof fn law_the_version_is_that_of_the_mount(
    before: Seq<Seq<char>>,
    line: Seq<char>,
    after: Seq<Seq<char>>,
    root: Seq<char>,
    k: int,
    version: Seq<char>,
)
    requires
        forall|i: int|
            #![trigger before[i]]
            0 <= i < before.len() ==> words_of(before[i]).len() < 4 || words_of(before[i])[1] != root
                || (words_of(before[i])[2] != "nfs"@ && words_of(before[i])[2] != "nfs4"@),
        words_of(line).len() >= 4,
        words_of(line)[1] == root,
        words_of(line)[2] == "nfs"@ || words_of(line)[2] == "nfs4"@,
        0 <= k < split_on(words_of(line)[3], ',').len(),
        split_on(words_of(line)[3], ',')[k] == "vers="@ + version || split_on(
            words_of(line)[3],
            ',',
        )[k] == "nfsvers="@ + version,
        forall|i: int|
            #![trigger split_on(words_of(line)[3], ',')[i]]
            0 <= i < k ==> !has_prefix(split_on(words_of(line)[3], ',')[i], "vers="@)
                && !has_prefix(split_on(words_of(line)[3], ',')[i], "nfsvers="@),
    ensures
        version_in_lines(before + seq![line] + after, root) == Some(version),
        version_in_lines(before, root) is None,
    decreases before.len(),
{
    let all = before + seq![line] + after;
    if before.len() == 0 {
        assert(all[0] == line);
        lemma_first_version(split_on(words_of(line)[3], ','), k, version);
    } else {
        let rest = before.drop_first();
        assert(all[0] == before[0]);
        assert(version_of_line(before[0], root) is None);
        assert forall|i: int| #![trigger rest[i]] 0 <= i < rest.len() implies words_of(
            rest[i],
        ).len() < 4 || words_of(rest[i])[1] != root || (words_of(rest[i])[2] != "nfs"@ && words_of(
            rest[i],
        )[2] != "nfs4"@) by {
            assert(rest[i] == before[i + 1]);
        }
        law_the_version_is_that_of_the_mount(rest, line, after, root, k, version);
        assert(all.drop_first() =~= rest + seq![line] + after);
    }
}

proof fn lemma_first_version(options: Seq<Seq<char>>, k: int, version: Seq<char>)
    requires
        0 <= k < options.len(),
        options[k] == "vers="@ + version || options[k] == "nfsvers="@ + version,
        forall|i: int|
            #![trigger options[i]]
            0 <= i < k ==> !has_prefix(options[i], "vers="@) && !has_prefix(
                options[i],
                "nfsvers="@,
            ),
    ensures
        version_in_options(options) == Some(version),
    decreases k,
{
    reveal_strlit("vers=");
    reveal_strlit("nfsvers=");
    let v = "vers="@;
    let n = "nfsvers="@;
    if k == 0 {
        let o = options[0];
        if o == v + version {
            assert(o.subrange(0, 5) =~= v);
            assert(o.skip(5) =~= version);
        } else {
            assert(o.subrange(0, 8) =~= n);
            assert(o.skip(8) =~= version);
            assert(o[0] == 'n');
            if has_prefix(o, v) {
                assert(o.subrange(0, 5)[0] == v[0]);
            }
        }
    } else {
        let rest = options.drop_first();
        assert(!has_prefix(options[0], v) && !has_prefix(options[0], n));
        assert forall|i: int| #![trigger rest[i]] 0 <= i < k - 1 implies !has_prefix(rest[i], v)
            && !has_prefix(rest[i], n) by {
            assert(rest[i] == options[i + 1]);
        }
        lemma_first_version(rest, k - 1, version);
    }
}

} // verus!
