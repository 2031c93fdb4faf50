//! Discovery of hosts and their shares.

use crate::json::opt_view;
use crate::shares::mount_args::{build_smbclient_list_args, smbclient_list_args};
use crate::shares::mounting::{CommandOutput, MountError, MountErrorModel};
use crate::shares::parsers::{
    dialect_in_lines, host_views, hosts_of_lines, parse_avahi_browse_output,
    parse_smbclient_dialect, parse_smbclient_disk_lines, share_views, shares_of_lines,
    DiscoveredShare, ShareModel,
};
use crate::shares::records::ShareId;
use crate::text::{clone_opt, lines_of, lossy_text, utf8_lossy, views};
use vstd::prelude::*;

verus! {

/// Deadline of the service browser, in milliseconds.
pub const DEFAULT_AVAHI_BROWSE_TIMEOUT_MS: u64 = 18_000;

/// Deadline of the share lister per host, in milliseconds.
pub const DEFAULT_SMBCLIENT_TIMEOUT_MS: u64 = 15_000;

/// One host found on the network.
#[derive(Debug, PartialEq, Eq)]
pub struct DiscoveredNas {
    pub name: String,
    pub ip: String,
    /// Dialect that the host negotiated, where it said so.
    pub advertised_dialect: Option<String>,
    pub shares: Vec<DiscoveredShare>,
}

/// What a [`DiscoveredNas`] says.
#[verifier::ext_equal]
pub struct NasModel {
    pub name: Seq<char>,
    pub ip: Seq<char>,
    pub advertised_dialect: Option<Seq<char>>,
    pub shares: Seq<ShareModel>,
}

impl View for DiscoveredNas {
    type V = NasModel;

    open spec fn view(&self) -> NasModel {
        NasModel {
            name: self.name@,
            ip: self.ip@,
            advertised_dialect: opt_view(self.advertised_dialect),
            shares: share_views(self.shares@),
        }
    }
}

/// What hosts say, in order.
pub open spec fn nas_views(nas: Seq<DiscoveredNas>) -> Seq<NasModel> {
    Seq::new(nas.len(), |i: int| nas[i]@)
}

fn copy_shares(shares: &Vec<DiscoveredShare>) -> (r: Vec<DiscoveredShare>)
    ensures
        share_views(r@) == share_views(shares@),
{
    let mut r: Vec<DiscoveredShare> = Vec::new();
    let n: usize = shares.len();
    for i in 0..n
        invariant
            n == shares@.len(),
            r@.len() == i,
            forall|j: int| 0 <= j < i ==> r@[j]@ == shares@[j]@,
    {
        r.push(shares[i].clone());
    }
    assert(share_views(r@) =~= share_views(shares@));
    r
}

/// A copy of a host list.
pub fn copy_nas(nas: &Vec<DiscoveredNas>) -> (r: Vec<DiscoveredNas>)
    ensures
        nas_views(r@) == nas_views(nas@),
{
    let mut r: Vec<DiscoveredNas> = Vec::new();
    let n: usize = nas.len();
    for i in 0..n
        invariant
            n == nas@.len(),
            r@.len() == i,
            forall|j: int| 0 <= j < i ==> r@[j]@ == nas@[j]@,
    {
        r.push(
            DiscoveredNas {
                name: nas[i].name.clone(),
                ip: nas[i].ip.clone(),
                advertised_dialect: clone_opt(&nas[i].advertised_dialect),
                shares: copy_shares(&nas[i].shares),
            },
        );
    }
    assert(nas_views(r@) =~= nas_views(nas@));
    r
}

/// Whether a subprocess ended well.
pub open spec fn succeeded(out: Result<CommandOutput, MountError>) -> bool {
    out is Ok && out->Ok_0.exit_code == Some(0i32)
}

/// A discovery sweep: hosts still to be listed and hosts already listed.
pub struct DiscoverySweep {
    hosts: Vec<(String, String)>,
    found: Vec<DiscoveredNas>,
}

/// What a [`DiscoverySweep`] holds.
#[verifier::ext_equal]
pub struct SweepModel {
    /// All hosts that the browser resolved: name and address.
    pub hosts: Seq<(Seq<char>, Seq<char>)>,
    /// What is known of the first of them.
    pub found: Seq<NasModel>,
}

impl View for DiscoverySweep {
    type V = SweepModel;

    closed spec fn view(&self) -> SweepModel {
        SweepModel { hosts: host_views(self.hosts@), found: nas_views(self.found@) }
    }
}

/// What a listing says of a host. A host whose listing failed is still reported,
/// without shares and without a dialect.
pub open spec fn listed_host(host: (Seq<char>, Seq<char>), out: Result<CommandOutput, MountError>) ->
    NasModel {
    if succeeded(out) {
        NasModel {
            name: host.0,
            ip: host.1,
            advertised_dialect: dialect_in_lines(lines_of(utf8_lossy(out->Ok_0.stderr@))),
            shares: shares_of_lines(lines_of(utf8_lossy(out->Ok_0.stdout@)), false),
        }
    } else {
        NasModel { name: host.0, ip: host.1, advertised_dialect: None, shares: Seq::empty() }
    }
}

/// The sweep once the next host is listed.
pub open spec fn after_listing(s: SweepModel, out: Result<CommandOutput, MountError>) -> SweepModel {
    SweepModel {
        hosts: s.hosts,
        found: s.found.push(listed_host(s.hosts[s.found.len() as int], out)),
    }
}

/// The error of a failed browse.
pub open spec fn browse_error(out: Result<CommandOutput, MountError>) -> MountErrorModel {
    match out {
        Err(e) => e@,
        Ok(o) => MountErrorModel::MountFailed {
            id: Seq::empty(),
            exit_code: o.exit_code,
            stderr: utf8_lossy(o.stderr@),
        },
    }
}

fn ended_well(out: &CommandOutput) -> (r: bool)
    ensures
        r == (out.exit_code == Some(0i32)),
{
    match out.exit_code {
        Some(c) => c == 0,
        None => false,
    }
}

impl DiscoverySweep {
    /// Starts a sweep from what the service browser printed.
    pub fn begin(browse: Result<CommandOutput, MountError>) -> (r: Result<
        DiscoverySweep,
        MountError,
    >)
        ensures
            match r {
                Ok(sweep) => succeeded(browse) && sweep@ == (SweepModel {
                    hosts: hosts_of_lines(lines_of(utf8_lossy(browse->Ok_0.stdout@))),
                    found: Seq::empty(),
                }),
                Err(e) => !succeeded(browse) && e@ == browse_error(browse),
            },
    {
        let out = match browse {
            Err(e) => {
                return Err(e);
            },
            Ok(o) => o,
        };
        if !ended_well(&out) {
            let id = ShareId(String::new());
            return Err(
                MountError::MountFailed {
                    id,
                    exit_code: out.exit_code,
                    stderr: lossy_text(out.stderr.as_slice()),
                },
            );
        }
        let stdout = lossy_text(out.stdout.as_slice());
        let sweep = DiscoverySweep {
            hosts: parse_avahi_browse_output(stdout.as_str()),
            found: Vec::new(),
        };
        assert(sweep@.found =~= Seq::<NasModel>::empty());
        Ok(sweep)
    }

    /// Arguments of the share lister for the next host; none when all are listed.
    pub fn next_args(&self) -> (r: Option<Vec<String>>)
        ensures
            match r {
                Some(args) => self@.found.len() < self@.hosts.len() && views(args@)
                    == smbclient_list_args(self@.hosts[self@.found.len() as int].1),
                None => self@.found.len() >= self@.hosts.len(),
            },
    {
        let k: usize = self.found.len();
        assert(self@.found.len() == k);
        assert(self@.hosts.len() == self.hosts@.len());
        if k < self.hosts.len() {
            assert(self@.hosts[k as int].1 == self.hosts@[k as int].1@);
            Some(build_smbclient_list_args(self.hosts[k].1.as_str()))
        } else {
            None
        }
    }

    /// Takes in what the share lister printed for the next host.
    pub fn on_listing(&mut self, out: Result<CommandOutput, MountError>)
        requires
            old(self)@.found.len() < old(self)@.hosts.len(),
        ensures
            final(self)@ == after_listing(old(self)@, out),
    {
        let k: usize = self.found.len();
        assert(self@.hosts.len() == self.hosts@.len());
        assert(self@.hosts[k as int] == (self.hosts@[k as int].0@, self.hosts@[k as int].1@));
        let name = self.hosts[k].0.clone();
        let ip = self.hosts[k].1.clone();
        let mut nas = DiscoveredNas { name, ip, advertised_dialect: None, shares: Vec::new() };
        assert(share_views(nas.shares@) =~= Seq::<ShareModel>::empty());
        if let Ok(o) = &out {
            if ended_well(o) {
                let stdout = lossy_text(o.stdout.as_slice());
                let stderr = lossy_text(o.stderr.as_slice());
                nas.shares = parse_smbclient_disk_lines(stdout.as_str());
                nas.advertised_dialect = parse_smbclient_dialect(stderr.as_str());
            }
        }
        let ghost before = self.found@;
        self.found.push(nas);
        assert(nas_views(self.found@) =~= nas_views(before).push(nas@));
    }

    /// The hosts listed so far.
    pub fn into_found(self) -> (r: Vec<DiscoveredNas>)
        ensures
            nas_views(r@) == self@.found,
    {
        self.found
    }
}

/// The sweep once the next hosts are listed, one after the other.
pub open spec fn after_listings(s: SweepModel, outs: Seq<Result<CommandOutput, MountError>>) ->
    SweepModel
    decreases outs.len(),
{
    if outs.len() == 0 {
        s
    } else {
        after_listing(after_listings(s, outs.drop_last()), outs.last())
    }
}

/// A sweep reports every host that the browser resolved, in that order, each with
/// what its own listing said. One that could not be listed hides no other.
pub proof fn law_every_host_is_reported(
    hosts: Seq<(Seq<char>, Seq<char>)>,
    outs: Seq<Result<CommandOutput, MountError>>,
)
    requires
        outs.len() <= hosts.len(),
    ensures
        after_listings(SweepModel { hosts, found: Seq::empty() }, outs) == (SweepModel {
            hosts,
            found: Seq::new(outs.len(), |i: int| listed_host(hosts[i], outs[i])),
        }),
    decreases outs.len(),
{
    let swept = after_listings(SweepModel { hosts, found: Seq::empty() }, outs);
    if outs.len() > 0 {
        law_every_host_is_reported(hosts, outs.drop_last());
    }
    assert(swept.found =~= Seq::new(outs.len(), |i: int| listed_host(hosts[i], outs[i])));
}

/// A host is reported under its own name and address whatever its listing said. Its
/// shares are those on the lister's output and its dialect that on the lister's
/// error output; a listing that failed tells neither.
pub proof fn law_listings_tell_shares_and_dialect(
    host: (Seq<char>, Seq<char>),
    out: Result<CommandOutput, MountError>,
    other: Result<CommandOutput, MountError>,
)
    ensures
        ({
            let nas = listed_host(host, out);
            &&& nas.name == host.0 && nas.ip == host.1
            &&& out matches Ok(o) ==> o.exit_code == Some(0i32) ==> {
                &&& nas.shares == shares_of_lines(lines_of(utf8_lossy(o.stdout@)), false)
                &&& nas.advertised_dialect == dialect_in_lines(lines_of(utf8_lossy(o.stderr@)))
            }
            &&& out is Err || out->Ok_0.exit_code != Some(0i32) ==> nas.shares.len() == 0
                && nas.advertised_dialect is None
        }),
        succeeded(out) && succeeded(other) && out->Ok_0.stdout@ == other->Ok_0.stdout@
            ==> listed_host(host, out).shares == listed_host(host, other).shares,
        succeeded(out) && succeeded(other) && out->Ok_0.stderr@ == other->Ok_0.stderr@
            ==> listed_host(host, out).advertised_dialect == listed_host(
            host,
            other,
        ).advertised_dialect,
{
}

/// A browse that failed says how: the reason that it could not be run, or the
/// browser's exit code and what it printed to its error output.
pub proof fn law_failed_browses_say_how(out: CommandOutput, e: MountError)
    ensures
        browse_error(Err(e)) == e@,
        browse_error(Ok(out)) is MountFailed,
        browse_error(Ok(out))->MountFailed_exit_code == out.exit_code,
        browse_error(Ok(out))->MountFailed_stderr == utf8_lossy(out.stderr@),
{
}

} // verus!
