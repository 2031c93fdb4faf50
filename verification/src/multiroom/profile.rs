//! Leader-control profile, leader-control mode and node role.

use vstd::prelude::*;

verus! {

/// Lower bound of an operator-set leader, in milliseconds.
pub const LEADER_MS_MIN: u64 = 20;

/// Upper bound of an operator-set leader, in milliseconds.
pub const LEADER_MS_MAX: u64 = 2000;

/// Leader used until the operator or the source says otherwise.
pub const DEFAULT_LEADER_MS: u64 = 200;

/// How aggressively the source turns receiver telemetry into the group-wide
/// leader it stamps on every frame.
#[derive(Debug, Clone, Copy, PartialEq, Eq, Structural, Hash)]
pub enum Profile {
    /// Tight end-to-end latency: one and a half times the jitter plus 30 ms.
    Aggressive,
    /// Default: twice the jitter plus 50 ms.
    Conservative,
    /// Few underruns on noisy networks: three times the jitter plus 100 ms.
    Defensive,
}

impl Profile {
    /// Wire name.
    pub open spec fn wire(self) -> Seq<char> {
        match self {
            Profile::Aggressive => "aggressive"@,
            Profile::Conservative => "conservative"@,
            Profile::Defensive => "defensive"@,
        }
    }

    /// Code under which the profile is stored.
    pub open spec fn code(self) -> u8 {
        match self {
            Profile::Aggressive => 0,
            Profile::Conservative => 1,
            Profile::Defensive => 2,
        }
    }

    /// The profile stored under `v`; codes that name none read as the default.
    pub open spec fn of_code(v: u8) -> Profile {
        if v == 0 {
            Profile::Aggressive
        } else if v == 2 {
            Profile::Defensive
        } else {
            Profile::Conservative
        }
    }

    /// The next-safer profile.
    pub open spec fn safer(self) -> Profile {
        match self {
            Profile::Aggressive => Profile::Conservative,
            Profile::Conservative => Profile::Defensive,
            Profile::Defensive => Profile::Defensive,
        }
    }

    /// The next-tighter profile.
    pub open spec fn tighter(self) -> Profile {
        match self {
            Profile::Aggressive => Profile::Aggressive,
            Profile::Conservative => Profile::Aggressive,
            Profile::Defensive => Profile::Conservative,
        }
    }

    /// Twice the multiplier that the profile applies to the jitter percentile.
    pub open spec fn factor_halves(self) -> nat {
        match self {
            Profile::Aggressive => 3,
            Profile::Conservative => 4,
            Profile::Defensive => 6,
        }
    }

    /// Absolute budget, in milliseconds, added to the multiplied jitter.
    pub open spec fn floor(self) -> nat {
        match self {
            Profile::Aggressive => 30,
            Profile::Conservative => 50,
            Profile::Defensive => 100,
        }
    }

    /// Wire name of the profile.
    pub fn as_wire_str(&self) -> (r: &'static str)
        ensures
            r@ == self.wire(),
    {
        match self {
            Profile::Aggressive => "aggressive",
            Profile::Conservative => "conservative",
            Profile::Defensive => "defensive",
        }
    }

    /// Storage code of the profile.
    pub fn to_u8(self) -> (r: u8)
        ensures
            r == self.code(),
    {
        match self {
            Profile::Aggressive => 0,
            Profile::Conservative => 1,
            Profile::Defensive => 2,
        }
    }

    /// Reads a storage code.
    pub fn from_u8(v: u8) -> (r: Profile)
        ensures
            r == Profile::of_code(v),
    {
        if v == 0 {
            Profile::Aggressive
        } else if v == 2 {
            Profile::Defensive
        } else {
            Profile::Conservative
        }
    }

    /// Twice the jitter multiplier: 3, 4 or 6 halves.
    pub fn safety_factor_halves(self) -> (r: u64)
        ensures
            r == self.factor_halves(),
    {
        match self {
            Profile::Aggressive => 3,
            Profile::Conservative => 4,
            Profile::Defensive => 6,
        }
    }

    /// Floor added to the multiplied jitter.
    pub fn floor_ms(self) -> (r: u64)
        ensures
            r == self.floor(),
    {
        match self {
            Profile::Aggressive => 30,
            Profile::Conservative => 50,
            Profile::Defensive => 100,
        }
    }

    /// One step towards fewer underruns; `Defensive` is terminal.
    pub fn escalate(self) -> (r: Profile)
        ensures
            r == self.safer(),
    {
        match self {
            Profile::Aggressive => Profile::Conservative,
            Profile::Conservative => Profile::Defensive,
            Profile::Defensive => Profile::Defensive,
        }
    }

    /// One step towards lower latency; `Aggressive` is terminal.
    pub fn decay(self) -> (r: Profile)
        ensures
            r == self.tighter(),
    {
        match self {
            Profile::Aggressive => Profile::Aggressive,
            Profile::Conservative => Profile::Aggressive,
            Profile::Defensive => Profile::Conservative,
        }
    }
}

/// Who controls the group-wide leader.
#[derive(Debug, Clone, Copy, PartialEq, Eq, Structural, Hash)]
pub enum LeaderMode {
    /// Telemetry drives the leader, and underruns move the profile.
    AutoDecay,
    /// Telemetry drives the leader within a profile the operator pinned.
    AutoPinned,
    /// The operator sets the leader.
    Manual,
}

impl LeaderMode {
    /// Wire name.
    pub open spec fn wire(self) -> Seq<char> {
        match self {
            LeaderMode::AutoDecay => "auto_decay"@,
            LeaderMode::AutoPinned => "auto_pinned"@,
            LeaderMode::Manual => "manual"@,
        }
    }

    /// Code under which the mode is stored.
    pub open spec fn code(self) -> u8 {
        match self {
            LeaderMode::AutoDecay => 0,
            LeaderMode::AutoPinned => 1,
            LeaderMode::Manual => 2,
        }
    }

    /// The mode stored under `v`; codes that name none read as the default.
    pub open spec fn of_code(v: u8) -> LeaderMode {
        if v == 1 {
            LeaderMode::AutoPinned
        } else if v == 2 {
            LeaderMode::Manual
        } else {
            LeaderMode::AutoDecay
        }
    }

    /// Wire name of the mode.
    pub fn as_wire_str(&self) -> (r: &'static str)
        ensures
            r@ == self.wire(),
    {
        match self {
            LeaderMode::AutoDecay => "auto_decay",
            LeaderMode::AutoPinned => "auto_pinned",
            LeaderMode::Manual => "manual",
        }
    }

    /// Storage code of the mode.
    pub fn to_u8(self) -> (r: u8)
        ensures
            r == self.code(),
    {
        match self {
            LeaderMode::AutoDecay => 0,
            LeaderMode::AutoPinned => 1,
            LeaderMode::Manual => 2,
        }
    }

    /// Reads a storage code.
    pub fn from_u8(v: u8) -> (r: LeaderMode)
        ensures
            r == LeaderMode::of_code(v),
    {
        if v == 1 {
            LeaderMode::AutoPinned
        } else if v == 2 {
            LeaderMode::Manual
        } else {
            LeaderMode::AutoDecay
        }
    }
}

/// What this node does in its group.
#[derive(Debug, Clone, Copy, PartialEq, Eq, Structural)]
pub enum Role {
    /// Emit frames to the receivers of the group.
    Source,
    /// Render incoming frames locally.
    Receiver,
    /// Count incoming frames and do nothing else.
    Auto,
}

impl Role {
    /// Wire name.
    pub open spec fn wire(self) -> Seq<char> {
        match self {
            Role::Source => "source"@,
            Role::Receiver => "receiver"@,
            Role::Auto => "auto"@,
        }
    }

    /// Wire name of the role.
    pub fn as_wire_str(&self) -> (r: &'static str)
        ensures
            r@ == self.wire(),
    {
        match self {
            Role::Source => "source",
            Role::Receiver => "receiver",
            Role::Auto => "auto",
        }
    }
}

/// A stored profile or mode reads back as itself.
pub proof fn law_codes_round_trip(p: Profile, m: LeaderMode)
    ensures
        Profile::of_code(p.code()) == p,
        LeaderMode::of_code(m.code()) == m,
{
}

/// Escalation and decay move by at most one step and stay between `Aggressive`
/// and `Defensive`; away from the ends each undoes the other.
pub proof fn law_profile_steps(p: Profile)
    ensures
        p.safer().code() == (if p.code() < 2 { p.code() + 1 } else { 2 }),
        p.tighter().code() == (if p.code() > 0 { p.code() - 1 } else { 0 }),
        p != Profile::Defensive ==> p.safer().tighter() == p,
        p != Profile::Aggressive ==> p.tighter().safer() == p,
{
}

/// Every profile, mode and role is known on the wire by its own name.
pub proof fn law_wire_names_are_these()
    ensures
        Profile::Aggressive.wire() == "aggressive"@,
        Profile::Conservative.wire() == "conservative"@,
        Profile::Defensive.wire() == "defensive"@,
        LeaderMode::AutoDecay.wire() == "auto_decay"@,
        LeaderMode::AutoPinned.wire() == "auto_pinned"@,
        LeaderMode::Manual.wire() == "manual"@,
{
}

/// A safer profile multiplies the jitter by more and adds more on top.
pub proof fn law_safer_profiles_wait_longer(p: Profile)
    ensures
        p.factor_halves() <= p.safer().factor_halves(),
        p.floor() <= p.safer().floor(),
        p != Profile::Defensive ==> p.factor_halves() < p.safer().factor_halves() && p.floor()
            < p.safer().floor(),
        p.tighter().factor_halves() <= p.factor_halves(),
        p.tighter().floor() <= p.floor(),
{
}

} // verus!
