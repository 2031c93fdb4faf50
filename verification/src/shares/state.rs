//! The persisted set of configured shares.

use crate::shares::records::{
    RecordModel, ShareId, ShareRecord, NETWORK_SHARES_SCHEMA_VERSION,
};
use crate::text::{decimal, decimal_of};
use vstd::prelude::*;

verus! {

/// Failures of the persisted state.
#[derive(Debug, PartialEq, Eq)]
pub enum SharesStateError {
    /// The file could not be read or written, with the system's reason.
    Io(String),
    /// The file does not parse, with the parser's reason.
    ParseToml(String),
    /// The state could not be rendered, with the renderer's reason.
    RenderToml(String),
    UnsupportedSchema { found: u32, supported: u32 },
    ShareNotFound { id: ShareId },
    DuplicateShareId { id: ShareId },
}

impl SharesStateError {
    /// Operator-facing text.
    pub open spec fn message(&self) -> Seq<char> {
        match *self {
            SharesStateError::Io(e) => "I/O error on shares state file: "@ + e@,
            SharesStateError::ParseToml(e) => "TOML parse error on shares state file: "@ + e@,
            SharesStateError::RenderToml(e) => "TOML render error on shares state: "@ + e@,
            SharesStateError::UnsupportedSchema { found, supported } => {
                "shares state schema version "@ + decimal_of(found as nat)
                    + " not supported (this build understands "@ + decimal_of(supported as nat)
                    + ")"@
            },
            SharesStateError::ShareNotFound { id } => "no share found with id "@ + id@,
            SharesStateError::DuplicateShareId { id } => "share id "@ + id@
                + " is already present in the store"@,
        }
    }

    /// Renders the operator-facing text.
    pub fn to_text(&self) -> (r: String)
        ensures
            r@ == self.message(),
    {
        let mut r: String;
        match self {
            SharesStateError::Io(e) => {
                r = "I/O error on shares state file: ".to_owned();
                r.append(e.as_str());
            },
            SharesStateError::ParseToml(e) => {
                r = "TOML parse error on shares state file: ".to_owned();
                r.append(e.as_str());
            },
            SharesStateError::RenderToml(e) => {
                r = "TOML render error on shares state: ".to_owned();
                r.append(e.as_str());
            },
            SharesStateError::UnsupportedSchema { found, supported } => {
                r = "shares state schema version ".to_owned();
                r.append(decimal(*found as u64).as_str());
                r.append(" not supported (this build understands ");
                r.append(decimal(*supported as u64).as_str());
                r.append(")");
            },
            SharesStateError::ShareNotFound { id } => {
                r = "no share found with id ".to_owned();
                r.append(id.0.as_str());
            },
            SharesStateError::DuplicateShareId { id } => {
                r = "share id ".to_owned();
                r.append(id.0.as_str());
                r.append(" is already present in the store");
            },
        }
        r
    }
}

/// The persisted root: all configured shares in creation order.
#[derive(Debug, PartialEq, Eq)]
pub struct NetworkSharesState {
    pub schema_version: u32,
    pub shares: Vec<ShareRecord>,
}

/// What records say, in order.
pub open spec fn records_of(shares: Seq<ShareRecord>) -> Seq<RecordModel> {
    Seq::new(shares.len(), |i: int| shares[i]@)
}

/// What a [`NetworkSharesState`] says.
#[verifier::ext_equal]
pub struct StateModel {
    pub schema_version: u32,
    pub shares: Seq<RecordModel>,
}

impl View for NetworkSharesState {
    type V = StateModel;

    open spec fn view(&self) -> StateModel {
        StateModel { schema_version: self.schema_version, shares: records_of(self.shares@) }
    }
}

/// Whether `i` is the position of the first share with identifier `id`.
pub open spec fn is_first_with_id(shares: Seq<RecordModel>, id: Seq<char>, i: int) -> bool {
    &&& 0 <= i < shares.len()
    &&& shares[i].share_id == id
    &&& forall|j: int| 0 <= j < i ==> (#[trigger] shares[j]).share_id != id
}

/// Whether some share has identifier `id`.
pub open spec fn has_id(shares: Seq<RecordModel>, id: Seq<char>) -> bool {
    exists|i: int| 0 <= i < shares.len() && (#[trigger] shares[i]).share_id == id
}

/// Whether no two shares have the same identifier.
pub open spec fn distinct_ids(shares: Seq<RecordModel>) -> bool {
    forall|i: int, j: int|
        0 <= i < j < shares.len() ==> (#[trigger] shares[i]).share_id != (
        #[trigger] shares[j]).share_id
}

impl NetworkSharesState {
    /// No shares.
    pub fn empty() -> (r: NetworkSharesState)
        ensures
            r@ == (StateModel {
                schema_version: NETWORK_SHARES_SCHEMA_VERSION,
                shares: Seq::<RecordModel>::empty(),
            }),
    {
        let r = NetworkSharesState {
            schema_version: NETWORK_SHARES_SCHEMA_VERSION,
            shares: Vec::new(),
        };
        assert(r@.shares =~= Seq::<RecordModel>::empty());
        r
    }

    /// Accepts a state read from disk, where its schema is the supported one. No
    /// file yet is the empty state.
    pub fn accept(read: Option<NetworkSharesState>) -> (r: Result<
        NetworkSharesState,
        SharesStateError,
    >)
        ensures
            match read {
                None => r is Ok && r->Ok_0@ == (StateModel {
                    schema_version: NETWORK_SHARES_SCHEMA_VERSION,
                    shares: Seq::<RecordModel>::empty(),
                }),
                Some(s) => if s.schema_version == NETWORK_SHARES_SCHEMA_VERSION {
                    r == Ok::<NetworkSharesState, SharesStateError>(s)
                } else {
                    r == Err::<NetworkSharesState, SharesStateError>(
                        SharesStateError::UnsupportedSchema {
                            found: s.schema_version,
                            supported: NETWORK_SHARES_SCHEMA_VERSION,
                        },
                    )
                },
            },
    {
        match read {
            None => Ok(NetworkSharesState::empty()),
            Some(s) => if s.schema_version == NETWORK_SHARES_SCHEMA_VERSION {
                Ok(s)
            } else {
                Err(
                    SharesStateError::UnsupportedSchema {
                        found: s.schema_version,
                        supported: NETWORK_SHARES_SCHEMA_VERSION,
                    },
                )
            },
        }
    }

    fn position(&self, id: &ShareId) -> (r: Option<usize>)
        ensures
            match r {
                Some(i) => is_first_with_id(self@.shares, id@, i as int),
                None => !has_id(self@.shares, id@),
            },
    {
        let n: usize = self.shares.len();
        for i in 0..n
            invariant
                n == self.shares@.len(),
                forall|j: int| 0 <= j < i ==> (#[trigger] self@.shares[j]).share_id != id@,
        {
            assert(self@.shares[i as int] == self.shares@[i as int]@);
            if self.shares[i].share_id.same(id) {
                return Some(i);
            }
        }
        None
    }

    /// Looks a share up.
    pub fn find(&self, id: &ShareId) -> (r: Option<&ShareRecord>)
        ensures
            match r {
                Some(record) => exists|i: int|
                    is_first_with_id(self@.shares, id@, i) && *record == self.shares@[i],
                None => !has_id(self@.shares, id@),
            },
    {
        match self.position(id) {
            Some(i) => {
                assert(is_first_with_id(self@.shares, id@, i as int));
                Some(&self.shares[i])
            },
            None => None,
        }
    }

    /// Looks a share up for modification. What the caller makes of the record
    /// is what the state then holds; all other shares stay.
    pub fn find_mut(&mut self, id: &ShareId) -> (r: Option<&mut ShareRecord>)
        ensures
            match r {
                Some(record) => exists|i: int|
                    {
                        &&& is_first_with_id(old(self)@.shares, id@, i)
                        &&& *record == old(self).shares@[i]
                        &&& final(self).shares@ == old(self).shares@.update(i, *final(record))
                        &&& final(self).schema_version == old(self).schema_version
                    },
                None => !has_id(old(self)@.shares, id@) && *final(self) == *old(self),
            },
    {
        match self.position(id) {
            Some(i) => {
                assert(is_first_with_id(self@.shares, id@, i as int));
                Some(&mut self.shares[i])
            },
            None => None,
        }
    }

    /// Appends a share whose identifier is new.
    pub fn insert(&mut self, record: ShareRecord) -> (r: Result<(), SharesStateError>)
        ensures
            if has_id(old(self)@.shares, record@.share_id) {
                &&& r == Err::<(), SharesStateError>(
                    SharesStateError::DuplicateShareId { id: record.share_id },
                )
                &&& *final(self) == *old(self)
            } else {
                &&& r is Ok
                &&& final(self)@ == (StateModel {
                    shares: old(self)@.shares.push(record@),
                    ..old(self)@
                })
            },
    {
        if self.find(&record.share_id).is_some() {
            return Err(SharesStateError::DuplicateShareId { id: record.share_id });
        }
        self.shares.push(record);
        assert(self@.shares =~= old(self)@.shares.push(record@));
        Ok(())
    }

    /// Removes a share and hands it back.
    pub fn remove(&mut self, id: &ShareId) -> (r: Result<ShareRecord, SharesStateError>)
        ensures
            match r {
                Ok(record) => exists|i: int|
                    {
                        &&& is_first_with_id(old(self)@.shares, id@, i)
                        &&& record == old(self).shares@[i]
                        &&& final(self)@ == (StateModel {
                            shares: old(self)@.shares.remove(i),
                            ..old(self)@
                        })
                    },
                Err(e) => {
                    &&& !has_id(old(self)@.shares, id@)
                    &&& e == (SharesStateError::ShareNotFound { id: *id })
                    &&& *final(self) == *old(self)
                },
            },
    {
        match self.position(id) {
            None => Err(SharesStateError::ShareNotFound { id: id.clone() }),
            Some(i) => {
                let record = self.shares.remove(i);
                assert(is_first_with_id(old(self)@.shares, id@, i as int));
                assert(self@.shares =~= old(self)@.shares.remove(i as int));
                Ok(record)
            },
        }
    }
}

impl Default for NetworkSharesState {
    fn default() -> (r: Self)
        ensures
            r@ == (StateModel {
                schema_version: NETWORK_SHARES_SCHEMA_VERSION,
                shares: Seq::<RecordModel>::empty(),
            }),
    {
        NetworkSharesState::empty()
    }
}

// ---------------------------------------------------------------------
// Laws
// ---------------------------------------------------------------------

/// Inserting a share keeps identifiers distinct and all other shares in place,
/// and the new share is then found, last in creation order.
pub proof fn law_inserted_is_found(shares: Seq<RecordModel>, record: RecordModel)
    requires
        !has_id(shares, record.share_id),
    ensures
        is_first_with_id(shares.push(record), record.share_id, shares.len() as int),
        distinct_ids(shares) ==> distinct_ids(shares.push(record)),
        shares.push(record).drop_last() == shares,
{
    assert(shares.push(record).drop_last() =~= shares);
    assert forall|j: int| 0 <= j < shares.len() implies (#[trigger] shares.push(record)[j]).share_id
        != record.share_id by {
        assert(shares[j].share_id != record.share_id);
    }
    if distinct_ids(shares) {
        assert forall|i: int, j: int| 0 <= i < j < shares.push(record).len() implies (
        #[trigger] shares.push(record)[i]).share_id != (
        #[trigger] shares.push(record)[j]).share_id by {
            if j < shares.len() {
                assert(shares[i].share_id != shares[j].share_id);
            } else {
                assert(shares[i].share_id != record.share_id);
            }
        }
    }
}

/// Removing a share keeps identifiers distinct, and the share is then gone.
pub proof fn law_removed_is_gone(shares: Seq<RecordModel>, id: Seq<char>, i: int)
    requires
        distinct_ids(shares),
        is_first_with_id(shares, id, i),
    ensures
        !has_id(shares.remove(i), id),
        distinct_ids(shares.remove(i)),
{
    let rest = shares.remove(i);
    assert forall|j: int| 0 <= j < rest.len() implies (#[trigger] rest[j]).share_id != id by {
        if j < i {
            assert(rest[j] == shares[j]);
        } else {
            assert(rest[j] == shares[j + 1]);
            assert(shares[i].share_id != shares[j + 1].share_id);
        }
    }
    assert forall|j: int, k: int| 0 <= j < k < rest.len() implies (#[trigger] rest[j]).share_id != (
    #[trigger] rest[k]).share_id by {
        let a = if j < i {
            j
        } else {
            j + 1
        };
        let b = if k < i {
            k
        } else {
            k + 1
        };
        assert(rest[j] == shares[a]);
        assert(rest[k] == shares[b]);
        assert(shares[a].share_id != shares[b].share_id);
    }
}

/// What was inserted comes back by removing it, and the state is as before.
pub proof fn law_remove_undoes_insert(shares: Seq<RecordModel>, record: RecordModel)
    requires
        !has_id(shares, record.share_id),
    ensures
        is_first_with_id(shares.push(record), record.share_id, shares.len() as int),
        shares.push(record)[shares.len() as int] == record,
        shares.push(record).remove(shares.len() as int) == shares,
{
    law_inserted_is_found(shares, record);
    assert(shares.push(record).remove(shares.len() as int) =~= shares);
}

/// Rewriting a record under its own identifier keeps identifiers distinct.
pub proof fn law_update_keeps_distinct(shares: Seq<RecordModel>, i: int, record: RecordModel)
    requires
        distinct_ids(shares),
        0 <= i < shares.len(),
        record.share_id == shares[i].share_id,
    ensures
        distinct_ids(shares.update(i, record)),
{
    let after = shares.update(i, record);
    assert forall|j: int, k: int| 0 <= j < k < after.len() implies (#[trigger] after[j]).share_id
        != (#[trigger] after[k]).share_id by {
        assert(shares[j].share_id != shares[k].share_id);
    }
}

/// What the operator reads of a failure ends with its reason, or names the share, or
/// the schema that was found before the one that is supported.
pub proof fn law_messages_name_the_cause(reason: String, id: ShareId, found: u32, supported: u32)
    ensures
        SharesStateError::Io(reason).message() == "I/O error on shares state file: "@ + reason@,
        SharesStateError::ParseToml(reason).message() == "TOML parse error on shares state file: "@
            + reason@,
        SharesStateError::RenderToml(reason).message() == "TOML render error on shares state: "@
            + reason@,
        (SharesStateError::UnsupportedSchema { found, supported }).message()
            == "shares state schema version "@ + decimal_of(found as nat)
            + " not supported (this build understands "@ + decimal_of(supported as nat) + ")"@,
        (SharesStateError::ShareNotFound { id }).message() == "no share found with id "@ + id@,
        (SharesStateError::DuplicateShareId { id }).message() == "share id "@ + id@
            + " is already present in the store"@,
{
}

} // verus!
