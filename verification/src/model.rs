//! The mathematical model of the registry.
//!
//! A registry state is a map from account identifier to group name,
//! together with the fixed configuration (the administrator account and the
//! name-length bounds) and the log of emitted events. The two operations,
//! adding and removing a member, are given as spec-level transition
//! functions; the executable registry is proved to follow them exactly.

use vstd::prelude::*;

verus! {

/// Why a call to the registry was rejected.
#[derive(Clone, Copy, Debug, PartialEq, Eq, Structural)]
pub enum Error {
    /// The caller is not the configured administrator.
    Unauthorized,
    /// The target reference could not be resolved to an account.
    InvalidTarget,
    /// A name is too short.
    TooShort,
    /// A name is too long.
    TooLong,
    /// The account is not in any group.
    NotInGroup,
    /// The account is already part of a group.
    AlreadyInGroup,
}

/// A notification emitted on every successful state change.
#[derive(Clone, Copy, Debug, PartialEq, Eq, Structural)]
pub enum Event {
    /// `target` was assigned to a group.
    MemberAdded { target: u64 },
    /// `target` was removed from its group.
    MemberRemoved { target: u64 },
}

/// A reference to an account, as handed in by a caller.
///
/// Only a direct identifier resolves; an index would need a directory that
/// this registry does not keep, so it fails resolution.
#[derive(Clone, Copy, Debug, PartialEq, Eq, Structural)]
pub enum TargetRef {
    /// The account identifier itself.
    Id(u64),
    /// A short index standing for an account, resolvable only by a
    /// directory outside this registry.
    Index(u64),
}

/// The abstract state of a registry.
pub struct RegistryView {
    /// The one account allowed to mutate the registry.
    pub admin: u64,
    /// The least length a stored group name may have.
    pub min_length: nat,
    /// The greatest length a stored group name may have.
    pub max_length: nat,
    /// Which account carries which group name. Absence of a key means the
    /// account is in no group.
    pub membership: Map<u64, Seq<u8>>,
    /// Every event emitted so far, oldest first.
    pub events: Seq<Event>,
}

impl RegistryView {
    /// Well-formedness: the bounds are ordered, the member map is finite,
    /// and every stored name respects the bounds.
    pub open spec fn wf(self) -> bool {
        &&& self.min_length <= self.max_length
        &&& self.membership.dom().finite()
        &&& forall|a: u64|
            self.membership.dom().contains(a) ==> self.min_length <= (
            #[trigger] self.membership[a]).len() <= self.max_length
    }
}

/// What a target reference resolves to: a direct identifier resolves to
/// itself; an index has no directory here and fails.
pub open spec fn spec_resolve(target: TargetRef) -> Option<u64> {
    match target {
        TargetRef::Id(account) => Some(account),
        TargetRef::Index(_) => None,
    }
}

/// The transition for adding a member: the state after the call and the
/// call's result. On any error the state is unchanged.
///
/// The checks run in order: authorization, target resolution, the name
/// too long, the name too short, the account already assigned. On success
/// the name is stored under the account and a `MemberAdded` event is
/// appended.
pub open spec fn apply_add_member(
    s: RegistryView,
    caller: u64,
    target: TargetRef,
    name: Seq<u8>,
) -> (RegistryView, Result<(), Error>) {
    if caller != s.admin {
        (s, Err(Error::Unauthorized))
    } else {
        match spec_resolve(target) {
            None => (s, Err(Error::InvalidTarget)),
            Some(account) => if name.len() > s.max_length {
                (s, Err(Error::TooLong))
            } else if name.len() < s.min_length {
                (s, Err(Error::TooShort))
            } else if s.membership.dom().contains(account) {
                (s, Err(Error::AlreadyInGroup))
            } else {
                (
                    RegistryView {
                        membership: s.membership.insert(account, name),
                        events: s.events.push(Event::MemberAdded { target: account }),
                        ..s
                    },
                    Ok(()),
                )
            },
        }
    }
}

/// The transition for removing a member: the state after the call and the
/// call's result. On any error the state is unchanged.
///
/// The checks run in order: authorization, target resolution, the account
/// assigned at all. On success the entry is removed and a `MemberRemoved`
/// event is appended.
pub open spec fn apply_remove_member(
    s: RegistryView,
    caller: u64,
    target: TargetRef,
) -> (RegistryView, Result<(), Error>) {
    if caller != s.admin {
        (s, Err(Error::Unauthorized))
    } else {
        match spec_resolve(target) {
            None => (s, Err(Error::InvalidTarget)),
            Some(account) => if !s.membership.dom().contains(account) {
                (s, Err(Error::NotInGroup))
            } else {
                (
                    RegistryView {
                        membership: s.membership.remove(account),
                        events: s.events.push(Event::MemberRemoved { target: account }),
                        ..s
                    },
                    Ok(()),
                )
            },
        }
    }
}

} // verus!
