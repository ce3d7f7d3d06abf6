//! The executable membership registry.
//!
//! A `Registry` holds the configuration (administrator account and
//! name-length bounds), the member map and the event log, and is proved to
//! follow the spec-level transitions of `crate::model` exactly.

use crate::model::{apply_add_member, apply_remove_member, Error, Event, RegistryView, TargetRef};
use std::collections::HashMap;
use vstd::prelude::*;

verus! {

broadcast use vstd::std_specs::hash::group_hash_axioms;

/// The group names held by a member map, as a map of byte sequences.
pub open spec fn names_of(m: Map<u64, Vec<u8>>) -> Map<u64, Seq<u8>> {
    m.map_values(|v: Vec<u8>| v@)
}

proof fn lemma_names_of_dom(m: Map<u64, Vec<u8>>)
    ensures
        names_of(m).dom() == m.dom(),
{
    assert(names_of(m).dom() =~= m.dom());
}

proof fn lemma_names_of_insert(m: Map<u64, Vec<u8>>, k: u64, v: Vec<u8>)
    ensures
        names_of(m.insert(k, v)) == names_of(m).insert(k, v@),
{
    assert(names_of(m.insert(k, v)) =~= names_of(m).insert(k, v@));
}

proof fn lemma_names_of_remove(m: Map<u64, Vec<u8>>, k: u64)
    ensures
        names_of(m.remove(k)) == names_of(m).remove(k),
{
    assert(names_of(m.remove(k)) =~= names_of(m).remove(k));
}

/// A named-group membership registry.
///
/// Exactly one account, fixed at construction, may mutate it; every stored
/// group name has a length within the configured bounds.
pub struct Registry {
    admin: u64,
    min_length: u32,
    max_length: u32,
    members: HashMap<u64, Vec<u8>>,
    events: Vec<Event>,
}

impl View for Registry {
    type V = RegistryView;

    closed spec fn view(&self) -> RegistryView {
        RegistryView {
            admin: self.admin,
            min_length: self.min_length as nat,
            max_length: self.max_length as nat,
            membership: names_of(self.members@),
            events: self.events@,
        }
    }
}

impl Registry {
    /// A fresh registry with the given administrator and name-length
    /// bounds, no members and no events.
    pub fn new(admin: u64, min_length: u32, max_length: u32) -> (r: Registry)
        requires
            min_length <= max_length,
        ensures
            r@.wf(),
            r@.admin == admin,
            r@.min_length == min_length as nat,
            r@.max_length == max_length as nat,
            r@.membership == Map::<u64, Seq<u8>>::empty(),
            r@.events == Seq::<Event>::empty(),
    {
        let members: HashMap<u64, Vec<u8>> = HashMap::new();
        let events: Vec<Event> = Vec::new();
        proof {
            assert(names_of(members@) =~= Map::<u64, Seq<u8>>::empty());
            lemma_names_of_dom(members@);
        }
        Registry { admin, min_length, max_length, members, events }
    }

    /// Assign `target` to the group called `name`.
    ///
    /// Only the administrator may call this; the target must resolve, the
    /// name must fit the configured bounds, and the account must not yet
    /// be assigned. On success the entry is stored and a `MemberAdded`
    /// event is appended; on any error nothing changes.
    pub fn add_member(&mut self, caller: u64, target: TargetRef, name: Vec<u8>) -> (res: Result<
        (),
        Error,
    >)
        requires
            old(self)@.wf(),
        ensures
            final(self)@.wf(),
            (final(self)@, res) == apply_add_member(old(self)@, caller, target, name@),
    {
        if caller != self.admin {
            return Err(Error::Unauthorized);
        }
        let account: u64 = match target {
            TargetRef::Id(account) => account,
            TargetRef::Index(_) => {
                return Err(Error::InvalidTarget);
            },
        };
        if name.len() > self.max_length as usize {
            return Err(Error::TooLong);
        }
        if name.len() < self.min_length as usize {
            return Err(Error::TooShort);
        }
        proof {
            lemma_names_of_dom(self.members@);
        }
        if self.members.contains_key(&account) {
            return Err(Error::AlreadyInGroup);
        }
        proof {
            lemma_names_of_insert(self.members@, account, name);
        }
        self.members.insert(account, name);
        self.events.push(Event::MemberAdded { target: account });
        Ok(())
    }

    /// Remove `target` from its group.
    ///
    /// Only the administrator may call this; the target must resolve and
    /// must currently be assigned. On success the entry is removed and a
    /// `MemberRemoved` event is appended; on any error nothing changes.
    pub fn remove_member(&mut self, caller: u64, target: TargetRef) -> (res: Result<(), Error>)
        requires
            old(self)@.wf(),
        ensures
            final(self)@.wf(),
            (final(self)@, res) == apply_remove_member(old(self)@, caller, target),
    {
        if caller != self.admin {
            return Err(Error::Unauthorized);
        }
        let account: u64 = match target {
            TargetRef::Id(account) => account,
            TargetRef::Index(_) => {
                return Err(Error::InvalidTarget);
            },
        };
        proof {
            lemma_names_of_dom(self.members@);
        }
        if !self.members.contains_key(&account) {
            return Err(Error::NotInGroup);
        }
        proof {
            lemma_names_of_remove(self.members@, account);
        }
        self.members.remove(&account);
        self.events.push(Event::MemberRemoved { target: account });
        Ok(())
    }

    /// The configured administrator account.
    pub fn admin(&self) -> (r: u64)
        ensures
            r == self@.admin,
    {
        self.admin
    }

    /// The least length a group name may have.
    pub fn min_length(&self) -> (r: u32)
        ensures
            r as nat == self@.min_length,
    {
        self.min_length
    }

    /// The greatest length a group name may have.
    pub fn max_length(&self) -> (r: u32)
        ensures
            r as nat == self@.max_length,
    {
        self.max_length
    }

    /// Whether `account` currently belongs to a group.
    pub fn is_member(&self, account: u64) -> (r: bool)
        ensures
            r == self@.membership.dom().contains(account),
    {
        proof {
            lemma_names_of_dom(self.members@);
        }
        self.members.contains_key(&account)
    }

    /// The group name stored for `account`, if any.
    pub fn group_name(&self, account: u64) -> (r: Option<&Vec<u8>>)
        ensures
            match r {
                Some(name) => self@.membership.dom().contains(account) && name@
                    == self@.membership[account],
                None => !self@.membership.dom().contains(account),
            },
    {
        proof {
            lemma_names_of_dom(self.members@);
        }
        self.members.get(&account)
    }

    /// Every event emitted so far, oldest first.
    pub fn events(&self) -> (r: &Vec<Event>)
        ensures
            r@ == self@.events,
    {
        &self.events
    }
}

} // verus!
