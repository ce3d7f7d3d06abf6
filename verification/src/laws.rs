//! The laws of the registry, stated over the spec-level transitions.
//!
//! Each proof function here is a public statement about every state and
//! every input: the executable operations are tied to the same transitions
//! by their contracts, so these laws hold of them as well.

use crate::model::{apply_add_member, apply_remove_member, Error, Event, RegistryView, TargetRef};
use vstd::prelude::*;

verus! {

/// Adding an unassigned account succeeds exactly when the name's length
/// lies within the configured bounds; an over-long name fails with
/// `TooLong`, an under-long one with `TooShort`, and on failure the state
/// is unchanged.
pub proof fn lemma_add_member_unassigned(s: RegistryView, a: u64, name: Seq<u8>)
    requires
        s.wf(),
        !s.membership.dom().contains(a),
    ensures
        ({
            let (s1, r) = apply_add_member(s, s.admin, TargetRef::Id(a), name);
            &&& (r is Ok) <==> (s.min_length <= name.len() <= s.max_length)
            &&& name.len() > s.max_length ==> r == Err::<(), Error>(Error::TooLong) && s1 == s
            &&& name.len() < s.min_length ==> r == Err::<(), Error>(Error::TooShort) && s1 == s
            &&& r is Ok ==> s1 == RegistryView {
                membership: s.membership.insert(a, name),
                events: s.events.push(Event::MemberAdded { target: a }),
                ..s
            }
        }),
{
}

/// Adding an already-assigned account fails with `AlreadyInGroup` and
/// changes nothing. The name must lie within the bounds: the length
/// checks come first, so an over- or under-long name reports its own
/// error instead.
pub proof fn lemma_add_member_assigned(s: RegistryView, a: u64, name: Seq<u8>)
    requires
        s.membership.dom().contains(a),
        s.min_length <= name.len() <= s.max_length,
    ensures
        apply_add_member(s, s.admin, TargetRef::Id(a), name) == (
            s,
            Err::<(), Error>(Error::AlreadyInGroup),
        ),
{
}

/// Removing an unassigned account fails with `NotInGroup` and changes
/// nothing.
pub proof fn lemma_remove_member_unassigned(s: RegistryView, a: u64)
    requires
        !s.membership.dom().contains(a),
    ensures
        apply_remove_member(s, s.admin, TargetRef::Id(a)) == (
            s,
            Err::<(), Error>(Error::NotInGroup),
        ),
{
}

/// A failing add leaves the state unchanged, so repeating it yields the
/// same error, any number of times.
pub proof fn lemma_failing_add_repeats(s: RegistryView, caller: u64, target: TargetRef, name: Seq<
    u8,
>)
    requires
        apply_add_member(s, caller, target, name).1 is Err,
    ensures
        apply_add_member(s, caller, target, name).0 == s,
        apply_add_member(apply_add_member(s, caller, target, name).0, caller, target, name)
            == apply_add_member(s, caller, target, name),
{
}

/// A failing remove leaves the state unchanged, so repeating it yields
/// the same error, any number of times.
pub proof fn lemma_failing_remove_repeats(s: RegistryView, caller: u64, target: TargetRef)
    requires
        apply_remove_member(s, caller, target).1 is Err,
    ensures
        apply_remove_member(s, caller, target).0 == s,
        apply_remove_member(apply_remove_member(s, caller, target).0, caller, target)
            == apply_remove_member(s, caller, target),
{
}

/// Adding a member and then removing it returns the member map to its
/// prior state, with the account absent, and emits `MemberAdded` then
/// `MemberRemoved`, in that order.
pub proof fn lemma_add_remove_round_trip(s: RegistryView, a: u64, name: Seq<u8>)
    requires
        apply_add_member(s, s.admin, TargetRef::Id(a), name).1 is Ok,
    ensures
        ({
            let s1 = apply_add_member(s, s.admin, TargetRef::Id(a), name).0;
            let (s2, r2) = apply_remove_member(s1, s.admin, TargetRef::Id(a));
            &&& r2 is Ok
            &&& s2.membership == s.membership
            &&& !s2.membership.dom().contains(a)
            &&& s2.admin == s.admin
            &&& s2.min_length == s.min_length
            &&& s2.max_length == s.max_length
            &&& s2.events == s.events.push(Event::MemberAdded { target: a }).push(
                Event::MemberRemoved { target: a },
            )
        }),
{
    assert(s.membership.insert(a, name).remove(a) =~= s.membership);
}

/// Any call from a caller other than the administrator fails with
/// `Unauthorized`, whatever the other arguments: no entry changes and no
/// event is emitted.
pub proof fn lemma_non_admin_rejected(s: RegistryView, caller: u64, target: TargetRef, name: Seq<
    u8,
>)
    requires
        caller != s.admin,
    ensures
        apply_add_member(s, caller, target, name) == (s, Err::<(), Error>(Error::Unauthorized)),
        apply_remove_member(s, caller, target) == (s, Err::<(), Error>(Error::Unauthorized)),
{
}

/// Adding a member preserves well-formedness: every stored name still
/// lies within the configured bounds.
pub proof fn lemma_add_member_preserves_wf(
    s: RegistryView,
    caller: u64,
    target: TargetRef,
    name: Seq<u8>,
)
    requires
        s.wf(),
    ensures
        apply_add_member(s, caller, target, name).0.wf(),
{
}

/// Removing a member preserves well-formedness.
pub proof fn lemma_remove_member_preserves_wf(s: RegistryView, caller: u64, target: TargetRef)
    requires
        s.wf(),
    ensures
        apply_remove_member(s, caller, target).0.wf(),
{
}

} // verus!
