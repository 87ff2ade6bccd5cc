//! The verdict without the capability: one function per type.

use vstd::prelude::*;
use crate::fragment::contains_fragment;
use crate::nice::{is_nice_name, NICE_FRAGMENT};
use crate::people::{Identity, Named, Teacher};

verus! {

/// Says the name of `identity`.
pub fn whats_your_name_identity(identity: &Identity) -> (name: String)
    ensures
        name@ == identity.name@,
{
    identity.name.clone()
}

/// Says the name of `teacher`, which is that of its identity.
pub fn whats_your_name_teacher(teacher: &Teacher) -> (name: String)
    ensures
        name@ == teacher.identity.name@,
{
    whats_your_name_identity(&teacher.identity)
}

/// Tells whether the name of `identity` is a nice one.
pub fn does_its_name_is_nice_identity(identity: &Identity) -> (nice: bool)
    ensures
        nice == is_nice_name(identity.name@),
{
    let name = whats_your_name_identity(identity);
    contains_fragment(name.as_str(), NICE_FRAGMENT)
}

/// Tells whether the name of `teacher` is a nice one.
pub fn does_its_name_is_nice_teacher(teacher: &Teacher) -> (nice: bool)
    ensures
        nice == is_nice_name(teacher.identity.name@),
{
    let name = whats_your_name_teacher(teacher);
    contains_fragment(name.as_str(), NICE_FRAGMENT)
}

/// The functions of this module give the verdicts that the capability
/// gives: on an identity, and on a teacher, for which both are the verdict
/// on its identity.
pub proof fn lemma_direct_agrees_with_named(identity: Identity, teacher: Teacher)
    ensures
        is_nice_name(identity.name@) == is_nice_name(identity.name_chars()),
        is_nice_name(teacher.identity.name@) == is_nice_name(teacher.name_chars()),
{
}

} // verus!
