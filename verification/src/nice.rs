//! The verdict on a name.

use vstd::prelude::*;
use crate::fragment::{contains_fragment, has_fragment, occurs_at};
use crate::people::{Named, Teacher};

verus! {

/// The text that makes a name nice.
pub const NICE_FRAGMENT: &'static str = "Adrien";

/// A name is nice when [`NICE_FRAGMENT`] stands somewhere in it, character
/// for character: `adrien` in lower case does not count.
pub open spec fn is_nice_name(name: Seq<char>) -> bool {
    has_fragment(name, NICE_FRAGMENT@)
}

/// Tells whether the name that `named` says is a nice one.
pub fn does_its_name_is_nice(named: &dyn Named) -> (nice: bool)
    ensures
        nice == is_nice_name(named.name_chars()),
{
    let name = named.whats_your_name();
    contains_fragment(name.as_str(), NICE_FRAGMENT)
}

/// The fragment is the six letters `A`, `d`, `r`, `i`, `e`, `n`.
pub proof fn lemma_nice_fragment_letters()
    ensures
        NICE_FRAGMENT@ == seq!['A', 'd', 'r', 'i', 'e', 'n'],
{
    reveal_strlit("Adrien");
    assert(NICE_FRAGMENT@ =~= seq!['A', 'd', 'r', 'i', 'e', 'n']);
}

/// The six letters follow one another in `name` from position `at` on.
pub open spec fn spells_adrien_at(name: Seq<char>, at: int) -> bool {
    &&& 0 <= at
    &&& at + 6 <= name.len()
    &&& name[at] == 'A'
    &&& name[at + 1] == 'd'
    &&& name[at + 2] == 'r'
    &&& name[at + 3] == 'i'
    &&& name[at + 4] == 'e'
    &&& name[at + 5] == 'n'
}

/// A name is nice exactly when the six letters follow one another somewhere
/// in it.
pub proof fn lemma_nice_name_letters(name: Seq<char>)
    ensures
        is_nice_name(name) <==> exists|at: int| spells_adrien_at(name, at),
{
    lemma_nice_fragment_letters();
    if is_nice_name(name) {
        let at = choose|at: int| occurs_at(name, NICE_FRAGMENT@, at);
        let window = name.subrange(at, at + 6);
        assert(window[0] == 'A' && window[1] == 'd' && window[2] == 'r');
        assert(window[3] == 'i' && window[4] == 'e' && window[5] == 'n');
        assert(spells_adrien_at(name, at));
    }
    if exists|at: int| spells_adrien_at(name, at) {
        let at = choose|at: int| spells_adrien_at(name, at);
        assert(name.subrange(at, at + 6) =~= NICE_FRAGMENT@);
        assert(occurs_at(name, NICE_FRAGMENT@, at));
    }
}

/// The letter case counts: a name without a capital `A` is not nice.
pub proof fn lemma_no_capital_a_not_nice(name: Seq<char>)
    requires
        !name.contains('A'),
    ensures
        !is_nice_name(name),
{
    lemma_nice_name_letters(name);
    if is_nice_name(name) {
        let at = choose|at: int| spells_adrien_at(name, at);
        assert(name.contains(name[at]));
    }
}

/// A teacher gets the verdict of its identity.
pub proof fn lemma_teacher_judged_by_identity(teacher: Teacher)
    ensures
        is_nice_name(teacher.name_chars()) == is_nice_name(teacher.identity.name_chars()),
{
}

/// The verdict depends on the name alone: whoever says the same name gets
/// the same verdict, however often it is asked for.
pub proof fn lemma_same_name_same_verdict(first: &dyn Named, second: &dyn Named)
    requires
        first.name_chars() == second.name_chars(),
    ensures
        is_nice_name(first.name_chars()) == is_nice_name(second.name_chars()),
{
}

} // verus!
