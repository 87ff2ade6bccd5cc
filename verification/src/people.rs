//! The persons, and the capability to say one's name.

use vstd::prelude::*;

verus! {

/// Who somebody is: a display name.
pub struct Identity {
    pub name: String,
}

/// A teacher: an identity and a salary.
pub struct Teacher {
    pub identity: Identity,
    pub salary: u32,
}

/// A student: an identity and the class attended.
pub struct Student {
    pub identity: Identity,
    pub class: String,
}

/// Something that can say its name. Saying it never fails and changes
/// nothing.
pub trait Named {
    /// The name, as a sequence of characters.
    spec fn name_chars(&self) -> Seq<char>;

    /// Says the name.
    fn whats_your_name(&self) -> (name: String)
        ensures
            name@ == self.name_chars(),
    ;
}

impl Named for Identity {
    open spec fn name_chars(&self) -> Seq<char> {
        self.name@
    }

    fn whats_your_name(&self) -> (name: String) {
        self.name.clone()
    }
}

/// A teacher has no name of its own: it answers with that of its identity.
impl Named for Teacher {
    open spec fn name_chars(&self) -> Seq<char> {
        self.identity.name_chars()
    }

    fn whats_your_name(&self) -> (name: String) {
        self.identity.whats_your_name()
    }
}

} // verus!
