//! Telling whether somebody's name is a nice one.
//!
//! A name is nice when the text `Adrien` occurs in it, letter for letter.
//! [`people`] holds the persons and the [`Named`] capability, [`nice`] the
//! verdict on anything that can say its name, [`direct`] the same verdict
//! spelled out per type, and [`fragment`] the search that decides it.

pub mod direct;
pub mod fragment;
pub mod nice;
pub mod people;

pub use direct::{
    does_its_name_is_nice_identity, does_its_name_is_nice_teacher, whats_your_name_identity,
    whats_your_name_teacher,
};
pub use nice::{does_its_name_is_nice, NICE_FRAGMENT};
pub use people::{Identity, Named, Student, Teacher};
