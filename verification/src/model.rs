//! The celestial system and the records it is made of.
//!
//! A record holds what the rules of this library read: names, ranks and
//! indices. A rank is an integer that stands for a physical quantity. Within
//! one kind of quantity a greater rank stands for a greater quantity, and
//! rank 0 stands for its zero. The `id` of a record is the caller's key to
//! the body's full physical description. The id 0 is kept for the blank body,
//! whose every quantity is zero.

pub mod celestial_system;
pub mod part;
pub mod planet;
pub mod ranking;
pub mod star;
