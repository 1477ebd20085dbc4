//! Elenath: the document model and the interaction rules of a viewer for
//! imaginary skies.
//!
//! A celestial system holds one central body, its planets and the distant
//! stars of its sky. Every physical quantity is held as an integer rank:
//! a number whose order is the order of the quantity it stands for. The
//! caller keeps the physical description of each body and finds it again by
//! the identifier that the body's record carries.

pub mod error;
pub mod gui;
pub mod model;
pub mod text;
