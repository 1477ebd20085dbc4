//! The view from the surface of a planet.

pub mod draw_bodies;
pub mod widget;
