//! The view of the system from above.

pub mod widget;
