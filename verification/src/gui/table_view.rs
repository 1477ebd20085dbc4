//! The bodies of the system in a table.

pub mod col_data;
pub mod widget;
