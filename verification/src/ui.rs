//! What is shown of a list of tasks, as a plain table and as a view to move
//! through.

pub mod tables;
pub mod views;
