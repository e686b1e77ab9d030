//! What the task service is asked, and what is made of its answers.

pub mod projects;
pub mod tasks;
