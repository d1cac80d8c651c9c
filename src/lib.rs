//! Normalization of issue-tracker wire records (issues, comments, milestones,
//! labels) into a relational domain model, with every mapping verified.

pub mod domain;
pub mod models;
pub mod timestamp;
pub mod url_number;
