//! The domain model: persistence-ready entities whose references to one
//! another are foreign keys holding the referenced entity's join key.

use vstd::prelude::*;

use crate::timestamp::NaiveTimestamp;

verus! {

/// A user of the tracker. Users are stored elsewhere; only `id` is used here,
/// as the foreign key that other entities hold.
#[derive(Debug, Clone, PartialEq, Eq)]
pub struct GitHubUser {
    pub id: i32,
    pub login: String,
}

/// A milestone, referenced by its `number` (not its `id`).
#[derive(Debug, Clone, PartialEq, Eq)]
pub struct Milestone {
    pub id: i32,
    pub number: i32,
    pub open: bool,
    pub title: String,
    pub description: Option<String>,
    pub fk_creator: i32,
    pub open_issues: i32,
    pub closed_issues: i32,
    pub created_at: NaiveTimestamp,
    pub updated_at: NaiveTimestamp,
    pub closed_at: Option<NaiveTimestamp>,
    pub due_on: Option<NaiveTimestamp>,
}

/// An issue or pull request, referenced by its `number`.
#[derive(Debug, Clone, PartialEq, Eq)]
pub struct Issue {
    pub number: i32,
    pub fk_milestone: Option<i32>,
    pub fk_user: i32,
    pub fk_assignee: Option<i32>,
    pub open: bool,
    pub is_pull_request: bool,
    pub title: String,
    pub body: String,
    pub locked: bool,
    pub comments: i32,
    pub closed_at: Option<NaiveTimestamp>,
    pub created_at: NaiveTimestamp,
    pub updated_at: NaiveTimestamp,
}

impl Issue {
    /// Whether two issues hold the same values, texts compared by content.
    pub open spec fn same_content(self, other: Issue) -> bool {
        &&& self.number == other.number
        &&& self.fk_milestone == other.fk_milestone
        &&& self.fk_user == other.fk_user
        &&& self.fk_assignee == other.fk_assignee
        &&& self.open == other.open
        &&& self.is_pull_request == other.is_pull_request
        &&& self.title@ == other.title@
        &&& self.body@ == other.body@
        &&& self.locked == other.locked
        &&& self.comments == other.comments
        &&& self.closed_at == other.closed_at
        &&& self.created_at == other.created_at
        &&& self.updated_at == other.updated_at
    }
}

/// One label of an issue; the labels of an issue keep the order they came in.
#[derive(Debug, Clone, PartialEq, Eq)]
pub struct IssueLabel {
    pub fk_issue: i32,
    pub label: String,
    pub color: String,
}

/// A comment on an issue.
#[derive(Debug, Clone, PartialEq, Eq)]
pub struct IssueComment {
    pub id: i32,
    pub fk_issue: i32,
    pub fk_user: i32,
    pub body: String,
    pub created_at: NaiveTimestamp,
    pub updated_at: NaiveTimestamp,
}

} // verus!
