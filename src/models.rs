//! Wire records as the tracker's API returns them, and their normalization
//! into the domain model.

use std::collections::BTreeMap;

use vstd::prelude::*;

use crate::domain::{GitHubUser, Issue, IssueComment, IssueLabel, Milestone};
use crate::timestamp::{naive_opt, spec_naive_opt, ZonedTimestamp};
use crate::url_number::{chars_of, issue_number_from_url, issue_number_of};

verus! {

/// The one state string that means open.
pub open spec fn open_state() -> Seq<char> {
    seq!['o', 'p', 'e', 'n']
}

/// Whether a wire state string means open: exactly `"open"`; every other
/// string, whatever its case or content, means closed.
pub open spec fn is_open(state: Seq<char>) -> bool {
    state == open_state()
}

/// Reads a wire state string as the open flag.
pub fn state_is_open(state: &str) -> (r: bool)
    ensures
        r == is_open(state@),
{
    let s = chars_of(state);
    let r = s.len() == 4 && s[0] == 'o' && s[1] == 'p' && s[2] == 'e' && s[3] == 'n';
    if r {
        assert(s@ =~= open_state());
    } else if s.len() == 4 {
        assert(s@[0] != 'o' || s@[1] != 'p' || s@[2] != 'e' || s@[3] != 'n');
        assert(s@ != open_state()) by {
            if s@ == open_state() {
                assert(s@[0] == open_state()[0]);
                assert(s@[1] == open_state()[1]);
                assert(s@[2] == open_state()[2]);
                assert(s@[3] == open_state()[3]);
            }
        }
    }
    r
}

/// A milestone as the wire carries it.
#[derive(Debug, Clone)]
pub struct MilestoneFromJson {
    pub id: i32,
    pub number: i32,
    pub state: String,
    pub title: String,
    pub description: Option<String>,
    pub creator: GitHubUser,
    pub open_issues: i32,
    pub closed_issues: i32,
    pub created_at: ZonedTimestamp,
    pub updated_at: ZonedTimestamp,
    pub closed_at: Option<ZonedTimestamp>,
    pub due_on: Option<ZonedTimestamp>,
}

impl MilestoneFromJson {
    /// The domain milestone that this record normalizes to.
    pub open spec fn spec_into(self) -> Milestone {
        Milestone {
            id: self.id,
            number: self.number,
            open: is_open(self.state@),
            title: self.title,
            description: self.description,
            fk_creator: self.creator.id,
            open_issues: self.open_issues,
            closed_issues: self.closed_issues,
            created_at: self.created_at.spec_naive_utc(),
            updated_at: self.updated_at.spec_naive_utc(),
            closed_at: spec_naive_opt(self.closed_at),
            due_on: spec_naive_opt(self.due_on),
        }
    }

    /// Normalizes the record. Never fails: a state other than `"open"`
    /// gives a closed milestone.
    pub fn into(self) -> (r: Milestone)
        ensures
            r == self.spec_into(),
            r.open <==> self.state@ == open_state(),
            r.number == self.number,
            r.id == self.id,
            r.fk_creator == self.creator.id,
    {
        let open = state_is_open(self.state.as_str());
        Milestone {
            id: self.id,
            number: self.number,
            open,
            title: self.title,
            description: self.description,
            fk_creator: self.creator.id,
            open_issues: self.open_issues,
            closed_issues: self.closed_issues,
            created_at: self.created_at.naive_utc(),
            updated_at: self.updated_at.naive_utc(),
            closed_at: naive_opt(self.closed_at),
            due_on: naive_opt(self.due_on),
        }
    }
}

/// A label as the wire carries it.
#[derive(Debug, Clone)]
pub struct LabelFromJson {
    pub name: String,
    pub color: String,
}

impl LabelFromJson {
    /// The domain label that this record gives on the issue numbered
    /// `fk_issue`.
    pub open spec fn spec_to_issue_label(self, fk_issue: i32) -> IssueLabel {
        IssueLabel { fk_issue, label: self.name, color: self.color }
    }

    /// Normalizes the label of the issue numbered `fk_issue`. Name and color
    /// are taken as they are.
    pub fn to_issue_label(&self, fk_issue: i32) -> (r: IssueLabel)
        ensures
            r == self.spec_to_issue_label(fk_issue),
    {
        IssueLabel { fk_issue, label: self.name.clone(), color: self.color.clone() }
    }
}

/// The pull-request URL bundle of an issue record; only its presence is used.
pub type PullRequestUrls = BTreeMap<String, String>;

/// The body that an issue gets: the wire body, or empty where there is none.
pub open spec fn body_or_empty(body: Option<String>) -> Seq<char> {
    match body {
        Some(b) => b@,
        None => Seq::empty(),
    }
}

/// An issue (or pull request) as the wire carries it.
#[derive(Debug, Clone)]
pub struct IssueFromJson {
    pub number: i32,
    pub user: GitHubUser,
    pub assignee: Option<GitHubUser>,
    pub state: String,
    pub title: String,
    pub body: Option<String>,
    pub labels: Option<Vec<LabelFromJson>>,
    pub milestone: Option<MilestoneFromJson>,
    pub locked: bool,
    pub comments: i32,
    pub pull_request: Option<PullRequestUrls>,
    pub closed_at: Option<ZonedTimestamp>,
    pub created_at: ZonedTimestamp,
    pub updated_at: ZonedTimestamp,
    pub comments_url: String,
}

impl IssueFromJson {
    /// The wire labels, none where the field is absent.
    pub open spec fn wire_labels(self) -> Seq<LabelFromJson> {
        match self.labels {
            Some(ls) => ls@,
            None => Seq::empty(),
        }
    }

    /// The issue's labels, in wire order, each owned by the issue's number.
    pub open spec fn spec_labels(self) -> Seq<IssueLabel> {
        Seq::new(
            self.wire_labels().len(),
            |i: int| self.wire_labels()[i].spec_to_issue_label(self.number),
        )
    }

    /// The milestone foreign key: the milestone's `number`, not its `id`.
    pub open spec fn spec_fk_milestone(self) -> Option<i32> {
        match self.milestone {
            Some(m) => Some(m.number),
            None => None,
        }
    }

    /// The normalized milestone, present iff the record has one.
    pub open spec fn spec_milestone(self) -> Option<Milestone> {
        match self.milestone {
            Some(m) => Some(m.spec_into()),
            None => None,
        }
    }

    /// Whether `i` is the domain issue that this record normalizes to.
    pub open spec fn is_normalized_issue(self, i: Issue) -> bool {
        &&& i.number == self.number
        &&& i.fk_milestone == self.spec_fk_milestone()
        &&& i.fk_user == self.user.id
        &&& i.fk_assignee == (match self.assignee {
            Some(a) => Some(a.id),
            None => None,
        })
        &&& i.open == is_open(self.state@)
        &&& i.is_pull_request == self.pull_request is Some
        &&& i.title == self.title
        &&& i.body@ == body_or_empty(self.body)
        &&& i.locked == self.locked
        &&& i.comments == self.comments
        &&& i.closed_at == spec_naive_opt(self.closed_at)
        &&& i.created_at == self.created_at.spec_naive_utc()
        &&& i.updated_at == self.updated_at.spec_naive_utc()
    }

    /// Whether `r` is what this record normalizes to: the issue, its
    /// milestone and its labels.
    pub open spec fn normalizes_to(self, r: (Issue, Option<Milestone>, Vec<IssueLabel>)) -> bool {
        &&& self.is_normalized_issue(r.0)
        &&& r.1 == self.spec_milestone()
        &&& r.2@ == self.spec_labels()
    }

    /// Normalizes the record into the issue, its milestone (present iff the
    /// record has one) and its labels (in wire order). Never fails.
    pub fn into(self) -> (r: (Issue, Option<Milestone>, Vec<IssueLabel>))
        ensures
            self.normalizes_to(r),
            r.0.open <==> self.state@ == open_state(),
            r.0.body@ == body_or_empty(self.body),
            self.body is Some ==> r.0.body == self.body->0,
            r.0.is_pull_request <==> self.pull_request is Some,
            r.2.len() == self.wire_labels().len(),
            forall|i: int|
                0 <= i < r.2.len() ==> {
                    &&& (#[trigger] r.2[i]).fk_issue == self.number
                    &&& r.2[i].label == self.wire_labels()[i].name
                    &&& r.2[i].color == self.wire_labels()[i].color
                },
            r.1 is Some <==> self.milestone is Some,
            r.1 matches Some(m) ==> r.0.fk_milestone == Some(m.number),
            r.1 is None ==> r.0.fk_milestone is None,
    {
        let IssueFromJson {
            number,
            user,
            assignee,
            state,
            title,
            body,
            labels: wire_labels,
            milestone,
            locked,
            comments,
            pull_request,
            closed_at,
            created_at,
            updated_at,
            comments_url: _,
        } = self;
        let mut labels: Vec<IssueLabel> = Vec::new();
        if let Some(ls) = &wire_labels {
            let mut i: usize = 0;
            while i < ls.len()
                invariant
                    i <= ls.len(),
                    ls@ == self.wire_labels(),
                    number == self.number,
                    labels.len() == i,
                    forall|j: int|
                        0 <= j < i ==> #[trigger] labels[j] == ls[j].spec_to_issue_label(number),
                decreases ls.len() - i,
            {
                labels.push(ls[i].to_issue_label(number));
                i = i + 1;
            }
        }
        assert(labels@ =~= self.spec_labels());
        let fk_milestone = match &milestone {
            Some(m) => Some(m.number),
            None => None,
        };
        let fk_assignee = match assignee {
            Some(a) => Some(a.id),
            None => None,
        };
        let body = match body {
            Some(b) => b,
            None => String::new(),
        };
        let issue = Issue {
            number,
            fk_milestone,
            fk_user: user.id,
            fk_assignee,
            open: state_is_open(state.as_str()),
            is_pull_request: pull_request.is_some(),
            title,
            body,
            locked,
            comments,
            closed_at: naive_opt(closed_at),
            created_at: created_at.naive_utc(),
            updated_at: updated_at.naive_utc(),
        };
        let milestone = match milestone {
            Some(m) => Some(m.into()),
            None => None,
        };
        (issue, milestone, labels)
    }
}

/// A comment as the wire carries it. It names its issue only inside
/// `html_url`.
#[derive(Debug, Clone)]
pub struct CommentFromJson {
    pub id: i32,
    pub html_url: String,
    pub body: String,
    pub user: GitHubUser,
    pub created_at: ZonedTimestamp,
    pub updated_at: ZonedTimestamp,
}

impl CommentFromJson {
    /// The domain comment that this record normalizes to.
    pub open spec fn spec_into(self) -> IssueComment {
        IssueComment {
            id: self.id,
            fk_issue: issue_number_of(self.html_url@),
            fk_user: self.user.id,
            body: self.body,
            created_at: self.created_at.spec_naive_utc(),
            updated_at: self.updated_at.spec_naive_utc(),
        }
    }

    /// Normalizes the record, reading the owning issue's number from
    /// `html_url`. Never fails: where the URL holds no number, the foreign
    /// key is `UNPARSED_ISSUE`.
    pub fn into(self) -> (r: IssueComment)
        ensures
            r == self.spec_into(),
            r.fk_issue == issue_number_of(self.html_url@),
    {
        let fk_issue = issue_number_from_url(self.html_url.as_str());
        IssueComment {
            id: self.id,
            fk_issue,
            fk_user: self.user.id,
            body: self.body,
            created_at: self.created_at.naive_utc(),
            updated_at: self.updated_at.naive_utc(),
        }
    }
}

/// The fields that only a pull request carries. Pull requests are normalized
/// as issues; these fields have no domain counterpart yet.
#[derive(Debug, Clone)]
pub struct PullRequestFromJson {
    pub number: i32,
    pub review_comments_url: String,
    pub state: String,
    pub title: String,
    pub body: Option<String>,
    pub assignee: Option<GitHubUser>,
    pub milestone: Option<MilestoneFromJson>,
    pub locked: bool,
    pub created_at: ZonedTimestamp,
    pub updated_at: ZonedTimestamp,
    pub closed_at: Option<ZonedTimestamp>,
    pub merged_at: Option<ZonedTimestamp>,
    pub commits: i32,
    pub additions: i32,
    pub deletions: i32,
    pub changed_files: i32,
}

/// Normalizing the same milestone record twice gives equal milestones.
pub proof fn lemma_milestone_normalization_repeatable(a: MilestoneFromJson, b: MilestoneFromJson)
    requires
        a == b,
    ensures
        a.spec_into() == b.spec_into(),
{
}

/// Normalizing the same issue record twice gives the same issue, equal
/// milestones and equal label sequences: nothing is kept between calls.
pub proof fn lemma_issue_normalization_repeatable(
    w: IssueFromJson,
    first: (Issue, Option<Milestone>, Vec<IssueLabel>),
    second: (Issue, Option<Milestone>, Vec<IssueLabel>),
)
    requires
        w.normalizes_to(first),
        w.normalizes_to(second),
    ensures
        first.0.same_content(second.0),
        first.1 == second.1,
        first.2@ == second.2@,
{
}

/// Normalizing the same comment record twice gives equal comments.
pub proof fn lemma_comment_normalization_repeatable(a: CommentFromJson, b: CommentFromJson)
    requires
        a == b,
    ensures
        a.spec_into() == b.spec_into(),
{
}

} // verus!
