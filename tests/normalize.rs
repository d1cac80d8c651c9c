use std::collections::BTreeMap;

use github_ingest::domain::{GitHubUser, IssueLabel, Milestone};
use github_ingest::models::{
    state_is_open, CommentFromJson, IssueFromJson, LabelFromJson, MilestoneFromJson,
    PullRequestFromJson,
};
use github_ingest::timestamp::{naive_opt, NaiveTimestamp, ZonedTimestamp};
use github_ingest::url_number::{issue_number_from_url, parse_issue_number, UNPARSED_ISSUE};

fn user(id: i32) -> GitHubUser {
    GitHubUser { id, login: format!("user{}", id) }
}

fn at(secs: i64) -> ZonedTimestamp {
    ZonedTimestamp { utc_secs: secs, nanos: 0, offset_secs: 0 }
}

fn milestone(state: &str) -> MilestoneFromJson {
    MilestoneFromJson {
        id: 9001,
        number: 3,
        state: state.to_string(),
        title: "1.0".to_string(),
        description: Some("first release".to_string()),
        creator: user(7),
        open_issues: 4,
        closed_issues: 11,
        created_at: at(1_000),
        updated_at: at(2_000),
        closed_at: None,
        due_on: Some(ZonedTimestamp { utc_secs: 5_000, nanos: 12, offset_secs: 3_600 }),
    }
}

fn label(name: &str, color: &str) -> LabelFromJson {
    LabelFromJson { name: name.to_string(), color: color.to_string() }
}

fn issue() -> IssueFromJson {
    IssueFromJson {
        number: 42,
        user: user(1),
        assignee: Some(user(2)),
        state: "open".to_string(),
        title: "crash on start".to_string(),
        body: Some("it crashes".to_string()),
        labels: Some(vec![label("bug", "ff0000"), label("P-high", "00ff00"), label("bug", "ff0000")]),
        milestone: Some(milestone("open")),
        locked: false,
        comments: 5,
        pull_request: None,
        closed_at: None,
        created_at: at(10),
        updated_at: ZonedTimestamp { utc_secs: 20, nanos: 5, offset_secs: -7_200 },
        comments_url: "https://api.example.com/repos/o/r/issues/42/comments".to_string(),
    }
}

fn comment(url: &str) -> CommentFromJson {
    CommentFromJson {
        id: 1,
        html_url: url.to_string(),
        body: "me too".to_string(),
        user: user(8),
        created_at: at(30),
        updated_at: at(40),
    }
}

#[test]
fn milestone_open_only_for_exact_open() {
    assert!(milestone("open").into().open);
    for state in ["closed", "", "Open", "OPEN", "open ", " open", "opened", "garbage"] {
        assert!(!milestone(state).into().open, "state {:?}", state);
    }
}

#[test]
fn state_is_open_exact() {
    assert!(state_is_open("open"));
    assert!(!state_is_open("opeN"));
    assert!(!state_is_open("ope"));
    assert!(!state_is_open(""));
}

#[test]
fn milestone_fields_carried_over() {
    let m: Milestone = milestone("closed").into();
    assert_eq!(m.id, 9001);
    assert_eq!(m.number, 3);
    assert!(!m.open);
    assert_eq!(m.title, "1.0");
    assert_eq!(m.description, Some("first release".to_string()));
    assert_eq!(m.fk_creator, 7);
    assert_eq!(m.open_issues, 4);
    assert_eq!(m.closed_issues, 11);
    assert_eq!(m.created_at, NaiveTimestamp { secs: 1_000, nanos: 0 });
    assert_eq!(m.updated_at, NaiveTimestamp { secs: 2_000, nanos: 0 });
    assert_eq!(m.closed_at, None);
    assert_eq!(m.due_on, Some(NaiveTimestamp { secs: 5_000, nanos: 12 }));
}

#[test]
fn timestamp_offset_is_dropped() {
    let z = ZonedTimestamp { utc_secs: 1_476_000_000, nanos: 999, offset_secs: -18_000 };
    assert_eq!(z.naive_utc(), NaiveTimestamp { secs: 1_476_000_000, nanos: 999 });
    assert_eq!(naive_opt(None), None);
    assert_eq!(naive_opt(Some(z)), Some(NaiveTimestamp { secs: 1_476_000_000, nanos: 999 }));
}

#[test]
fn label_takes_owner_from_caller() {
    let l = label("", "not a color").to_issue_label(-5);
    assert_eq!(l, IssueLabel { fk_issue: -5, label: "".to_string(), color: "not a color".to_string() });
}

#[test]
fn issue_fields_carried_over() {
    let (i, m, _) = issue().into();
    assert_eq!(i.number, 42);
    assert_eq!(i.fk_user, 1);
    assert_eq!(i.fk_assignee, Some(2));
    assert!(i.open);
    assert!(!i.is_pull_request);
    assert_eq!(i.title, "crash on start");
    assert_eq!(i.body, "it crashes");
    assert!(!i.locked);
    assert_eq!(i.comments, 5);
    assert_eq!(i.closed_at, None);
    assert_eq!(i.created_at, NaiveTimestamp { secs: 10, nanos: 0 });
    assert_eq!(i.updated_at, NaiveTimestamp { secs: 20, nanos: 5 });
    assert_eq!(m, Some(milestone("open").into()));
}

#[test]
fn issue_closed_state() {
    let mut w = issue();
    w.state = "closed".to_string();
    assert!(!w.into().0.open);
    let mut w = issue();
    w.state = "Open".to_string();
    assert!(!w.into().0.open);
}

#[test]
fn issue_absent_body_becomes_empty() {
    let mut w = issue();
    w.body = None;
    assert_eq!(w.into().0.body, "");
    let mut w = issue();
    w.body = Some(String::new());
    assert_eq!(w.into().0.body, "");
}

#[test]
fn issue_pull_request_flag_follows_presence() {
    let mut w = issue();
    w.pull_request = Some(BTreeMap::new());
    assert!(w.into().0.is_pull_request);
    let mut urls = BTreeMap::new();
    urls.insert("url".to_string(), "https://api.example.com/repos/o/r/pulls/42".to_string());
    let mut w = issue();
    w.pull_request = Some(urls);
    assert!(w.into().0.is_pull_request);
    assert!(!issue().into().0.is_pull_request);
}

#[test]
fn issue_labels_keep_order_and_owner() {
    let (_, _, labels) = issue().into();
    assert_eq!(
        labels,
        vec![
            IssueLabel { fk_issue: 42, label: "bug".to_string(), color: "ff0000".to_string() },
            IssueLabel { fk_issue: 42, label: "P-high".to_string(), color: "00ff00".to_string() },
            IssueLabel { fk_issue: 42, label: "bug".to_string(), color: "ff0000".to_string() },
        ]
    );
}

#[test]
fn issue_without_labels() {
    let mut w = issue();
    w.labels = None;
    assert!(w.into().2.is_empty());
    let mut w = issue();
    w.labels = Some(vec![]);
    assert!(w.into().2.is_empty());
}

#[test]
fn issue_milestone_key_is_number_not_id() {
    let (i, m, _) = issue().into();
    let m = m.unwrap();
    assert_eq!(i.fk_milestone, Some(3));
    assert_eq!(i.fk_milestone, Some(m.number));
    assert_ne!(i.fk_milestone, Some(m.id));
    let mut w = issue();
    w.milestone = None;
    let (i, m, _) = w.into();
    assert_eq!(i.fk_milestone, None);
    assert_eq!(m, None);
}

#[test]
fn comment_url_with_number_and_fragment() {
    let c = comment("https://api.example.com/repos/o/r/issues/42#issuecomment-1").into();
    assert_eq!(c.fk_issue, 42);
    assert_eq!(c.id, 1);
    assert_eq!(c.fk_user, 8);
    assert_eq!(c.body, "me too");
    assert_eq!(c.created_at, NaiveTimestamp { secs: 30, nanos: 0 });
    assert_eq!(c.updated_at, NaiveTimestamp { secs: 40, nanos: 0 });
}

#[test]
fn comment_url_not_a_number_gives_sentinel() {
    let c = comment("https://api.example.com/repos/o/r/issues/notanumber#frag").into();
    assert_eq!(c.fk_issue, i32::MAX);
    assert_eq!(UNPARSED_ISSUE, i32::MAX);
}

#[test]
fn comment_url_without_hash_or_number_gives_sentinel() {
    assert_eq!(comment("https://example.com/").into().fk_issue, i32::MAX);
    assert_eq!(comment("").into().fk_issue, i32::MAX);
}

#[test]
fn comment_url_edge_cases() {
    assert_eq!(issue_number_from_url("https://example.com/issues/7"), 7);
    assert_eq!(issue_number_from_url("123"), 123);
    assert_eq!(issue_number_from_url("a/b/9#x/10"), 9);
    assert_eq!(issue_number_from_url("a/+15#c"), 15);
    assert_eq!(issue_number_from_url("a/-15#c"), -15);
    assert_eq!(issue_number_from_url("a/2147483647"), i32::MAX);
    assert_eq!(issue_number_from_url("a/-2147483648"), i32::MIN);
    assert_eq!(issue_number_from_url("a/2147483648"), i32::MAX);
    assert_eq!(issue_number_from_url("a/99999999999999999999"), i32::MAX);
    assert_eq!(issue_number_from_url("a/-"), i32::MAX);
    assert_eq!(issue_number_from_url("a/+"), i32::MAX);
    assert_eq!(issue_number_from_url("a/4 2"), i32::MAX);
    assert_eq!(issue_number_from_url("a/42/"), i32::MAX);
    assert_eq!(issue_number_from_url("#42"), i32::MAX);
    assert_eq!(issue_number_from_url("a/0042"), 42);
}

#[test]
fn parse_issue_number_reports_fallback() {
    assert_eq!(parse_issue_number("https://api.example.com/repos/o/r/issues/42#c"), Some(42));
    assert_eq!(parse_issue_number("https://api.example.com/repos/o/r/issues/notanumber#frag"), None);
    assert_eq!(parse_issue_number("https://example.com/"), None);
}

#[test]
fn normalizing_twice_gives_equal_output() {
    let w = issue();
    assert_eq!(w.clone().into(), w.into());
    let m = milestone("open");
    assert_eq!(m.clone().into(), m.into());
    let c = comment("https://api.example.com/repos/o/r/issues/42#issuecomment-1");
    assert_eq!(c.clone().into(), c.into());
}

#[test]
fn pull_request_shape_builds() {
    let p = PullRequestFromJson {
        number: 6,
        review_comments_url: "https://api.example.com/repos/o/r/pulls/6/comments".to_string(),
        state: "closed".to_string(),
        title: "fix".to_string(),
        body: None,
        assignee: None,
        milestone: None,
        locked: true,
        created_at: at(1),
        updated_at: at(2),
        closed_at: Some(at(3)),
        merged_at: Some(at(3)),
        commits: 2,
        additions: 10,
        deletions: 4,
        changed_files: 1,
    };
    assert_eq!(p.clone().number, 6);
}
