use issue_db_api::config::IssueAttribute;
use issue_db_api::errors::FetchError;
use issue_db_api::issue_data::{records_from_response, IssueData, IssueDataResponse};
use issue_db_api::raw_issue_response::{
    NamedObject, RawComment, RawIssueData, VoteInfo, WatchInfo,
};
use std::cell::Cell;
use std::collections::hash_map::DefaultHasher;
use std::hash::{Hash, Hasher};

const ALL: [IssueAttribute; 20] = [
    IssueAttribute::Key,
    IssueAttribute::Summary,
    IssueAttribute::Description,
    IssueAttribute::Comments,
    IssueAttribute::Parent,
    IssueAttribute::Subtasks,
    IssueAttribute::IssueLinks,
    IssueAttribute::Status,
    IssueAttribute::Priority,
    IssueAttribute::Resolution,
    IssueAttribute::IssueType,
    IssueAttribute::Watches,
    IssueAttribute::Votes,
    IssueAttribute::DateCreated,
    IssueAttribute::DateUpdated,
    IssueAttribute::DateResolved,
    IssueAttribute::Labels,
    IssueAttribute::Components,
    IssueAttribute::AffectedVersions,
    IssueAttribute::FixVersions,
];

fn named(name: &str) -> NamedObject {
    NamedObject { name: name.to_string() }
}

fn text(value: &str) -> Option<String> {
    Some(value.to_string())
}

fn full_raw(tag: &str) -> RawIssueData {
    RawIssueData {
        key: text(&format!("{}-key", tag)),
        summary: text(&format!("{}-summary", tag)),
        description: text(&format!("{}-description", tag)),
        comments: Some(vec![
            RawComment { body: format!("{}-c1", tag) },
            RawComment { body: format!("{}-c2", tag) },
        ]),
        status: Some(named(&format!("{}-status", tag))),
        priority: Some(named(&format!("{}-priority", tag))),
        resolution: Some(Some(named(&format!("{}-resolution", tag)))),
        issuetype: Some(named(&format!("{}-type", tag))),
        issue_links: Some(vec![format!("{}-link", tag)]),
        parent: Some(text(&format!("{}-parent", tag))),
        subtasks: Some(vec![format!("{}-s1", tag)]),
        watches: Some(WatchInfo { watch_count: 3 }),
        votes: Some(VoteInfo { votes: 5 }),
        created: text(&format!("{}-created", tag)),
        updated: text(&format!("{}-updated", tag)),
        resolutiondate: Some(text(&format!("{}-resolved", tag))),
        labels: Some(vec![format!("{}-l1", tag), format!("{}-l2", tag)]),
        components: Some(vec![named(&format!("{}-comp", tag))]),
        versions: Some(vec![named(&format!("{}-v1", tag)), named(&format!("{}-v2", tag))]),
        fix_versions: Some(vec![named(&format!("{}-f1", tag))]),
    }
}

fn never(_: String, _: IssueAttribute) -> Result<IssueDataResponse, String> {
    panic!("the remote service must not be asked")
}

fn hash_of<T: Hash>(value: &T) -> u64 {
    let mut hasher = DefaultHasher::new();
    value.hash(&mut hasher);
    hasher.finish()
}

/// Everything a record holds, read without the remote service.
fn snapshot(record: &IssueData) -> Vec<String> {
    let mut copy = record.clone();
    let mut out = vec![copy.ident().clone()];
    for attribute in ALL {
        if !copy.is_populated(attribute) {
            out.push(format!("{:?}: empty", attribute));
            continue;
        }
        let shown = match attribute {
            IssueAttribute::Key => format!("{:?}", copy.key(never).unwrap()),
            IssueAttribute::Summary => format!("{:?}", copy.summary(never).unwrap()),
            IssueAttribute::Description => format!("{:?}", copy.description(never).unwrap()),
            IssueAttribute::Comments => format!("{:?}", copy.comments(never).unwrap()),
            IssueAttribute::Parent => format!("{:?}", copy.parent(never).unwrap()),
            IssueAttribute::Subtasks => format!("{:?}", copy.subtasks(never).unwrap()),
            IssueAttribute::IssueLinks => format!("{:?}", copy.issue_links(never).unwrap()),
            IssueAttribute::Status => format!("{:?}", copy.status(never).unwrap()),
            IssueAttribute::Priority => format!("{:?}", copy.priority(never).unwrap()),
            IssueAttribute::Resolution => format!("{:?}", copy.resolution(never).unwrap()),
            IssueAttribute::IssueType => format!("{:?}", copy.issue_type(never).unwrap()),
            IssueAttribute::Watches => format!("{:?}", copy.watches(never).unwrap()),
            IssueAttribute::Votes => format!("{:?}", copy.votes(never).unwrap()),
            IssueAttribute::DateCreated => format!("{:?}", copy.date_created(never).unwrap()),
            IssueAttribute::DateUpdated => format!("{:?}", copy.date_updated(never).unwrap()),
            IssueAttribute::DateResolved => format!("{:?}", copy.date_resolved(never).unwrap()),
            IssueAttribute::Labels => format!("{:?}", copy.labels(never).unwrap()),
            IssueAttribute::Components => format!("{:?}", copy.components(never).unwrap()),
            IssueAttribute::AffectedVersions => {
                format!("{:?}", copy.affected_versions(never).unwrap())
            }
            IssueAttribute::FixVersions => format!("{:?}", copy.fix_versions(never).unwrap()),
        };
        out.push(format!("{:?}: {}", attribute, shown));
    }
    out
}

#[test]
fn new_record_has_nothing_but_its_identifier() {
    let record = IssueData::new_empty("X-1".to_string());
    assert_eq!(record.ident(), "X-1");
    for attribute in ALL {
        assert!(!record.is_populated(attribute), "{:?}", attribute);
    }
}

#[test]
fn every_attribute_of_a_new_record_is_fetched_on_first_access() {
    for attribute in ALL {
        let calls = Cell::new(0u32);
        let mut record = IssueData::new_empty("X-1".to_string());
        let outcome = record.load(attribute, |ident, asked| -> Result<IssueDataResponse, String> {
            calls.set(calls.get() + 1);
            assert_eq!(asked, attribute);
            Ok(vec![(ident, full_raw("r"))])
        });
        assert_eq!(outcome, Ok(()), "{:?}", attribute);
        assert_eq!(calls.get(), 1, "{:?}", attribute);
        assert!(record.is_populated(attribute), "{:?}", attribute);
    }
}

#[test]
fn issue_links_come_from_the_remote_service() {
    let calls = Cell::new(0u32);
    let mut record = IssueData::new_empty("X-1".to_string());
    for _ in 0..2 {
        let links = record
            .issue_links(|ident, attribute| -> Result<IssueDataResponse, String> {
                calls.set(calls.get() + 1);
                assert_eq!(ident, "X-1");
                assert_eq!(attribute, IssueAttribute::IssueLinks);
                let mut raw = RawIssueData::default();
                raw.issue_links = Some(vec!["X-7".to_string(), "X-9".to_string()]);
                Ok(vec![(ident, raw)])
            })
            .unwrap()
            .clone();
        assert_eq!(links, vec!["X-7".to_string(), "X-9".to_string()]);
    }
    assert_eq!(calls.get(), 1);
}

#[test]
fn response_without_links_leaves_the_links_cell_empty() {
    let mut record = IssueData::from_raw_data("X-1".to_string(), RawIssueData::default());
    assert!(!record.is_populated(IssueAttribute::IssueLinks));
    let outcome = record.issue_links(|ident, _| -> Result<IssueDataResponse, String> {
        let mut raw = RawIssueData::default();
        raw.summary = text("no links here");
        Ok(vec![(ident, raw)])
    });
    assert_eq!(outcome, Err(FetchError::MissingAttribute));
    let known_empty = record.issue_links(|ident, _| -> Result<IssueDataResponse, String> {
        let mut raw = RawIssueData::default();
        raw.issue_links = Some(vec![]);
        Ok(vec![(ident, raw)])
    });
    assert_eq!(known_empty, Ok(&vec![]));
}

#[test]
fn record_from_a_full_response() {
    let mut record = IssueData::from_raw_data("X-1".to_string(), full_raw("a"));
    for attribute in ALL {
        assert!(record.is_populated(attribute), "{:?}", attribute);
    }
    assert_eq!(record.key(never).unwrap(), "a-key");
    assert_eq!(record.summary(never).unwrap(), "a-summary");
    assert_eq!(record.description(never).unwrap(), "a-description");
    assert_eq!(record.comments(never).unwrap(), &vec!["a-c1".to_string(), "a-c2".to_string()]);
    assert_eq!(record.status(never).unwrap(), "a-status");
    assert_eq!(record.priority(never).unwrap(), "a-priority");
    assert_eq!(record.resolution(never).unwrap(), &Some("a-resolution".to_string()));
    assert_eq!(record.issue_type(never).unwrap(), "a-type");
    assert_eq!(record.issue_links(never).unwrap(), &vec!["a-link".to_string()]);
    assert_eq!(record.parent(never).unwrap(), &Some("a-parent".to_string()));
    assert_eq!(record.subtasks(never).unwrap(), &vec!["a-s1".to_string()]);
    assert_eq!(record.watches(never).unwrap(), 3);
    assert_eq!(record.votes(never).unwrap(), 5);
    assert_eq!(record.date_created(never).unwrap(), "a-created");
    assert_eq!(record.date_updated(never).unwrap(), "a-updated");
    assert_eq!(record.date_resolved(never).unwrap(), &Some("a-resolved".to_string()));
    assert_eq!(record.labels(never).unwrap(), &vec!["a-l1".to_string(), "a-l2".to_string()]);
    assert_eq!(record.components(never).unwrap(), &vec!["a-comp".to_string()]);
    assert_eq!(
        record.affected_versions(never).unwrap(),
        &vec!["a-v1".to_string(), "a-v2".to_string()]
    );
    assert_eq!(record.fix_versions(never).unwrap(), &vec!["a-f1".to_string()]);
}

#[test]
fn optional_attributes_can_be_known_to_be_absent() {
    let mut raw = RawIssueData::default();
    raw.resolution = Some(None);
    raw.parent = Some(None);
    raw.resolutiondate = Some(None);
    let mut record = IssueData::from_raw_data("X-1".to_string(), raw);
    assert!(record.is_populated(IssueAttribute::Resolution));
    assert_eq!(record.resolution(never), Ok(&None));
    assert_eq!(record.parent(never), Ok(&None));
    assert_eq!(record.date_resolved(never), Ok(&None));
    assert!(!record.is_populated(IssueAttribute::Status));
}

#[test]
fn merge_fills_empty_cells_and_keeps_populated_ones() {
    let mut raw = RawIssueData::default();
    raw.key = text("mine");
    raw.watches = Some(WatchInfo { watch_count: 1 });
    raw.labels = Some(vec!["own".to_string()]);
    let mut target = IssueData::from_raw_data("X-1".to_string(), raw);
    target.merge(IssueData::from_raw_data("X-1".to_string(), full_raw("donor")));

    assert_eq!(target.key(never).unwrap(), "mine");
    assert_eq!(target.watches(never).unwrap(), 1);
    assert_eq!(target.labels(never).unwrap(), &vec!["own".to_string()]);
    assert_eq!(target.summary(never).unwrap(), "donor-summary");
    assert_eq!(target.votes(never).unwrap(), 5);
    assert_eq!(target.components(never).unwrap(), &vec!["donor-comp".to_string()]);
    assert_eq!(target.resolution(never).unwrap(), &Some("donor-resolution".to_string()));
    assert_eq!(target.ident(), "X-1");
}

#[test]
fn merge_with_an_empty_donor_changes_nothing() {
    let mut target = IssueData::from_raw_data("X-1".to_string(), full_raw("a"));
    let before = snapshot(&target);
    target.merge(IssueData::new_empty("X-1".to_string()));
    assert_eq!(snapshot(&target), before);

    let mut empty = IssueData::new_empty("X-1".to_string());
    let before = snapshot(&empty);
    empty.merge(IssueData::new_empty("X-1".to_string()));
    assert_eq!(snapshot(&empty), before);
}

#[test]
fn merge_is_idempotent() {
    let mut raw = RawIssueData::default();
    raw.summary = text("kept");
    raw.parent = Some(None);
    let mut once = IssueData::from_raw_data("X-1".to_string(), raw);
    let donor = IssueData::from_raw_data("X-1".to_string(), full_raw("d"));
    once.merge(donor.clone());
    let mut twice = once.clone();
    twice.merge(donor);
    assert_eq!(snapshot(&once), snapshot(&twice));
}

#[test]
fn identity_ignores_cache_state() {
    let full = IssueData::from_raw_data("X-1".to_string(), full_raw("a"));
    let empty = IssueData::new_empty("X-1".to_string());
    let other = IssueData::from_raw_data("X-2".to_string(), full_raw("a"));
    assert!(full == empty);
    assert_eq!(hash_of(&full), hash_of(&empty));
    assert_eq!(hash_of(&full), hash_of(&"X-1".to_string()));
    assert!(full != other);
    assert!(empty != other);
}

#[test]
fn empty_cell_is_fetched_once_and_then_cached() {
    let calls = Cell::new(0u32);
    let mut record = IssueData::new_empty("X-1".to_string());
    for _ in 0..3 {
        let summary = record
            .summary(|ident, attribute| -> Result<IssueDataResponse, String> {
                calls.set(calls.get() + 1);
                assert_eq!(ident, "X-1");
                assert_eq!(attribute, IssueAttribute::Summary);
                let mut raw = RawIssueData::default();
                raw.summary = text(&format!("fetched {}", calls.get()));
                Ok(vec![(ident, raw)])
            })
            .unwrap()
            .clone();
        assert_eq!(summary, "fetched 1");
    }
    assert_eq!(calls.get(), 1);
}

#[test]
fn each_attribute_asks_for_itself() {
    let mut record = IssueData::new_empty("ISSUE-9".to_string());
    let asked = Cell::new(None);
    let votes = record.votes(|ident, attribute| -> Result<IssueDataResponse, String> {
        asked.set(Some(attribute));
        let mut raw = RawIssueData::default();
        raw.votes = Some(VoteInfo { votes: 12 });
        Ok(vec![("OTHER-1".to_string(), full_raw("other")), (ident, raw)])
    });
    assert_eq!(votes, Ok(12));
    assert_eq!(asked.get(), Some(IssueAttribute::Votes));
    assert!(!record.is_populated(IssueAttribute::Summary));
}

#[test]
fn remote_failure_is_handed_on_and_can_be_retried() {
    let mut record = IssueData::new_empty("X-1".to_string());
    let failed = record.key(|_, _| Err("503".to_string()));
    assert_eq!(failed, Err(FetchError::Remote("503".to_string())));
    assert!(!record.is_populated(IssueAttribute::Key));
    let retried = record.key(|ident, _| -> Result<IssueDataResponse, String> {
        let mut raw = RawIssueData::default();
        raw.key = text("PROJ-1");
        Ok(vec![(ident, raw)])
    });
    assert_eq!(retried, Ok(&"PROJ-1".to_string()));
}

#[test]
fn response_without_the_attribute_is_an_error() {
    let mut record = IssueData::new_empty("X-1".to_string());
    let outcome = record.description(|ident, _| -> Result<IssueDataResponse, String> {
        let mut raw = RawIssueData::default();
        raw.summary = text("not what was asked for");
        Ok(vec![(ident, raw)])
    });
    assert_eq!(outcome, Err(FetchError::MissingAttribute));
    assert!(!record.is_populated(IssueAttribute::Description));
    assert_eq!(record.summary(never).unwrap(), "not what was asked for");
}

#[test]
fn response_without_the_issue_is_an_error() {
    let mut record = IssueData::new_empty("X-1".to_string());
    let before = snapshot(&record);
    let outcome = record.status(|_, _| -> Result<IssueDataResponse, String> {
        Ok(vec![("X-2".to_string(), full_raw("wrong"))])
    });
    assert_eq!(outcome, Err(FetchError::MissingRecord));
    assert_eq!(snapshot(&record), before);
    let outcome = record.status(|_, _| -> Result<IssueDataResponse, String> { Ok(vec![]) });
    assert_eq!(outcome, Err(FetchError::MissingRecord));
}

#[test]
fn fetched_values_never_replace_cached_ones() {
    let mut raw = RawIssueData::default();
    raw.summary = text("seen first");
    let mut record = IssueData::from_raw_data("X-1".to_string(), raw);
    let status = record
        .status(|ident, _| -> Result<IssueDataResponse, String> { Ok(vec![(ident, full_raw("new"))]) })
        .unwrap()
        .clone();
    assert_eq!(status, "new-status");
    assert_eq!(record.summary(never).unwrap(), "seen first");
    assert_eq!(record.priority(never).unwrap(), "new-priority");
}

#[test]
fn first_entry_for_the_issue_is_taken() {
    let mut first = RawIssueData::default();
    first.key = text("first");
    let mut second = RawIssueData::default();
    second.key = text("second");
    let mut record = IssueData::new_empty("X-1".to_string());
    let outcome = record.reconcile::<String>(
        IssueAttribute::Key,
        Ok(vec![("X-1".to_string(), first), ("X-1".to_string(), second)]),
    );
    assert_eq!(outcome, Ok(()));
    assert_eq!(record.key(never).unwrap(), "first");
}

#[test]
fn load_reports_without_handing_out_a_value() {
    let mut raw = RawIssueData::default();
    raw.issue_links = Some(vec![]);
    let mut record = IssueData::from_raw_data("X-1".to_string(), raw);
    assert_eq!(record.load(IssueAttribute::IssueLinks, never), Ok(()));
    let outcome = record.load(IssueAttribute::Labels, |ident, _| -> Result<IssueDataResponse, u8> {
        let mut raw = RawIssueData::default();
        raw.labels = Some(vec![]);
        Ok(vec![(ident, raw)])
    });
    assert_eq!(outcome, Ok(()));
    assert!(record.is_populated(IssueAttribute::Labels));
    assert_eq!(record.load(IssueAttribute::Votes, |_, _| Err(4u8)), Err(FetchError::Remote(4)));
}

#[test]
fn records_of_a_response() {
    let mut records = records_from_response(vec![
        ("A-1".to_string(), full_raw("a")),
        ("B-2".to_string(), RawIssueData::default()),
    ]);
    assert_eq!(records.len(), 2);
    assert_eq!(records[0].ident(), "A-1");
    assert_eq!(records[0].key(never).unwrap(), "a-key");
    assert_eq!(records[1].ident(), "B-2");
    assert!(!records[1].is_populated(IssueAttribute::Key));
    assert!(records_from_response(vec![]).is_empty());
}
