//! The sparse issue data of a remote response, as plain values.

use vstd::prelude::*;

verus! {

/// A remote object of which only the name is kept.
#[derive(Debug, Clone)]
pub struct NamedObject {
    pub name: String,
}

/// A comment as the remote store lists it under an issue.
#[derive(Debug, Clone)]
pub struct RawComment {
    pub body: String,
}

/// The watcher summary of an issue.
#[derive(Debug, Clone)]
pub struct WatchInfo {
    pub watch_count: u64,
}

/// The vote summary of an issue.
#[derive(Debug, Clone)]
pub struct VoteInfo {
    pub votes: u64,
}

/// What one response says about one issue. A field is `None` where the
/// response left the attribute out. Where the attribute itself is optional
/// (a resolution, a parent, a resolution date) the inner `None` says that the
/// issue has none.
#[derive(Debug, Clone)]
pub struct RawIssueData {
    pub key: Option<String>,
    pub summary: Option<String>,
    pub description: Option<String>,
    pub comments: Option<Vec<RawComment>>,
    pub status: Option<NamedObject>,
    pub priority: Option<NamedObject>,
    pub resolution: Option<Option<NamedObject>>,
    pub issuetype: Option<NamedObject>,
    pub issue_links: Option<Vec<String>>,
    pub parent: Option<Option<String>>,
    pub subtasks: Option<Vec<String>>,
    pub watches: Option<WatchInfo>,
    pub votes: Option<VoteInfo>,
    pub created: Option<String>,
    pub updated: Option<String>,
    pub resolutiondate: Option<Option<String>>,
    pub labels: Option<Vec<String>>,
    pub components: Option<Vec<NamedObject>>,
    pub versions: Option<Vec<NamedObject>>,
    pub fix_versions: Option<Vec<NamedObject>>,
}

impl RawIssueData {
    /// Whether the response left every attribute out.
    pub open spec fn is_blank(&self) -> bool {
        &&& self.key is None
        &&& self.summary is None
        &&& self.description is None
        &&& self.comments is None
        &&& self.status is None
        &&& self.priority is None
        &&& self.resolution is None
        &&& self.issuetype is None
        &&& self.issue_links is None
        &&& self.parent is None
        &&& self.subtasks is None
        &&& self.watches is None
        &&& self.votes is None
        &&& self.created is None
        &&& self.updated is None
        &&& self.resolutiondate is None
        &&& self.labels is None
        &&& self.components is None
        &&& self.versions is None
        &&& self.fix_versions is None
    }
}

impl Default for RawIssueData {
    /// A response that says nothing.
    fn default() -> (blank: Self)
        ensures
            blank.is_blank(),
    {
        RawIssueData {
            key: None,
            summary: None,
            description: None,
            comments: None,
            status: None,
            priority: None,
            resolution: None,
            issuetype: None,
            issue_links: None,
            parent: None,
            subtasks: None,
            watches: None,
            votes: None,
            created: None,
            updated: None,
            resolutiondate: None,
            labels: None,
            components: None,
            versions: None,
            fix_versions: None,
        }
    }
}

} // verus!
