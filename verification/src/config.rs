//! Choices that are fixed when a handle is made.

use vstd::prelude::*;

verus! {

/// How a mutable entity treats its locally cached configuration.
#[derive(Debug, Clone, Copy, PartialEq, Eq, Structural, Hash)]
pub enum ConfigHandlingPolicy {
    /// Read the local cache, fetching once if it is cold; write with the
    /// local value of the field that is not being changed.
    ReadLocalWriteNoFetch,
    /// Never trust the local cache: fetch before every read, and fetch the
    /// field that is not being changed before every write.
    ReadFetchWriteWithFetch,
}

/// How a handle treats the manual labels that it has loaded.
#[derive(Debug, Clone, Copy, PartialEq, Eq, Structural, Hash)]
pub enum CachingPolicy {
    /// Ask the remote store every time.
    NoCaching,
    /// Keep what was loaded and answer from it.
    UseLocalAfterLoad,
}

/// The attributes of an issue, one per field cell of its record.
#[derive(Debug, Clone, Copy, PartialEq, Eq, Structural, Hash)]
pub enum IssueAttribute {
    Key,
    Summary,
    Description,
    Comments,
    Parent,
    Subtasks,
    IssueLinks,
    Status,
    Priority,
    Resolution,
    IssueType,
    Watches,
    Votes,
    DateCreated,
    DateUpdated,
    DateResolved,
    Labels,
    Components,
    AffectedVersions,
    FixVersions,
}

} // verus!
