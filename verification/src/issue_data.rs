//! The lazily populated record of one issue.

use crate::config::IssueAttribute;
use crate::errors::FetchError;
use crate::lazy::{first_populated, LazyField};
use crate::raw_issue_response::{NamedObject, RawComment, RawIssueData};
use vstd::prelude::*;
use vstd::std_specs::cmp::PartialEqSpec;

verus! {

/// The value of one attribute, whatever its type.
pub enum AttributeValue {
    Text(Seq<char>),
    OptionalText(Option<Seq<char>>),
    TextList(Seq<Seq<char>>),
    Count(u64),
}

/// What a record is: its identifier and, for each attribute, the cached value
/// if the cell is populated.
pub struct IssueDataView {
    pub ident: Seq<char>,
    pub key: Option<Seq<char>>,
    pub summary: Option<Seq<char>>,
    pub description: Option<Seq<char>>,
    pub comments: Option<Seq<Seq<char>>>,
    pub status: Option<Seq<char>>,
    pub priority: Option<Seq<char>>,
    pub resolution: Option<Option<Seq<char>>>,
    pub issue_type: Option<Seq<char>>,
    pub issue_links: Option<Seq<Seq<char>>>,
    pub parent: Option<Option<Seq<char>>>,
    pub subtasks: Option<Seq<Seq<char>>>,
    pub watches: Option<u64>,
    pub votes: Option<u64>,
    pub date_created: Option<Seq<char>>,
    pub date_updated: Option<Seq<char>>,
    pub date_resolved: Option<Option<Seq<char>>>,
    pub labels: Option<Seq<Seq<char>>>,
    pub components: Option<Seq<Seq<char>>>,
    pub affected_versions: Option<Seq<Seq<char>>>,
    pub fix_versions: Option<Seq<Seq<char>>>,
}

/// A cached text as the value of an attribute.
pub open spec fn as_text(value: Option<Seq<char>>) -> Option<AttributeValue> {
    match value {
        Some(text) => Some(AttributeValue::Text(text)),
        None => None,
    }
}

/// A cached optional text as the value of an attribute.
pub open spec fn as_optional_text(value: Option<Option<Seq<char>>>) -> Option<AttributeValue> {
    match value {
        Some(text) => Some(AttributeValue::OptionalText(text)),
        None => None,
    }
}

/// A cached list of texts as the value of an attribute.
pub open spec fn as_text_list(value: Option<Seq<Seq<char>>>) -> Option<AttributeValue> {
    match value {
        Some(list) => Some(AttributeValue::TextList(list)),
        None => None,
    }
}

/// A cached count as the value of an attribute.
pub open spec fn as_count(value: Option<u64>) -> Option<AttributeValue> {
    match value {
        Some(count) => Some(AttributeValue::Count(count)),
        None => None,
    }
}

impl IssueDataView {
    /// The cached value of `attribute`, or `None` while its cell is empty.
    pub open spec fn get(self, attribute: IssueAttribute) -> Option<AttributeValue> {
        match attribute {
            IssueAttribute::Key => as_text(self.key),
            IssueAttribute::Summary => as_text(self.summary),
            IssueAttribute::Description => as_text(self.description),
            IssueAttribute::Comments => as_text_list(self.comments),
            IssueAttribute::Parent => as_optional_text(self.parent),
            IssueAttribute::Subtasks => as_text_list(self.subtasks),
            IssueAttribute::IssueLinks => as_text_list(self.issue_links),
            IssueAttribute::Status => as_text(self.status),
            IssueAttribute::Priority => as_text(self.priority),
            IssueAttribute::Resolution => as_optional_text(self.resolution),
            IssueAttribute::IssueType => as_text(self.issue_type),
            IssueAttribute::Watches => as_count(self.watches),
            IssueAttribute::Votes => as_count(self.votes),
            IssueAttribute::DateCreated => as_text(self.date_created),
            IssueAttribute::DateUpdated => as_text(self.date_updated),
            IssueAttribute::DateResolved => as_optional_text(self.date_resolved),
            IssueAttribute::Labels => as_text_list(self.labels),
            IssueAttribute::Components => as_text_list(self.components),
            IssueAttribute::AffectedVersions => as_text_list(self.affected_versions),
            IssueAttribute::FixVersions => as_text_list(self.fix_versions),
        }
    }

    /// The record of `ident` of which nothing has been fetched: it holds its
    /// identifier and every cell is empty.
    pub open spec fn unfetched(ident: Seq<char>) -> IssueDataView {
        IssueDataView {
            ident,
            key: None,
            summary: None,
            description: None,
            comments: None,
            status: None,
            priority: None,
            resolution: None,
            issue_type: None,
            issue_links: None,
            parent: None,
            subtasks: None,
            watches: None,
            votes: None,
            date_created: None,
            date_updated: None,
            date_resolved: None,
            labels: None,
            components: None,
            affected_versions: None,
            fix_versions: None,
        }
    }

    /// Whether the cell of `attribute` is populated.
    pub open spec fn populated(self, attribute: IssueAttribute) -> bool {
        self.get(attribute) is Some
    }

    /// The record after `donor` was merged into it: the identifier stays, and
    /// each cell keeps its own value if it has one and takes the donor's
    /// otherwise.
    pub open spec fn merged(self, donor: IssueDataView) -> IssueDataView {
        IssueDataView {
            ident: self.ident,
            key: first_populated(self.key, donor.key),
            summary: first_populated(self.summary, donor.summary),
            description: first_populated(self.description, donor.description),
            comments: first_populated(self.comments, donor.comments),
            status: first_populated(self.status, donor.status),
            priority: first_populated(self.priority, donor.priority),
            resolution: first_populated(self.resolution, donor.resolution),
            issue_type: first_populated(self.issue_type, donor.issue_type),
            issue_links: first_populated(self.issue_links, donor.issue_links),
            parent: first_populated(self.parent, donor.parent),
            subtasks: first_populated(self.subtasks, donor.subtasks),
            watches: first_populated(self.watches, donor.watches),
            votes: first_populated(self.votes, donor.votes),
            date_created: first_populated(self.date_created, donor.date_created),
            date_updated: first_populated(self.date_updated, donor.date_updated),
            date_resolved: first_populated(self.date_resolved, donor.date_resolved),
            labels: first_populated(self.labels, donor.labels),
            components: first_populated(self.components, donor.components),
            affected_versions: first_populated(self.affected_versions, donor.affected_versions),
            fix_versions: first_populated(self.fix_versions, donor.fix_versions),
        }
    }
}

/// The names of a list of remote objects, in order.
pub open spec fn names_of(objects: Seq<NamedObject>) -> Seq<Seq<char>> {
    Seq::new(objects.len(), |i: int| objects[i].name@)
}

/// The bodies of a list of comments, in order.
pub open spec fn bodies_of(comments: Seq<RawComment>) -> Seq<Seq<char>> {
    Seq::new(comments.len(), |i: int| comments[i].body@)
}

/// The name of a remote object, if there is one.
pub open spec fn name_of(object: Option<NamedObject>) -> Option<Seq<char>> {
    match object {
        Some(named) => Some(named.name@),
        None => None,
    }
}

/// The names of a list of remote objects, if there is a list.
pub open spec fn names_in(objects: Option<Vec<NamedObject>>) -> Option<Seq<Seq<char>>> {
    match objects {
        Some(list) => Some(names_of(list@)),
        None => None,
    }
}

/// The record that a response describes: a cell is populated exactly where
/// the response carries the attribute.
pub open spec fn record_of(ident: Seq<char>, raw: RawIssueData) -> IssueDataView {
    IssueDataView {
        ident,
        key: raw.key.deep_view(),
        summary: raw.summary.deep_view(),
        description: raw.description.deep_view(),
        comments: match raw.comments {
            Some(list) => Some(bodies_of(list@)),
            None => None,
        },
        status: name_of(raw.status),
        priority: name_of(raw.priority),
        resolution: match raw.resolution {
            Some(resolution) => Some(name_of(resolution)),
            None => None,
        },
        issue_type: name_of(raw.issuetype),
        issue_links: raw.issue_links.deep_view(),
        parent: raw.parent.deep_view(),
        subtasks: raw.subtasks.deep_view(),
        watches: match raw.watches {
            Some(info) => Some(info.watch_count),
            None => None,
        },
        votes: match raw.votes {
            Some(info) => Some(info.votes),
            None => None,
        },
        date_created: raw.created.deep_view(),
        date_updated: raw.updated.deep_view(),
        date_resolved: raw.resolutiondate.deep_view(),
        labels: raw.labels.deep_view(),
        components: names_in(raw.components),
        affected_versions: names_in(raw.versions),
        fix_versions: names_in(raw.fix_versions),
    }
}

/// The record of an issue: its identifier and one write-once cell per
/// attribute.
#[derive(Debug, Clone)]
pub struct IssueData {
    ident: String,
    key: LazyField<String>,
    summary: LazyField<String>,
    description: LazyField<String>,
    comments: LazyField<Vec<String>>,
    status: LazyField<String>,
    priority: LazyField<String>,
    resolution: LazyField<Option<String>>,
    issue_type: LazyField<String>,
    issue_links: LazyField<Vec<String>>,
    parent: LazyField<Option<String>>,
    subtasks: LazyField<Vec<String>>,
    watches: LazyField<u64>,
    votes: LazyField<u64>,
    date_created: LazyField<String>,
    date_updated: LazyField<String>,
    date_resolved: LazyField<Option<String>>,
    labels: LazyField<Vec<String>>,
    components: LazyField<Vec<String>>,
    affected_versions: LazyField<Vec<String>>,
    fix_versions: LazyField<Vec<String>>,
}

impl View for IssueData {
    type V = IssueDataView;

    closed spec fn view(&self) -> IssueDataView {
        IssueDataView {
            ident: self.ident@,
            key: self.key.deep_view(),
            summary: self.summary.deep_view(),
            description: self.description.deep_view(),
            comments: self.comments.deep_view(),
            status: self.status.deep_view(),
            priority: self.priority.deep_view(),
            resolution: self.resolution.deep_view(),
            issue_type: self.issue_type.deep_view(),
            issue_links: self.issue_links.deep_view(),
            parent: self.parent.deep_view(),
            subtasks: self.subtasks.deep_view(),
            watches: self.watches.deep_view(),
            votes: self.votes.deep_view(),
            date_created: self.date_created.deep_view(),
            date_updated: self.date_updated.deep_view(),
            date_resolved: self.date_resolved.deep_view(),
            labels: self.labels.deep_view(),
            components: self.components.deep_view(),
            affected_versions: self.affected_versions.deep_view(),
            fix_versions: self.fix_versions.deep_view(),
        }
    }
}

/// Two records are equal when they are records of the same issue, whatever
/// their cells hold.
impl PartialEq for IssueData {
    fn eq(&self, other: &Self) -> (equal: bool) {
        self.ident == other.ident
    }
}

impl Eq for IssueData {

}

impl vstd::std_specs::cmp::PartialEqSpecImpl for IssueData {
    open spec fn obeys_eq_spec() -> bool {
        true
    }

    open spec fn eq_spec(&self, other: &Self) -> bool {
        self@.ident == other@.ident
    }
}

/// A record hashes as its identifier does.
impl core::hash::Hash for IssueData {
    fn hash<H: core::hash::Hasher>(&self, state: &mut H) {
        self.ident.hash(state)
    }
}

/// Moves the names out of a list of remote objects.
fn into_names(objects: Vec<NamedObject>) -> (names: Vec<String>)
    ensures
        names.deep_view() == names_of(objects@),
{
    let mut names: Vec<String> = Vec::with_capacity(objects.len());
    for object in it: objects.into_iter()
        invariant
            names@.len() == it.index(),
            it.seq() == objects@,
            forall|i: int| 0 <= i < names@.len() ==> names@[i] == objects@[i].name,
    {
        names.push(object.name);
    }
    names
}

/// Moves the bodies out of a list of comments.
fn into_bodies(comments: Vec<RawComment>) -> (bodies: Vec<String>)
    ensures
        bodies.deep_view() == bodies_of(comments@),
{
    let mut bodies: Vec<String> = Vec::with_capacity(comments.len());
    for comment in it: comments.into_iter()
        invariant
            bodies@.len() == it.index(),
            it.seq() == comments@,
            forall|i: int| 0 <= i < bodies@.len() ==> bodies@[i] == comments@[i].body,
    {
        bodies.push(comment.body);
    }
    bodies
}

/// Moves the name out of a remote object, if there is one.
fn into_name(object: Option<NamedObject>) -> (name: Option<String>)
    ensures
        name.deep_view() == name_of(object),
{
    match object {
        Some(named) => Some(named.name),
        None => None,
    }
}

/// Moves the names out of a list of remote objects, if there is a list.
fn into_name_list(objects: Option<Vec<NamedObject>>) -> (names: Option<Vec<String>>)
    ensures
        names.deep_view() == names_in(objects),
{
    match objects {
        Some(list) => Some(into_names(list)),
        None => None,
    }
}

impl IssueData {
    /// The record that a response describes for the issue `ident`.
    pub fn from_raw_data(ident: String, value: RawIssueData) -> (record: Self)
        ensures
            record@ == record_of(ident@, value),
            record.ident_text() == ident,
    {
        let comments = match value.comments {
            Some(list) => Some(into_bodies(list)),
            None => None,
        };
        let resolution = match value.resolution {
            Some(resolution) => Some(into_name(resolution)),
            None => None,
        };
        let watches = match value.watches {
            Some(info) => Some(info.watch_count),
            None => None,
        };
        let votes = match value.votes {
            Some(info) => Some(info.votes),
            None => None,
        };
        IssueData {
            ident,
            key: LazyField::from_option(value.key),
            summary: LazyField::from_option(value.summary),
            description: LazyField::from_option(value.description),
            comments: LazyField::from_option(comments),
            status: LazyField::from_option(into_name(value.status)),
            priority: LazyField::from_option(into_name(value.priority)),
            resolution: LazyField::from_option(resolution),
            issue_type: LazyField::from_option(into_name(value.issuetype)),
            issue_links: LazyField::from_option(value.issue_links),
            parent: LazyField::from_option(value.parent),
            subtasks: LazyField::from_option(value.subtasks),
            watches: LazyField::from_option(watches),
            votes: LazyField::from_option(votes),
            date_created: LazyField::from_option(value.created),
            date_updated: LazyField::from_option(value.updated),
            date_resolved: LazyField::from_option(value.resolutiondate),
            labels: LazyField::from_option(value.labels),
            components: LazyField::from_option(into_name_list(value.components)),
            affected_versions: LazyField::from_option(into_name_list(value.versions)),
            fix_versions: LazyField::from_option(into_name_list(value.fix_versions)),
        }
    }
}

/// The answer of the remote service to a request for issue data: for each
/// issue that it describes, the identifier and what it says of the issue.
pub type IssueDataResponse = Vec<(String, RawIssueData)>;

/// The data that a response holds for the issue `ident`: that of the first
/// entry filed under it.
pub open spec fn entry_for(entries: Seq<(String, RawIssueData)>, ident: Seq<char>) -> Option<
    RawIssueData,
>
    decreases entries.len(),
{
    if entries.len() == 0 {
        None
    } else if entries[0].0@ == ident {
        Some(entries[0].1)
    } else {
        entry_for(entries.drop_first(), ident)
    }
}

/// How a record that misses `attribute` takes a remote answer: `after` and
/// `verdict` are the record and the outcome that follow from `before` and
/// `response`.
///
/// A failed call and an answer without the issue leave the record as it was.
/// An answer with the issue is merged in whole, and the access succeeds if
/// that populated the cell of `attribute`.
pub open spec fn reconciled<E>(
    before: IssueDataView,
    attribute: IssueAttribute,
    response: Result<IssueDataResponse, E>,
    after: IssueDataView,
    verdict: Result<(), FetchError<E>>,
) -> bool {
    match response {
        Err(failure) => after == before && verdict == Err::<(), FetchError<E>>(
            FetchError::Remote(failure),
        ),
        Ok(entries) => match entry_for(entries@, before.ident) {
            None => after == before && verdict == Err::<(), FetchError<E>>(
                FetchError::MissingRecord,
            ),
            Some(raw) => {
                &&& after == before.merged(record_of(before.ident, raw))
                &&& verdict == if after.populated(attribute) {
                    Ok::<(), FetchError<E>>(())
                } else {
                    Err::<(), FetchError<E>>(FetchError::MissingAttribute)
                }
            },
        },
    }
}

/// What an access to `attribute` does to a record, with `fetch` standing for
/// the remote service. A populated cell is served from the cache and nothing
/// changes. An empty cell is served by one call of `fetch`, for the record's
/// identifier and this one attribute, whose answer is reconciled.
pub open spec fn loaded<E, F: FnOnce(String, IssueAttribute) -> Result<IssueDataResponse, E>>(
    before: IssueData,
    attribute: IssueAttribute,
    fetch: F,
    after: IssueDataView,
    verdict: Result<(), FetchError<E>>,
) -> bool {
    if before@.populated(attribute) {
        after == before@ && verdict is Ok
    } else {
        exists|response: Result<IssueDataResponse, E>| #[trigger]
            call_ensures(fetch, (before.ident_text(), attribute), response) && reconciled(
                before@,
                attribute,
                response,
                after,
                verdict,
            )
    }
}

/// The outcome of an access without the value it produced.
pub open spec fn verdict_of<T, E>(outcome: Result<T, FetchError<E>>) -> Result<(), FetchError<E>> {
    match outcome {
        Ok(_) => Ok(()),
        Err(failure) => Err(failure),
    }
}

/// Takes the data for `ident` out of a response.
fn take_entry(response: Vec<(String, RawIssueData)>, ident: &String) -> (found: Option<
    RawIssueData,
>)
    ensures
        found == entry_for(response@, ident@),
{
    let mut entries = response;
    let ghost all = entries@;
    let mut i: usize = 0;
    assert(all.skip(0) =~= all);
    while i < entries.len()
        invariant
            all == response@,
            entries@ == all,
            i <= all.len(),
            entry_for(all, ident@) == entry_for(all.skip(i as int), ident@),
        decreases all.len() - i,
    {
        if entries[i].0 == *ident {
            let entry = entries.swap_remove(i);
            return Some(entry.1);
        }
        assert(all.skip(i as int).drop_first() =~= all.skip(i as int + 1));
        i += 1;
    }
    None
}

impl IssueData {
    /// The identifier as the value that is handed to the remote service.
    pub closed spec fn ident_text(&self) -> String {
        self.ident
    }

    /// A record of which nothing has been fetched yet.
    pub fn new_empty(ident: String) -> (record: Self)
        ensures
            record@ == IssueDataView::unfetched(ident@),
            record.ident_text() == ident,
    {
        IssueData::from_raw_data(ident, RawIssueData::default())
    }

    /// The identifier of the issue.
    pub fn ident(&self) -> (ident: &String)
        ensures
            *ident == self.ident_text(),
            ident@ == self@.ident,
    {
        &self.ident
    }

    /// Whether the cell of `attribute` is populated.
    pub fn is_populated(&self, attribute: IssueAttribute) -> (populated: bool)
        ensures
            populated == self@.populated(attribute),
    {
        match attribute {
            IssueAttribute::Key => self.key.is_populated(),
            IssueAttribute::Summary => self.summary.is_populated(),
            IssueAttribute::Description => self.description.is_populated(),
            IssueAttribute::Comments => self.comments.is_populated(),
            IssueAttribute::Parent => self.parent.is_populated(),
            IssueAttribute::Subtasks => self.subtasks.is_populated(),
            IssueAttribute::IssueLinks => self.issue_links.is_populated(),
            IssueAttribute::Status => self.status.is_populated(),
            IssueAttribute::Priority => self.priority.is_populated(),
            IssueAttribute::Resolution => self.resolution.is_populated(),
            IssueAttribute::IssueType => self.issue_type.is_populated(),
            IssueAttribute::Watches => self.watches.is_populated(),
            IssueAttribute::Votes => self.votes.is_populated(),
            IssueAttribute::DateCreated => self.date_created.is_populated(),
            IssueAttribute::DateUpdated => self.date_updated.is_populated(),
            IssueAttribute::DateResolved => self.date_resolved.is_populated(),
            IssueAttribute::Labels => self.labels.is_populated(),
            IssueAttribute::Components => self.components.is_populated(),
            IssueAttribute::AffectedVersions => self.affected_versions.is_populated(),
            IssueAttribute::FixVersions => self.fix_versions.is_populated(),
        }
    }

    /// Merges a record of the same issue into this one. Every empty cell
    /// takes the donor's value, if the donor has one; no populated cell is
    /// touched, whatever the donor holds there.
    pub fn merge(&mut self, donor: IssueData)
        ensures
            final(self)@ == old(self)@.merged(donor@),
            final(self).ident_text() == old(self).ident_text(),
    {
        self.key.absorb(donor.key);
        self.summary.absorb(donor.summary);
        self.description.absorb(donor.description);
        self.comments.absorb(donor.comments);
        self.parent.absorb(donor.parent);
        self.subtasks.absorb(donor.subtasks);
        self.issue_links.absorb(donor.issue_links);
        self.status.absorb(donor.status);
        self.priority.absorb(donor.priority);
        self.resolution.absorb(donor.resolution);
        self.issue_type.absorb(donor.issue_type);
        self.watches.absorb(donor.watches);
        self.votes.absorb(donor.votes);
        self.date_created.absorb(donor.date_created);
        self.date_updated.absorb(donor.date_updated);
        self.date_resolved.absorb(donor.date_resolved);
        self.labels.absorb(donor.labels);
        self.components.absorb(donor.components);
        self.affected_versions.absorb(donor.affected_versions);
        self.fix_versions.absorb(donor.fix_versions);
    }

    /// Takes the answer of the remote service to a request for `attribute`.
    ///
    /// A failed call is handed on. A successful answer must describe this
    /// issue; what it says is merged into the record, and the access succeeds
    /// only if the cell of `attribute` is populated afterwards.
    pub fn reconcile<E>(
        &mut self,
        attribute: IssueAttribute,
        response: Result<IssueDataResponse, E>,
    ) -> (verdict: Result<(), FetchError<E>>)
        ensures
            reconciled(old(self)@, attribute, response, final(self)@, verdict),
            final(self).ident_text() == old(self).ident_text(),
    {
        match response {
            Err(failure) => Err(FetchError::Remote(failure)),
            Ok(entries) => {
                match take_entry(entries, &self.ident) {
                    None => Err(FetchError::MissingRecord),
                    Some(raw) => {
                        let fresh = IssueData::from_raw_data(self.ident.clone(), raw);
                        self.merge(fresh);
                        if self.is_populated(attribute) {
                            Ok(())
                        } else {
                            Err(FetchError::MissingAttribute)
                        }
                    },
                }
            },
        }
    }

    /// Makes sure that the cell of `attribute` is populated, asking the
    /// remote service only if it is empty.
    ///
    /// `fetch` stands for the remote service: it is called at most once, with
    /// the identifier of the issue and the one attribute that is missing, and
    /// its answer is reconciled into the record.
    pub fn load<E, F: FnOnce(String, IssueAttribute) -> Result<IssueDataResponse, E>>(
        &mut self,
        attribute: IssueAttribute,
        fetch: F,
    ) -> (verdict: Result<(), FetchError<E>>)
        requires
            !old(self)@.populated(attribute) ==> call_requires(
                fetch,
                (old(self).ident_text(), attribute),
            ),
        ensures
            loaded(*old(self), attribute, fetch, final(self)@, verdict),
            verdict is Ok ==> final(self)@.populated(attribute),
            final(self).ident_text() == old(self).ident_text(),
    {
        if self.is_populated(attribute) {
            Ok(())
        } else {
            let response = fetch(self.ident.clone(), attribute);
            self.reconcile(attribute, response)
        }
    }
}

/// The records that a response describes, entry by entry.
pub open spec fn records_of(response: Seq<(String, RawIssueData)>) -> Seq<IssueDataView> {
    Seq::new(response.len(), |i: int| record_of(response[i].0@, response[i].1))
}

/// The views of a list of records.
pub open spec fn record_views(records: Seq<IssueData>) -> Seq<IssueDataView> {
    Seq::new(records.len(), |i: int| records[i]@)
}

/// Turns the answer to a request for issue data into records, one for each
/// issue that the answer describes.
pub fn records_from_response(response: IssueDataResponse) -> (records: Vec<IssueData>)
    ensures
        record_views(records@) == records_of(response@),
{
    let mut records: Vec<IssueData> = Vec::with_capacity(response.len());
    for entry in it: response.into_iter()
        invariant
            it.seq() == response@,
            records@.len() == it.index(),
            forall|i: int|
                0 <= i < records@.len() ==> records@[i]@ == record_of(
                    response@[i].0@,
                    response@[i].1,
                ),
    {
        let (ident, raw) = entry;
        records.push(IssueData::from_raw_data(ident, raw));
    }
    records
}

/// The typed accessors. Each serves a populated cell from the cache and an
/// empty one through [`IssueData::load`]: `fetch` is called at most once, for
/// this issue and the one attribute, and the value that is handed out is the
/// one that the cell holds from then on.
impl IssueData {
    /// The key of the issue, such as `PROJECT-12`.
    pub fn key<E, F: FnOnce(String, IssueAttribute) -> Result<IssueDataResponse, E>>(
        &mut self,
        fetch: F,
    ) -> (value: Result<&String, FetchError<E>>)
        requires
            !old(self)@.populated(IssueAttribute::Key) ==> call_requires(
                fetch,
                (old(self).ident_text(), IssueAttribute::Key),
            ),
        ensures
            loaded(
                *old(self),
                IssueAttribute::Key,
                fetch,
                final(self)@,
                verdict_of(value),
            ),
            value matches Ok(text) ==> final(self)@.key == Some(text@),
            final(self).ident_text() == old(self).ident_text(),
    {
        match self.load(IssueAttribute::Key, fetch) {
            Err(failure) => Err(failure),
            Ok(()) => Ok(self.key.get().unwrap()),
        }
    }

    /// The summary line of the issue.
    pub fn summary<E, F: FnOnce(String, IssueAttribute) -> Result<IssueDataResponse, E>>(
        &mut self,
        fetch: F,
    ) -> (value: Result<&String, FetchError<E>>)
        requires
            !old(self)@.populated(IssueAttribute::Summary) ==> call_requires(
                fetch,
                (old(self).ident_text(), IssueAttribute::Summary),
            ),
        ensures
            loaded(
                *old(self),
                IssueAttribute::Summary,
                fetch,
                final(self)@,
                verdict_of(value),
            ),
            value matches Ok(text) ==> final(self)@.summary == Some(text@),
            final(self).ident_text() == old(self).ident_text(),
    {
        match self.load(IssueAttribute::Summary, fetch) {
            Err(failure) => Err(failure),
            Ok(()) => Ok(self.summary.get().unwrap()),
        }
    }

    /// The description of the issue.
    pub fn description<E, F: FnOnce(String, IssueAttribute) -> Result<IssueDataResponse, E>>(
        &mut self,
        fetch: F,
    ) -> (value: Result<&String, FetchError<E>>)
        requires
            !old(self)@.populated(IssueAttribute::Description) ==> call_requires(
                fetch,
                (old(self).ident_text(), IssueAttribute::Description),
            ),
        ensures
            loaded(
                *old(self),
                IssueAttribute::Description,
                fetch,
                final(self)@,
                verdict_of(value),
            ),
            value matches Ok(text) ==> final(self)@.description == Some(text@),
            final(self).ident_text() == old(self).ident_text(),
    {
        match self.load(IssueAttribute::Description, fetch) {
            Err(failure) => Err(failure),
            Ok(()) => Ok(self.description.get().unwrap()),
        }
    }

    /// The bodies of the comments on the issue.
    pub fn comments<E, F: FnOnce(String, IssueAttribute) -> Result<IssueDataResponse, E>>(
        &mut self,
        fetch: F,
    ) -> (value: Result<&Vec<String>, FetchError<E>>)
        requires
            !old(self)@.populated(IssueAttribute::Comments) ==> call_requires(
                fetch,
                (old(self).ident_text(), IssueAttribute::Comments),
            ),
        ensures
            loaded(
                *old(self),
                IssueAttribute::Comments,
                fetch,
                final(self)@,
                verdict_of(value),
            ),
            value matches Ok(list) ==> final(self)@.comments == Some(list.deep_view()),
            final(self).ident_text() == old(self).ident_text(),
    {
        match self.load(IssueAttribute::Comments, fetch) {
            Err(failure) => Err(failure),
            Ok(()) => Ok(self.comments.get().unwrap()),
        }
    }

    /// The parent of the issue, if it has one.
    pub fn parent<E, F: FnOnce(String, IssueAttribute) -> Result<IssueDataResponse, E>>(
        &mut self,
        fetch: F,
    ) -> (value: Result<&Option<String>, FetchError<E>>)
        requires
            !old(self)@.populated(IssueAttribute::Parent) ==> call_requires(
                fetch,
                (old(self).ident_text(), IssueAttribute::Parent),
            ),
        ensures
            loaded(
                *old(self),
                IssueAttribute::Parent,
                fetch,
                final(self)@,
                verdict_of(value),
            ),
            value matches Ok(text) ==> final(self)@.parent == Some(text.deep_view()),
            final(self).ident_text() == old(self).ident_text(),
    {
        match self.load(IssueAttribute::Parent, fetch) {
            Err(failure) => Err(failure),
            Ok(()) => Ok(self.parent.get().unwrap()),
        }
    }

    /// The subtasks of the issue.
    pub fn subtasks<E, F: FnOnce(String, IssueAttribute) -> Result<IssueDataResponse, E>>(
        &mut self,
        fetch: F,
    ) -> (value: Result<&Vec<String>, FetchError<E>>)
        requires
            !old(self)@.populated(IssueAttribute::Subtasks) ==> call_requires(
                fetch,
                (old(self).ident_text(), IssueAttribute::Subtasks),
            ),
        ensures
            loaded(
                *old(self),
                IssueAttribute::Subtasks,
                fetch,
                final(self)@,
                verdict_of(value),
            ),
            value matches Ok(list) ==> final(self)@.subtasks == Some(list.deep_view()),
            final(self).ident_text() == old(self).ident_text(),
    {
        match self.load(IssueAttribute::Subtasks, fetch) {
            Err(failure) => Err(failure),
            Ok(()) => Ok(self.subtasks.get().unwrap()),
        }
    }

    /// The links of the issue to other issues.
    pub fn issue_links<E, F: FnOnce(String, IssueAttribute) -> Result<IssueDataResponse, E>>(
        &mut self,
        fetch: F,
    ) -> (value: Result<&Vec<String>, FetchError<E>>)
        requires
            !old(self)@.populated(IssueAttribute::IssueLinks) ==> call_requires(
                fetch,
                (old(self).ident_text(), IssueAttribute::IssueLinks),
            ),
        ensures
            loaded(
                *old(self),
                IssueAttribute::IssueLinks,
                fetch,
                final(self)@,
                verdict_of(value),
            ),
            value matches Ok(list) ==> final(self)@.issue_links == Some(list.deep_view()),
            final(self).ident_text() == old(self).ident_text(),
    {
        match self.load(IssueAttribute::IssueLinks, fetch) {
            Err(failure) => Err(failure),
            Ok(()) => Ok(self.issue_links.get().unwrap()),
        }
    }

    /// The name of the status of the issue.
    pub fn status<E, F: FnOnce(String, IssueAttribute) -> Result<IssueDataResponse, E>>(
        &mut self,
        fetch: F,
    ) -> (value: Result<&String, FetchError<E>>)
        requires
            !old(self)@.populated(IssueAttribute::Status) ==> call_requires(
                fetch,
                (old(self).ident_text(), IssueAttribute::Status),
            ),
        ensures
            loaded(
                *old(self),
                IssueAttribute::Status,
                fetch,
                final(self)@,
                verdict_of(value),
            ),
            value matches Ok(text) ==> final(self)@.status == Some(text@),
            final(self).ident_text() == old(self).ident_text(),
    {
        match self.load(IssueAttribute::Status, fetch) {
            Err(failure) => Err(failure),
            Ok(()) => Ok(self.status.get().unwrap()),
        }
    }

    /// The name of the priority of the issue.
    pub fn priority<E, F: FnOnce(String, IssueAttribute) -> Result<IssueDataResponse, E>>(
        &mut self,
        fetch: F,
    ) -> (value: Result<&String, FetchError<E>>)
        requires
            !old(self)@.populated(IssueAttribute::Priority) ==> call_requires(
                fetch,
                (old(self).ident_text(), IssueAttribute::Priority),
            ),
        ensures
            loaded(
                *old(self),
                IssueAttribute::Priority,
                fetch,
                final(self)@,
                verdict_of(value),
            ),
            value matches Ok(text) ==> final(self)@.priority == Some(text@),
            final(self).ident_text() == old(self).ident_text(),
    {
        match self.load(IssueAttribute::Priority, fetch) {
            Err(failure) => Err(failure),
            Ok(()) => Ok(self.priority.get().unwrap()),
        }
    }

    /// The name of the resolution of the issue, if it is resolved.
    pub fn resolution<E, F: FnOnce(String, IssueAttribute) -> Result<IssueDataResponse, E>>(
        &mut self,
        fetch: F,
    ) -> (value: Result<&Option<String>, FetchError<E>>)
        requires
            !old(self)@.populated(IssueAttribute::Resolution) ==> call_requires(
                fetch,
                (old(self).ident_text(), IssueAttribute::Resolution),
            ),
        ensures
            loaded(
                *old(self),
                IssueAttribute::Resolution,
                fetch,
                final(self)@,
                verdict_of(value),
            ),
            value matches Ok(text) ==> final(self)@.resolution == Some(text.deep_view()),
            final(self).ident_text() == old(self).ident_text(),
    {
        match self.load(IssueAttribute::Resolution, fetch) {
            Err(failure) => Err(failure),
            Ok(()) => Ok(self.resolution.get().unwrap()),
        }
    }

    /// The name of the type of the issue.
    pub fn issue_type<E, F: FnOnce(String, IssueAttribute) -> Result<IssueDataResponse, E>>(
        &mut self,
        fetch: F,
    ) -> (value: Result<&String, FetchError<E>>)
        requires
            !old(self)@.populated(IssueAttribute::IssueType) ==> call_requires(
                fetch,
                (old(self).ident_text(), IssueAttribute::IssueType),
            ),
        ensures
            loaded(
                *old(self),
                IssueAttribute::IssueType,
                fetch,
                final(self)@,
                verdict_of(value),
            ),
            value matches Ok(text) ==> final(self)@.issue_type == Some(text@),
            final(self).ident_text() == old(self).ident_text(),
    {
        match self.load(IssueAttribute::IssueType, fetch) {
            Err(failure) => Err(failure),
            Ok(()) => Ok(self.issue_type.get().unwrap()),
        }
    }

    /// The number of watchers of the issue.
    pub fn watches<E, F: FnOnce(String, IssueAttribute) -> Result<IssueDataResponse, E>>(
        &mut self,
        fetch: F,
    ) -> (value: Result<u64, FetchError<E>>)
        requires
            !old(self)@.populated(IssueAttribute::Watches) ==> call_requires(
                fetch,
                (old(self).ident_text(), IssueAttribute::Watches),
            ),
        ensures
            loaded(
                *old(self),
                IssueAttribute::Watches,
                fetch,
                final(self)@,
                verdict_of(value),
            ),
            value matches Ok(count) ==> final(self)@.watches == Some(count),
            final(self).ident_text() == old(self).ident_text(),
    {
        match self.load(IssueAttribute::Watches, fetch) {
            Err(failure) => Err(failure),
            Ok(()) => Ok(*self.watches.get().unwrap()),
        }
    }

    /// The number of votes for the issue.
    pub fn votes<E, F: FnOnce(String, IssueAttribute) -> Result<IssueDataResponse, E>>(
        &mut self,
        fetch: F,
    ) -> (value: Result<u64, FetchError<E>>)
        requires
            !old(self)@.populated(IssueAttribute::Votes) ==> call_requires(
                fetch,
                (old(self).ident_text(), IssueAttribute::Votes),
            ),
        ensures
            loaded(
                *old(self),
                IssueAttribute::Votes,
                fetch,
                final(self)@,
                verdict_of(value),
            ),
            value matches Ok(count) ==> final(self)@.votes == Some(count),
            final(self).ident_text() == old(self).ident_text(),
    {
        match self.load(IssueAttribute::Votes, fetch) {
            Err(failure) => Err(failure),
            Ok(()) => Ok(*self.votes.get().unwrap()),
        }
    }

    /// The date on which the issue was created.
    pub fn date_created<E, F: FnOnce(String, IssueAttribute) -> Result<IssueDataResponse, E>>(
        &mut self,
        fetch: F,
    ) -> (value: Result<&String, FetchError<E>>)
        requires
            !old(self)@.populated(IssueAttribute::DateCreated) ==> call_requires(
                fetch,
                (old(self).ident_text(), IssueAttribute::DateCreated),
            ),
        ensures
            loaded(
                *old(self),
                IssueAttribute::DateCreated,
                fetch,
                final(self)@,
                verdict_of(value),
            ),
            value matches Ok(text) ==> final(self)@.date_created == Some(text@),
            final(self).ident_text() == old(self).ident_text(),
    {
        match self.load(IssueAttribute::DateCreated, fetch) {
            Err(failure) => Err(failure),
            Ok(()) => Ok(self.date_created.get().unwrap()),
        }
    }

    /// The date on which the issue was last updated.
    pub fn date_updated<E, F: FnOnce(String, IssueAttribute) -> Result<IssueDataResponse, E>>(
        &mut self,
        fetch: F,
    ) -> (value: Result<&String, FetchError<E>>)
        requires
            !old(self)@.populated(IssueAttribute::DateUpdated) ==> call_requires(
                fetch,
                (old(self).ident_text(), IssueAttribute::DateUpdated),
            ),
        ensures
            loaded(
                *old(self),
                IssueAttribute::DateUpdated,
                fetch,
                final(self)@,
                verdict_of(value),
            ),
            value matches Ok(text) ==> final(self)@.date_updated == Some(text@),
            final(self).ident_text() == old(self).ident_text(),
    {
        match self.load(IssueAttribute::DateUpdated, fetch) {
            Err(failure) => Err(failure),
            Ok(()) => Ok(self.date_updated.get().unwrap()),
        }
    }

    /// The date on which the issue was resolved, if it is.
    pub fn date_resolved<E, F: FnOnce(String, IssueAttribute) -> Result<IssueDataResponse, E>>(
        &mut self,
        fetch: F,
    ) -> (value: Result<&Option<String>, FetchError<E>>)
        requires
            !old(self)@.populated(IssueAttribute::DateResolved) ==> call_requires(
                fetch,
                (old(self).ident_text(), IssueAttribute::DateResolved),
            ),
        ensures
            loaded(
                *old(self),
                IssueAttribute::DateResolved,
                fetch,
                final(self)@,
                verdict_of(value),
            ),
            value matches Ok(text) ==> final(self)@.date_resolved == Some(text.deep_view()),
            final(self).ident_text() == old(self).ident_text(),
    {
        match self.load(IssueAttribute::DateResolved, fetch) {
            Err(failure) => Err(failure),
            Ok(()) => Ok(self.date_resolved.get().unwrap()),
        }
    }

    /// The labels of the issue.
    pub fn labels<E, F: FnOnce(String, IssueAttribute) -> Result<IssueDataResponse, E>>(
        &mut self,
        fetch: F,
    ) -> (value: Result<&Vec<String>, FetchError<E>>)
        requires
            !old(self)@.populated(IssueAttribute::Labels) ==> call_requires(
                fetch,
                (old(self).ident_text(), IssueAttribute::Labels),
            ),
        ensures
            loaded(
                *old(self),
                IssueAttribute::Labels,
                fetch,
                final(self)@,
                verdict_of(value),
            ),
            value matches Ok(list) ==> final(self)@.labels == Some(list.deep_view()),
            final(self).ident_text() == old(self).ident_text(),
    {
        match self.load(IssueAttribute::Labels, fetch) {
            Err(failure) => Err(failure),
            Ok(()) => Ok(self.labels.get().unwrap()),
        }
    }

    /// The names of the components of the issue.
    pub fn components<E, F: FnOnce(String, IssueAttribute) -> Result<IssueDataResponse, E>>(
        &mut self,
        fetch: F,
    ) -> (value: Result<&Vec<String>, FetchError<E>>)
        requires
            !old(self)@.populated(IssueAttribute::Components) ==> call_requires(
                fetch,
                (old(self).ident_text(), IssueAttribute::Components),
            ),
        ensures
            loaded(
                *old(self),
                IssueAttribute::Components,
                fetch,
                final(self)@,
                verdict_of(value),
            ),
            value matches Ok(list) ==> final(self)@.components == Some(list.deep_view()),
            final(self).ident_text() == old(self).ident_text(),
    {
        match self.load(IssueAttribute::Components, fetch) {
            Err(failure) => Err(failure),
            Ok(()) => Ok(self.components.get().unwrap()),
        }
    }

    /// The names of the versions that the issue affects.
    pub fn affected_versions<E, F: FnOnce(String, IssueAttribute) -> Result<IssueDataResponse, E>>(
        &mut self,
        fetch: F,
    ) -> (value: Result<&Vec<String>, FetchError<E>>)
        requires
            !old(self)@.populated(IssueAttribute::AffectedVersions) ==> call_requires(
                fetch,
                (old(self).ident_text(), IssueAttribute::AffectedVersions),
            ),
        ensures
            loaded(
                *old(self),
                IssueAttribute::AffectedVersions,
                fetch,
                final(self)@,
                verdict_of(value),
            ),
            value matches Ok(list) ==> final(self)@.affected_versions == Some(list.deep_view()),
            final(self).ident_text() == old(self).ident_text(),
    {
        match self.load(IssueAttribute::AffectedVersions, fetch) {
            Err(failure) => Err(failure),
            Ok(()) => Ok(self.affected_versions.get().unwrap()),
        }
    }

    /// The names of the versions in which the issue is fixed.
    pub fn fix_versions<E, F: FnOnce(String, IssueAttribute) -> Result<IssueDataResponse, E>>(
        &mut self,
        fetch: F,
    ) -> (value: Result<&Vec<String>, FetchError<E>>)
        requires
            !old(self)@.populated(IssueAttribute::FixVersions) ==> call_requires(
                fetch,
                (old(self).ident_text(), IssueAttribute::FixVersions),
            ),
        ensures
            loaded(
                *old(self),
                IssueAttribute::FixVersions,
                fetch,
                final(self)@,
                verdict_of(value),
            ),
            value matches Ok(list) ==> final(self)@.fix_versions == Some(list.deep_view()),
            final(self).ident_text() == old(self).ident_text(),
    {
        match self.load(IssueAttribute::FixVersions, fetch) {
            Err(failure) => Err(failure),
            Ok(()) => Ok(self.fix_versions.get().unwrap()),
        }
    }
}

/// A record of which nothing has been fetched has no populated cell, so the
/// first access to any attribute goes to the remote service.
pub proof fn lemma_unfetched_record_is_empty(ident: Seq<char>, attribute: IssueAttribute)
    ensures
        !IssueDataView::unfetched(ident).populated(attribute),
        IssueDataView::unfetched(ident).ident == ident,
{
}

/// Records of the same issue are equal, whatever their cells hold, and
/// records of different issues are not.
pub proof fn lemma_identity_ignores_cache_state(a: IssueData, b: IssueData)
    ensures
        a.eq_spec(&b) <==> a@.ident == b@.ident,
        a@.ident == b@.ident ==> a.eq_spec(&b) && b.eq_spec(&a),
{
}

/// A merge never changes a cell that was populated.
pub proof fn lemma_merge_keeps_populated(
    target: IssueDataView,
    donor: IssueDataView,
    attribute: IssueAttribute,
)
    requires
        target.populated(attribute),
    ensures
        target.merged(donor).get(attribute) == target.get(attribute),
{
}

/// A merge gives every cell that was empty what the donor holds there.
pub proof fn lemma_merge_fills_empty(
    target: IssueDataView,
    donor: IssueDataView,
    attribute: IssueAttribute,
)
    requires
        !target.populated(attribute),
    ensures
        target.merged(donor).get(attribute) == donor.get(attribute),
{
}

/// Merging the same donor a second time changes nothing.
pub proof fn lemma_merge_idempotent(target: IssueDataView, donor: IssueDataView)
    ensures
        target.merged(donor).merged(donor) == target.merged(donor),
{
}

/// A merge keeps the identifier of the target.
pub proof fn lemma_merge_keeps_identity(target: IssueDataView, donor: IssueDataView)
    ensures
        target.merged(donor).ident == target.ident,
{
}

/// A successful answer that describes the issue but leaves out the attribute
/// that was asked for is reported as a failure: the access does not succeed
/// with an empty cell.
pub proof fn lemma_omitted_attribute_is_reported<E>(
    before: IssueDataView,
    attribute: IssueAttribute,
    entries: Vec<(String, RawIssueData)>,
    after: IssueDataView,
    verdict: Result<(), FetchError<E>>,
)
    requires
        !before.populated(attribute),
        entry_for(entries@, before.ident) matches Some(raw) && !record_of(
            before.ident,
            raw,
        ).populated(attribute),
        reconciled(before, attribute, Ok::<IssueDataResponse, E>(entries), after, verdict),
    ensures
        verdict == Err::<(), FetchError<E>>(FetchError::MissingAttribute),
        !after.populated(attribute),
{
    let raw = entry_for(entries@, before.ident)->0;
    lemma_merge_fills_empty(before, record_of(before.ident, raw), attribute);
}

/// Whatever the remote service answers, a cell that was populated before an
/// access holds the same value after it.
pub proof fn lemma_reconciling_keeps_populated<E>(
    before: IssueDataView,
    asked: IssueAttribute,
    response: Result<IssueDataResponse, E>,
    after: IssueDataView,
    verdict: Result<(), FetchError<E>>,
    attribute: IssueAttribute,
)
    requires
        reconciled(before, asked, response, after, verdict),
        before.populated(attribute),
    ensures
        after.get(attribute) == before.get(attribute),
        after.ident == before.ident,
{
}

} // verus!

