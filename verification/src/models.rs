//! Models, their versions and their test runs.

use crate::cache::CacheContainer;
use crate::config::ConfigHandlingPolicy;
use serde_json::Value;
use std::collections::HashMap;
use vstd::prelude::*;

verus! {

/// A JSON value of `serde_json`. The library only carries such values from
/// the caller to the remote service and back; it never looks inside one.
#[verifier::external_type_specification]
#[verifier::external_body]
pub struct ExValue(serde_json::Value);

/// The listing entry of a model.
#[derive(Debug, Clone)]
pub struct ModelInfo {
    pub model_id: String,
    pub model_name: String,
}

/// What the remote store holds of a model.
#[derive(Debug, Clone)]
pub struct UnboundModelConfig {
    pub model_id: String,
    pub model_name: String,
    pub model_config: HashMap<String, Value>,
}

/// A version of a model as the remote store lists it.
#[derive(Debug, Clone)]
pub struct UnboundModelVersion {
    pub model_id: String,
    pub version_id: String,
    pub time: String,
}

/// A test run of a model as the remote store lists it.
#[derive(Debug, Clone)]
pub struct UnboundTestRun {
    pub model_id: String,
    pub performance_id: String,
}

/// What a model is: its identifier, its locally known name, the cached
/// configuration if there is one, and the policy it was made with.
pub struct ModelView {
    pub id: Seq<char>,
    pub name: Seq<char>,
    pub config: Option<Map<String, Value>>,
    pub policy: ConfigHandlingPolicy,
}

impl ModelView {
    /// Whether reading the configuration goes to the remote service: always
    /// under the refetching policy, and under the local policy while the
    /// cache is cold.
    pub open spec fn reads_remotely(self) -> bool {
        self.policy is ReadFetchWriteWithFetch || self.config is None
    }

    /// The model after a read that fetched `remote`. The local policy keeps
    /// what it fetched; the refetching policy keeps nothing.
    pub open spec fn after_read(self, remote: Map<String, Value>) -> ModelView {
        match self.policy {
            ConfigHandlingPolicy::ReadLocalWriteNoFetch => ModelView {
                config: Some(remote),
                ..self
            },
            ConfigHandlingPolicy::ReadFetchWriteWithFetch => self,
        }
    }

    /// The model after `config` was written to the remote store.
    pub open spec fn after_config_write(self, config: Map<String, Value>) -> ModelView {
        ModelView { config: Some(config), ..self }
    }

    /// The model after `name` was written to the remote store.
    pub open spec fn after_name_write(self, name: Seq<char>) -> ModelView {
        ModelView { name, ..self }
    }
}

/// Whether `produced` is the configuration part of an answer of `fetch` for
/// the model `id`, or the failure of that call.
pub open spec fn config_answer<E, F: FnOnce(String) -> Result<UnboundModelConfig, E>>(
    fetch: F,
    id: String,
    produced: Result<HashMap<String, Value>, E>,
) -> bool {
    exists|answer: Result<UnboundModelConfig, E>| #[trigger]
        call_ensures(fetch, (id,), answer) && match answer {
            Ok(remote) => produced == Ok::<HashMap<String, Value>, E>(remote.model_config),
            Err(failure) => produced == Err::<HashMap<String, Value>, E>(failure),
        }
}

/// Whether `name` is the name that an answer of `fetch` gives for the model
/// `id`, or the failure of that call.
pub open spec fn name_answer<E, F: FnOnce(String) -> Result<UnboundModelConfig, E>>(
    fetch: F,
    id: String,
    name: Result<String, E>,
) -> bool {
    exists|answer: Result<UnboundModelConfig, E>| #[trigger]
        call_ensures(fetch, (id,), answer) && match answer {
            Ok(remote) => name == Ok::<String, E>(remote.model_name),
            Err(failure) => name == Err::<String, E>(failure),
        }
}

/// How one remote write ends. `write` is called once, with the identifier,
/// the name and the configuration. If it succeeds the handle becomes
/// `changed`; if it fails the failure is handed on and the handle stays
/// `unchanged`.
pub open spec fn sent<E, W: FnOnce(String, String, HashMap<String, Value>) -> Result<(), E>>(
    write: W,
    id: String,
    name: String,
    config: HashMap<String, Value>,
    unchanged: ModelView,
    changed: ModelView,
    after: ModelView,
    outcome: Result<(), E>,
) -> bool {
    exists|answer: Result<(), E>| #[trigger]
        call_ensures(write, (id, name, config), answer) && match answer {
            Ok(_) => after == changed && outcome is Ok,
            Err(failure) => after == unchanged && outcome == Err::<(), E>(failure),
        }
}

/// A model of the remote store whose name and configuration can be changed.
#[derive(Debug)]
pub struct Model {
    id: String,
    name: String,
    config: CacheContainer<HashMap<String, Value>>,
    data_policy: ConfigHandlingPolicy,
}

impl View for Model {
    type V = ModelView;

    closed spec fn view(&self) -> ModelView {
        ModelView {
            id: self.id@,
            name: self.name@,
            config: match self.config@ {
                Some(config) => Some(config@),
                None => None,
            },
            policy: self.data_policy,
        }
    }
}

/// Two handles are equal when they are handles of the same model, whatever
/// name and configuration they hold locally.
impl PartialEq for Model {
    fn eq(&self, other: &Self) -> (equal: bool) {
        self.id == other.id
    }
}

impl Eq for Model {

}

impl vstd::std_specs::cmp::PartialEqSpecImpl for Model {
    open spec fn obeys_eq_spec() -> bool {
        true
    }

    open spec fn eq_spec(&self, other: &Self) -> bool {
        self@.id == other@.id
    }
}

/// A model hashes as its identifier does.
impl core::hash::Hash for Model {
    fn hash<H: core::hash::Hasher>(&self, state: &mut H) {
        self.id.hash(state)
    }
}

impl Model {
    /// The identifier as the value that is handed to the remote service.
    pub closed spec fn id_text(&self) -> String {
        self.id
    }

    /// The locally known name as the value that is handed to the remote
    /// service.
    pub closed spec fn name_text(&self) -> String {
        self.name
    }

    /// A handle for the model `id`, known locally as `name`, with `config` in
    /// its cache if one is given. The policy stays with the handle for good.
    pub fn new(
        id: String,
        name: String,
        config: Option<HashMap<String, Value>>,
        config_handling: ConfigHandlingPolicy,
    ) -> (model: Self)
        ensures
            model@ == (ModelView {
                id: id@,
                name: name@,
                config: match config {
                    Some(given) => Some(given@),
                    None => None,
                },
                policy: config_handling,
            }),
            model.id_text() == id,
            model.name_text() == name,
    {
        Model { id, name, config: CacheContainer::new(config), data_policy: config_handling }
    }

    /// The identifier of the model.
    pub fn identifier(&self) -> (id: &String)
        ensures
            *id == self.id_text(),
            id@ == self@.id,
    {
        &self.id
    }

    /// The configuration in the local cache, if there is one. A pure lookup
    /// that tells nothing about the remote store.
    pub fn cached_config(&self) -> (cached: Option<&HashMap<String, Value>>)
        ensures
            match cached {
                Some(config) => self@.config == Some(config@),
                None => self@.config is None,
            },
    {
        self.config.peek()
    }

    /// The policy that the handle was made with.
    pub fn policy(&self) -> (policy: ConfigHandlingPolicy)
        ensures
            policy == self@.policy,
    {
        self.data_policy
    }

    /// The configuration of the model.
    ///
    /// Under the refetching policy every call asks the remote service and
    /// hands out what it answers; the cache is neither read nor written.
    /// Under the local policy the cache is handed out, after one fetch that
    /// fills it if it is cold. A failed fetch is handed on and changes
    /// nothing.
    pub fn config<E, F: FnOnce(String) -> Result<UnboundModelConfig, E>>(
        &mut self,
        fetch: F,
    ) -> (config: Result<HashMap<String, Value>, E>)
        requires
            old(self)@.reads_remotely() ==> call_requires(fetch, (old(self).id_text(),)),
        ensures
            !old(self)@.reads_remotely() ==> {
                &&& final(self)@ == old(self)@
                &&& config matches Ok(cached) && Some(cached@) == old(self)@.config
            },
            old(self)@.reads_remotely() ==> exists|answer: Result<UnboundModelConfig, E>| #[trigger]
                call_ensures(fetch, (old(self).id_text(),), answer) && match answer {
                    Ok(remote) => {
                        &&& final(self)@ == old(self)@.after_read(remote.model_config@)
                        &&& config matches Ok(fetched) && fetched@ == remote.model_config@
                    },
                    Err(failure) => {
                        &&& final(self)@ == old(self)@
                        &&& config == Err::<HashMap<String, Value>, E>(failure)
                    },
                },
            final(self).id_text() == old(self).id_text(),
            final(self).name_text() == old(self).name_text(),
    {
        match self.data_policy {
            ConfigHandlingPolicy::ReadFetchWriteWithFetch => {
                match fetch(self.id.clone()) {
                    Ok(remote) => Ok(remote.model_config),
                    Err(failure) => Err(failure),
                }
            },
            ConfigHandlingPolicy::ReadLocalWriteNoFetch => {
                let id = self.id.clone();
                let producer = || -> (produced: Result<HashMap<String, Value>, E>)
                    requires
                        call_requires(fetch, (id,)),
                    ensures
                        config_answer(fetch, id, produced),
                    {
                        match fetch(id) {
                            Ok(remote) => Ok(remote.model_config),
                            Err(failure) => Err(failure),
                        }
                    };
                let cached = self.config.get(producer);
                match cached {
                    Ok(config) => Ok(config.clone()),
                    Err(failure) => Err(failure),
                }
            },
        }
    }

    /// The name that goes with this model in a remote write of its
    /// configuration, and what [`Model::name`] hands out: the local name
    /// under the local policy, the name that the remote service has at this
    /// moment under the refetching policy.
    pub open spec fn current_name<E, F: FnOnce(String) -> Result<UnboundModelConfig, E>>(
        &self,
        fetch: F,
        name: Result<String, E>,
    ) -> bool {
        match self@.policy {
            ConfigHandlingPolicy::ReadLocalWriteNoFetch => name == Ok::<String, E>(
                self.name_text(),
            ),
            ConfigHandlingPolicy::ReadFetchWriteWithFetch => name_answer(
                fetch,
                self.id_text(),
                name,
            ),
        }
    }

    /// What [`Model::update_config`] does: the name is determined first, and
    /// a failure to fetch it ends the update with nothing sent and nothing
    /// changed. Otherwise name and configuration go out in one write, and
    /// only a successful write puts the configuration in the cache.
    pub open spec fn config_updated<
        E,
        F: FnOnce(String) -> Result<UnboundModelConfig, E>,
        W: FnOnce(String, String, HashMap<String, Value>) -> Result<(), E>,
    >(
        &self,
        config: HashMap<String, Value>,
        fetch: F,
        write: W,
        after: ModelView,
        outcome: Result<(), E>,
    ) -> bool {
        exists|name: Result<String, E>| #[trigger]
            self.current_name(fetch, name) && match name {
                Err(failure) => after == self@ && outcome == Err::<(), E>(failure),
                Ok(companion) => sent(
                    write,
                    self.id_text(),
                    companion,
                    config,
                    self@,
                    self@.after_config_write(config@),
                    after,
                    outcome,
                ),
            }
    }

    /// What [`Model::update_name`] does. The configuration that goes with
    /// the new name is read as [`Model::config`] reads it, and a failure to
    /// fetch it ends the update with nothing sent and nothing changed.
    /// Otherwise name and configuration go out in one write, and only a
    /// successful write changes the local name.
    pub open spec fn name_updated<
        E,
        F: FnOnce(String) -> Result<UnboundModelConfig, E>,
        W: FnOnce(String, String, HashMap<String, Value>) -> Result<(), E>,
    >(&self, name: String, fetch: F, write: W, after: ModelView, outcome: Result<(), E>) -> bool {
        if self@.reads_remotely() {
            exists|answer: Result<UnboundModelConfig, E>| #[trigger]
                call_ensures(fetch, (self.id_text(),), answer) && match answer {
                    Err(failure) => after == self@ && outcome == Err::<(), E>(failure),
                    Ok(remote) => exists|companion: HashMap<String, Value>|
                        companion@ == remote.model_config@ && #[trigger] sent(
                            write,
                            self.id_text(),
                            name,
                            companion,
                            self@.after_read(remote.model_config@),
                            self@.after_read(remote.model_config@).after_name_write(name@),
                            after,
                            outcome,
                        ),
                }
        } else {
            exists|companion: HashMap<String, Value>|
                Some(companion@) == self@.config && #[trigger] sent(
                    write,
                    self.id_text(),
                    name,
                    companion,
                    self@,
                    self@.after_name_write(name@),
                    after,
                    outcome,
                )
        }
    }

    /// The name of the model: the local one under the local policy, the one
    /// that the remote service has at this moment under the refetching
    /// policy.
    pub fn name<E, F: FnOnce(String) -> Result<UnboundModelConfig, E>>(&self, fetch: F) -> (name:
        Result<String, E>)
        requires
            self@.policy is ReadFetchWriteWithFetch ==> call_requires(fetch, (self.id_text(),)),
        ensures
            self.current_name(fetch, name),
    {
        match self.data_policy {
            ConfigHandlingPolicy::ReadFetchWriteWithFetch => {
                match fetch(self.id.clone()) {
                    Ok(remote) => Ok(remote.model_name),
                    Err(failure) => Err(failure),
                }
            },
            ConfigHandlingPolicy::ReadLocalWriteNoFetch => Ok(self.name.clone()),
        }
    }

    /// Replaces the configuration of the model, remotely and then locally.
    ///
    /// The remote store takes name and configuration together, so the name
    /// travels with the new configuration: the local name under the local
    /// policy, a freshly fetched one under the refetching policy. If that
    /// fetch fails nothing is written. The cache takes the new configuration
    /// only after the write has succeeded.
    pub fn update_config<
        E,
        F: FnOnce(String) -> Result<UnboundModelConfig, E>,
        W: FnOnce(String, String, HashMap<String, Value>) -> Result<(), E>,
    >(&mut self, config: HashMap<String, Value>, fetch: F, write: W) -> (outcome: Result<(), E>)
        requires
            old(self)@.policy is ReadFetchWriteWithFetch ==> call_requires(
                fetch,
                (old(self).id_text(),),
            ),
            forall|name: Result<String, E>| #[trigger]
                old(self).current_name(fetch, name) && name is Ok ==> call_requires(
                    write,
                    (old(self).id_text(), name->Ok_0, config),
                ),
        ensures
            old(self).config_updated(config, fetch, write, final(self)@, outcome),
            final(self).id_text() == old(self).id_text(),
            final(self).name_text() == old(self).name_text(),
    {
        let name = match self.name(fetch) {
            Ok(name) => name,
            Err(failure) => {
                return Err(failure);
            },
        };
        let kept = config.clone();
        match write(self.id.clone(), name, config) {
            Ok(()) => {
                self.config.set(kept);
                Ok(())
            },
            Err(failure) => Err(failure),
        }
    }

    /// Renames the model, remotely and then locally.
    ///
    /// The remote store takes name and configuration together, so the
    /// configuration travels with the new name, read as [`Model::config`]
    /// reads it. If that read fails nothing is written: `write` need only
    /// accept a configuration that was cached or fetched. The local name
    /// changes only after the write has succeeded.
    pub fn update_name<
        E,
        F: FnOnce(String) -> Result<UnboundModelConfig, E>,
        W: FnOnce(String, String, HashMap<String, Value>) -> Result<(), E>,
    >(&mut self, name: String, fetch: F, write: W) -> (outcome: Result<(), E>)
        requires
            old(self)@.reads_remotely() ==> call_requires(fetch, (old(self).id_text(),)),
            forall|companion: HashMap<String, Value>|
                (if old(self)@.reads_remotely() {
                    exists|answer: Result<UnboundModelConfig, E>| #[trigger]
                        call_ensures(fetch, (old(self).id_text(),), answer) && answer is Ok
                            && companion@ == answer->Ok_0.model_config@
                } else {
                    Some(companion@) == old(self)@.config
                }) ==> #[trigger] call_requires(write, (old(self).id_text(), name, companion)),
        ensures
            old(self).name_updated(name, fetch, write, final(self)@, outcome),
            final(self).id_text() == old(self).id_text(),
    {
        let companion = match self.config(fetch) {
            Ok(companion) => companion,
            Err(failure) => {
                return Err(failure);
            },
        };
        let ghost read = self@;
        let ghost id = self.id_text();
        let kept = name.clone();
        let outcome = match write(self.id.clone(), name, companion) {
            Ok(()) => {
                self.name = kept;
                Ok(())
            },
            Err(failure) => Err(failure),
        };
        proof {
            assert(sent(
                write,
                id,
                name,
                companion,
                read,
                read.after_name_write(name@),
                self@,
                outcome,
            ));
        }
        outcome
    }
}

/// What a model version is: the model, the version and the time it was
/// made. The first two are its identity.
pub struct ModelVersionView {
    pub model: Seq<char>,
    pub version: Seq<char>,
    pub time: Seq<char>,
}

/// A stored version of a model.
#[derive(Debug, Clone)]
pub struct ModelVersion {
    model: String,
    version: String,
    time: String,
}

impl View for ModelVersion {
    type V = ModelVersionView;

    closed spec fn view(&self) -> ModelVersionView {
        ModelVersionView { model: self.model@, version: self.version@, time: self.time@ }
    }
}

/// Two handles are equal when they are handles of the same version of the
/// same model.
impl PartialEq for ModelVersion {
    fn eq(&self, other: &Self) -> (equal: bool) {
        self.model == other.model && self.version == other.version
    }
}

impl Eq for ModelVersion {

}

impl vstd::std_specs::cmp::PartialEqSpecImpl for ModelVersion {
    open spec fn obeys_eq_spec() -> bool {
        true
    }

    open spec fn eq_spec(&self, other: &Self) -> bool {
        self@.model == other@.model && self@.version == other@.version
    }
}

/// A version hashes as its version and model identifiers do.
impl core::hash::Hash for ModelVersion {
    fn hash<H: core::hash::Hasher>(&self, state: &mut H) {
        self.version.hash(state);
        self.model.hash(state);
    }
}

/// What a test run is: the model and the run.
pub struct TestRunView {
    pub model: Seq<char>,
    pub run: Seq<char>,
}

/// The stored results of one evaluation of a model.
#[derive(Debug, Clone)]
pub struct TestRun {
    model: String,
    run: String,
}

impl View for TestRun {
    type V = TestRunView;

    closed spec fn view(&self) -> TestRunView {
        TestRunView { model: self.model@, run: self.run@ }
    }
}

impl UnboundModelVersion {
    /// The version that this listing entry describes.
    pub open spec fn bound(self) -> ModelVersionView {
        ModelVersionView { model: self.model_id@, version: self.version_id@, time: self.time@ }
    }

    /// The handle of the version that this listing entry describes.
    pub fn into_bound_model(self) -> (version: ModelVersion)
        ensures
            version@ == self.bound(),
            version.model_text() == self.model_id,
            version.version_text() == self.version_id,
    {
        ModelVersion { model: self.model_id, version: self.version_id, time: self.time }
    }
}

impl UnboundTestRun {
    /// The test run that this listing entry describes.
    pub open spec fn bound(self) -> TestRunView {
        TestRunView { model: self.model_id@, run: self.performance_id@ }
    }

    /// The handle of the test run that this listing entry describes.
    pub fn into_bound_test_run(self) -> (run: TestRun)
        ensures
            run@ == self.bound(),
            run.model_text() == self.model_id,
            run.run_text() == self.performance_id,
    {
        TestRun { model: self.model_id, run: self.performance_id }
    }
}

/// The version handles for a listing, entry by entry.
pub open spec fn bound_versions(listing: Seq<UnboundModelVersion>) -> Seq<ModelVersionView> {
    Seq::new(listing.len(), |i: int| listing[i].bound())
}

/// The test run handles for a listing, entry by entry.
pub open spec fn bound_runs(listing: Seq<UnboundTestRun>) -> Seq<TestRunView> {
    Seq::new(listing.len(), |i: int| listing[i].bound())
}

/// The views of a list of version handles.
pub open spec fn version_views(versions: Seq<ModelVersion>) -> Seq<ModelVersionView> {
    Seq::new(versions.len(), |i: int| versions[i]@)
}

/// The views of a list of test run handles.
pub open spec fn run_views(runs: Seq<TestRun>) -> Seq<TestRunView> {
    Seq::new(runs.len(), |i: int| runs[i]@)
}

/// Files the versions that the remote store lists for a model under that
/// model: each entry of the listing gives a version identifier and the time
/// the version was made, in this order.
pub fn versions_of(model_id: &String, listing: Vec<(String, String)>) -> (versions: Vec<
    UnboundModelVersion,
>)
    ensures
        versions@.len() == listing@.len(),
        forall|i: int|
            0 <= i < listing@.len() ==> (#[trigger] versions@[i]).model_id@ == model_id@
                && versions@[i].version_id@ == listing@[i].0@ && versions@[i].time@
                == listing@[i].1@,
{
    let mut versions: Vec<UnboundModelVersion> = Vec::with_capacity(listing.len());
    for entry in it: listing.into_iter()
        invariant
            it.seq() == listing@,
            versions@.len() == it.index(),
            forall|i: int|
                0 <= i < versions@.len() ==> (#[trigger] versions@[i]).model_id@ == model_id@
                    && versions@[i].version_id@ == listing@[i].0@ && versions@[i].time@
                    == listing@[i].1@,
    {
        let (version_id, time) = entry;
        versions.push(UnboundModelVersion { model_id: model_id.clone(), version_id, time });
    }
    versions
}

/// Files the test runs that the remote store lists for a model under that
/// model: each entry of the listing is the identifier of a run.
pub fn test_runs_of(model_id: &String, listing: Vec<String>) -> (runs: Vec<UnboundTestRun>)
    ensures
        runs@.len() == listing@.len(),
        forall|i: int|
            0 <= i < listing@.len() ==> (#[trigger] runs@[i]).model_id@ == model_id@
                && runs@[i].performance_id@ == listing@[i]@,
{
    let mut runs: Vec<UnboundTestRun> = Vec::with_capacity(listing.len());
    for performance_id in it: listing.into_iter()
        invariant
            it.seq() == listing@,
            runs@.len() == it.index(),
            forall|i: int|
                0 <= i < runs@.len() ==> (#[trigger] runs@[i]).model_id@ == model_id@
                    && runs@[i].performance_id@ == listing@[i]@,
    {
        runs.push(UnboundTestRun { model_id: model_id.clone(), performance_id });
    }
    runs
}

/// Turns a listing of versions into handles.
pub fn bind_versions(listing: Vec<UnboundModelVersion>) -> (versions: Vec<ModelVersion>)
    ensures
        version_views(versions@) == bound_versions(listing@),
{
    let mut versions: Vec<ModelVersion> = Vec::with_capacity(listing.len());
    for entry in it: listing.into_iter()
        invariant
            it.seq() == listing@,
            versions@.len() == it.index(),
            forall|i: int| 0 <= i < versions@.len() ==> versions@[i]@ == listing@[i].bound(),
    {
        versions.push(entry.into_bound_model());
    }
    versions
}

/// Turns a listing of test runs into handles.
pub fn bind_runs(listing: Vec<UnboundTestRun>) -> (runs: Vec<TestRun>)
    ensures
        run_views(runs@) == bound_runs(listing@),
{
    let mut runs: Vec<TestRun> = Vec::with_capacity(listing.len());
    for entry in it: listing.into_iter()
        invariant
            it.seq() == listing@,
            runs@.len() == it.index(),
            forall|i: int| 0 <= i < runs@.len() ==> runs@[i]@ == listing@[i].bound(),
    {
        runs.push(entry.into_bound_test_run());
    }
    runs
}

/// The operations of a model on its versions and test runs. Each hands one
/// request to the remote service, for this model, and hands on what comes
/// back.
impl Model {
    /// Stores the file at `path` as a new version of the model, made at
    /// `time`, and gives the handle of that version.
    pub fn upload_version<E, F: FnOnce(String, String, String) -> Result<String, E>>(
        &self,
        time: String,
        path: String,
        upload: F,
    ) -> (version: Result<ModelVersion, E>)
        requires
            call_requires(upload, (self.id_text(), time, path)),
        ensures
            exists|answer: Result<String, E>| #[trigger]
                call_ensures(upload, (self.id_text(), time, path), answer) && match answer {
                    Ok(id) => version matches Ok(stored) && stored@ == (ModelVersionView {
                        model: self@.id,
                        version: id@,
                        time: time@,
                    }),
                    Err(failure) => version == Err::<ModelVersion, E>(failure),
                },
    {
        match upload(self.id.clone(), time.clone(), path) {
            Ok(id) => Ok(ModelVersion { model: self.id.clone(), version: id, time }),
            Err(failure) => Err(failure),
        }
    }

    /// Deletes a version of this model.
    pub fn delete_version<E, F: FnOnce(String, String) -> Result<(), E>>(
        &self,
        model: ModelVersion,
        delete: F,
    ) -> (outcome: Result<(), E>)
        requires
            call_requires(delete, (self.id_text(), model.version_text())),
        ensures
            call_ensures(delete, (self.id_text(), model.version_text()), outcome),
    {
        delete(self.id.clone(), model.version)
    }

    /// The versions of this model.
    pub fn model_versions<E, F: FnOnce(String) -> Result<Vec<UnboundModelVersion>, E>>(
        &self,
        list: F,
    ) -> (versions: Result<Vec<ModelVersion>, E>)
        requires
            call_requires(list, (self.id_text(),)),
        ensures
            exists|answer: Result<Vec<UnboundModelVersion>, E>| #[trigger]
                call_ensures(list, (self.id_text(),), answer) && match answer {
                    Ok(listing) => versions matches Ok(bound) && version_views(bound@)
                        == bound_versions(listing@),
                    Err(failure) => versions == Err::<Vec<ModelVersion>, E>(failure),
                },
    {
        match list(self.id.clone()) {
            Ok(listing) => Ok(bind_versions(listing)),
            Err(failure) => Err(failure),
        }
    }

    /// The test runs of this model.
    pub fn model_runs<E, F: FnOnce(String) -> Result<Vec<UnboundTestRun>, E>>(
        &self,
        list: F,
    ) -> (runs: Result<Vec<TestRun>, E>)
        requires
            call_requires(list, (self.id_text(),)),
        ensures
            exists|answer: Result<Vec<UnboundTestRun>, E>| #[trigger]
                call_ensures(list, (self.id_text(),), answer) && match answer {
                    Ok(listing) => runs matches Ok(bound) && run_views(bound@) == bound_runs(
                        listing@,
                    ),
                    Err(failure) => runs == Err::<Vec<TestRun>, E>(failure),
                },
    {
        match list(self.id.clone()) {
            Ok(listing) => Ok(bind_runs(listing)),
            Err(failure) => Err(failure),
        }
    }

    /// Stores the results of an evaluation of this model and gives the
    /// handle of the new test run.
    pub fn store_run<E, F: FnOnce(String, Vec<Value>) -> Result<String, E>>(
        &self,
        data: Vec<Value>,
        store: F,
    ) -> (run: Result<TestRun, E>)
        requires
            call_requires(store, (self.id_text(), data)),
        ensures
            exists|answer: Result<String, E>| #[trigger]
                call_ensures(store, (self.id_text(), data), answer) && match answer {
                    Ok(id) => run matches Ok(stored) && stored@ == (TestRunView {
                        model: self@.id,
                        run: id@,
                    }),
                    Err(failure) => run == Err::<TestRun, E>(failure),
                },
    {
        match store(self.id.clone(), data) {
            Ok(id) => Ok(TestRun { model: self.id.clone(), run: id }),
            Err(failure) => Err(failure),
        }
    }

    /// Deletes a test run, under the model that the run itself names.
    pub fn delete_run<E, F: FnOnce(String, String) -> Result<(), E>>(
        &self,
        run: TestRun,
        delete: F,
    ) -> (outcome: Result<(), E>)
        requires
            call_requires(delete, (run.model_text(), run.run_text())),
        ensures
            call_ensures(delete, (run.model_text(), run.run_text()), outcome),
    {
        delete(run.model, run.run)
    }
}

impl ModelVersion {
    /// The model identifier as the value that is handed to the remote
    /// service.
    pub closed spec fn model_text(&self) -> String {
        self.model
    }

    /// The version identifier as the value that is handed to the remote
    /// service.
    pub closed spec fn version_text(&self) -> String {
        self.version
    }

    /// The identifier of the model that this is a version of.
    pub fn model_id(&self) -> (id: &String)
        ensures
            *id == self.model_text(),
            id@ == self@.model,
    {
        &self.model
    }

    /// The identifier of the version.
    pub fn version_id(&self) -> (id: &String)
        ensures
            *id == self.version_text(),
            id@ == self@.version,
    {
        &self.version
    }

    /// The time at which the version was made.
    pub fn time(&self) -> (time: &String)
        ensures
            time@ == self@.time,
    {
        &self.time
    }

    /// Downloads the stored file of this version to `path`.
    pub fn download<E, F: FnOnce(String, String, String) -> Result<(), E>>(
        &self,
        path: String,
        download: F,
    ) -> (outcome: Result<(), E>)
        requires
            call_requires(download, (self.model_text(), self.version_text(), path)),
        ensures
            call_ensures(download, (self.model_text(), self.version_text(), path), outcome),
    {
        download(self.model.clone(), self.version.clone(), path)
    }

    /// The predictions of this version, for the given issues or for all.
    pub fn get_predictions<
        E,
        F: FnOnce(String, String, Option<Vec<String>>) -> Result<HashMap<String, Value>, E>,
    >(&self, issues: Option<Vec<String>>, get: F) -> (predictions: Result<
        HashMap<String, Value>,
        E,
    >)
        requires
            call_requires(get, (self.model_text(), self.version_text(), issues)),
        ensures
            call_ensures(get, (self.model_text(), self.version_text(), issues), predictions),
    {
        get(self.model.clone(), self.version.clone(), issues)
    }

    /// Stores predictions under this version.
    pub fn store_predictions<
        E,
        F: FnOnce(String, String, HashMap<String, Value>) -> Result<(), E>,
    >(&self, predictions: HashMap<String, Value>, store: F) -> (outcome: Result<(), E>)
        requires
            call_requires(store, (self.model_text(), self.version_text(), predictions)),
        ensures
            call_ensures(store, (self.model_text(), self.version_text(), predictions), outcome),
    {
        store(self.model.clone(), self.version.clone(), predictions)
    }

    /// Deletes the predictions of this version.
    pub fn delete_predictions<E, F: FnOnce(String, String) -> Result<(), E>>(
        &self,
        delete: F,
    ) -> (outcome: Result<(), E>)
        requires
            call_requires(delete, (self.model_text(), self.version_text())),
        ensures
            call_ensures(delete, (self.model_text(), self.version_text()), outcome),
    {
        delete(self.model.clone(), self.version.clone())
    }
}

impl TestRun {
    /// The model identifier as the value that is handed to the remote
    /// service.
    pub closed spec fn model_text(&self) -> String {
        self.model
    }

    /// The run identifier as the value that is handed to the remote service.
    pub closed spec fn run_text(&self) -> String {
        self.run
    }

    /// The identifier of the model that was evaluated.
    pub fn model_id(&self) -> (id: &String)
        ensures
            *id == self.model_text(),
            id@ == self@.model,
    {
        &self.model
    }

    /// The identifier of the run.
    pub fn run_id(&self) -> (id: &String)
        ensures
            *id == self.run_text(),
            id@ == self@.run,
    {
        &self.run
    }

    /// The stored results of the run.
    pub fn data<E, F: FnOnce(String, String) -> Result<Vec<Value>, E>>(&self, get: F) -> (data:
        Result<Vec<Value>, E>)
        requires
            call_requires(get, (self.model_text(), self.run_text())),
        ensures
            call_ensures(get, (self.model_text(), self.run_text()), data),
    {
        get(self.model.clone(), self.run.clone())
    }
}

/// Under the refetching policy a read never warms the cache: whatever was
/// fetched, the handle is as it was, and the next read goes to the remote
/// service again.
pub proof fn lemma_refetching_reads_always_fetch(model: ModelView, remote: Map<String, Value>)
    requires
        model.policy is ReadFetchWriteWithFetch,
    ensures
        model.reads_remotely(),
        model.after_read(remote) == model,
        model.after_read(remote).reads_remotely(),
{
}

/// Under the local policy one successful fetch is enough: the read that
/// follows it is served from the cache, with the value that was fetched.
pub proof fn lemma_local_reads_fetch_once(model: ModelView, remote: Map<String, Value>)
    requires
        model.policy is ReadLocalWriteNoFetch,
    ensures
        !model.after_read(remote).reads_remotely(),
        model.after_read(remote).config == Some(remote),
{
}

/// If every fetch of the companion name fails under the refetching policy,
/// an update of the configuration fails and leaves the handle, its cache
/// included, as it was.
pub proof fn lemma_failed_companion_fetch_aborts_write<
    E,
    F: FnOnce(String) -> Result<UnboundModelConfig, E>,
    W: FnOnce(String, String, HashMap<String, Value>) -> Result<(), E>,
>(
    model: Model,
    config: HashMap<String, Value>,
    fetch: F,
    write: W,
    after: ModelView,
    outcome: Result<(), E>,
)
    requires
        model@.policy is ReadFetchWriteWithFetch,
        forall|answer: Result<UnboundModelConfig, E>| #[trigger]
            call_ensures(fetch, (model.id_text(),), answer) ==> answer is Err,
        model.config_updated(config, fetch, write, after, outcome),
    ensures
        outcome is Err,
        after == model@,
{
}

/// If the configuration that goes with a new name has to be fetched and
/// every fetch fails, the rename fails and leaves the handle as it was.
pub proof fn lemma_failed_companion_fetch_aborts_rename<
    E,
    F: FnOnce(String) -> Result<UnboundModelConfig, E>,
    W: FnOnce(String, String, HashMap<String, Value>) -> Result<(), E>,
>(model: Model, name: String, fetch: F, write: W, after: ModelView, outcome: Result<(), E>)
    requires
        model@.reads_remotely(),
        forall|answer: Result<UnboundModelConfig, E>| #[trigger]
            call_ensures(fetch, (model.id_text(),), answer) ==> answer is Err,
        model.name_updated(name, fetch, write, after, outcome),
    ensures
        outcome is Err,
        after == model@,
{
}

/// An update of the configuration that fails, for whatever reason, leaves
/// the handle as it was.
pub proof fn lemma_failed_config_update_changes_nothing<
    E,
    F: FnOnce(String) -> Result<UnboundModelConfig, E>,
    W: FnOnce(String, String, HashMap<String, Value>) -> Result<(), E>,
>(
    model: Model,
    config: HashMap<String, Value>,
    fetch: F,
    write: W,
    after: ModelView,
    outcome: Result<(), E>,
)
    requires
        model.config_updated(config, fetch, write, after, outcome),
        outcome is Err,
    ensures
        after == model@,
{
}

} // verus!
