//! The entry point: a session together with the policies that every handle
//! made through it is given.

use crate::api_core::{IssueAPI, IssueAPIView};
use crate::config::{CachingPolicy, ConfigHandlingPolicy};
use crate::issue_data::IssueData;
use crate::models::{Model, ModelInfo, ModelView};
use serde_json::Value;
use std::collections::HashMap;
use vstd::prelude::*;

verus! {

/// What a repository is.
pub struct IssueRepositoryView {
    pub label_caching: CachingPolicy,
    pub config_handling: ConfigHandlingPolicy,
    pub api: IssueAPIView,
}

/// A remote issue store, seen through one session.
#[derive(Debug)]
pub struct IssueRepository {
    label_caching: CachingPolicy,
    config_handling: ConfigHandlingPolicy,
    api: IssueAPI,
}

impl View for IssueRepository {
    type V = IssueRepositoryView;

    closed spec fn view(&self) -> IssueRepositoryView {
        IssueRepositoryView {
            label_caching: self.label_caching,
            config_handling: self.config_handling,
            api: self.api@,
        }
    }
}

/// One of the source repositories that the store collects issues from.
#[derive(Debug, Clone)]
pub struct IssueRepo {
    name: String,
}

impl View for IssueRepo {
    type V = Seq<char>;

    closed spec fn view(&self) -> Seq<char> {
        self.name@
    }
}

/// The handle of a model as a listing entry describes it, under `policy`:
/// nothing is cached yet.
pub open spec fn listed_model(entry: ModelInfo, policy: ConfigHandlingPolicy) -> ModelView {
    ModelView { id: entry.model_id@, name: entry.model_name@, config: None, policy }
}

/// The handles of the models of a listing, entry by entry.
pub open spec fn listed_models(listing: Seq<ModelInfo>, policy: ConfigHandlingPolicy) -> Seq<
    ModelView,
> {
    Seq::new(listing.len(), |i: int| listed_model(listing[i], policy))
}

/// The views of a list of model handles.
pub open spec fn model_views(models: Seq<Model>) -> Seq<ModelView> {
    Seq::new(models.len(), |i: int| models[i]@)
}

/// What is sent to tag issues in bulk: for each issue its identifier, under
/// which the remote store knows it, and the tags for it.
pub open spec fn tagging_payload(tags: Seq<(&IssueData, Vec<String>)>) -> Seq<
    (Seq<char>, Seq<Seq<char>>),
> {
    Seq::new(tags.len(), |i: int| (tags[i].0@.ident, tags[i].1.deep_view()))
}

/// The views of a list of repository handles.
pub open spec fn repo_names(repos: Seq<IssueRepo>) -> Seq<Seq<char>> {
    Seq::new(repos.len(), |i: int| repos[i]@)
}

impl IssueRepository {
    /// A repository over a session that exists already.
    pub fn from_session(
        api: IssueAPI,
        label_caching_policy: CachingPolicy,
        config_handling_policy: ConfigHandlingPolicy,
    ) -> (repository: Self)
        ensures
            repository@ == (IssueRepositoryView {
                label_caching: label_caching_policy,
                config_handling: config_handling_policy,
                api: api@,
            }),
    {
        IssueRepository {
            api,
            label_caching: label_caching_policy,
            config_handling: config_handling_policy,
        }
    }

    /// A repository over a session without a credential.
    pub fn new_read_only(
        url: String,
        label_caching_policy: CachingPolicy,
        config_handling_policy: ConfigHandlingPolicy,
        allow_self_signed_certs: bool,
    ) -> (repository: Self)
        ensures
            repository@ == (IssueRepositoryView {
                label_caching: label_caching_policy,
                config_handling: config_handling_policy,
                api: IssueAPIView {
                    url: url@,
                    token: None,
                    allow_self_signed: allow_self_signed_certs,
                },
            }),
    {
        IssueRepository::from_session(
            IssueAPI::new_read_only(url, allow_self_signed_certs),
            label_caching_policy,
            config_handling_policy,
        )
    }

    /// A repository over a session with a credential; see [`IssueAPI::new`].
    /// A failure to establish the credential leaves no repository behind.
    pub fn new<E, F: FnOnce(String, String, String) -> Result<String, E>>(
        url: String,
        username: String,
        password: String,
        label_caching_policy: CachingPolicy,
        config_handling_policy: ConfigHandlingPolicy,
        allow_self_signed_certs: bool,
        authenticate: F,
    ) -> (repository: Result<Self, E>)
        requires
            forall|endpoint: String| #[trigger]
                call_requires(authenticate, (endpoint, username, password)),
        ensures
            exists|endpoint: String, answer: Result<String, E>|
                {
                    &&& endpoint@ == url@ + "/"@ + "token"@
                    &&& #[trigger] call_ensures(
                        authenticate,
                        (endpoint, username, password),
                        answer,
                    )
                    &&& match answer {
                        Ok(token) => repository matches Ok(made) && made@ == (IssueRepositoryView {
                            label_caching: label_caching_policy,
                            config_handling: config_handling_policy,
                            api: IssueAPIView {
                                url: url@,
                                token: Some(token@),
                                allow_self_signed: allow_self_signed_certs,
                            },
                        }),
                        Err(failure) => repository == Err::<Self, E>(failure),
                    }
                },
    {
        match IssueAPI::new(url, username, password, allow_self_signed_certs, authenticate) {
            Ok(api) => Ok(
                IssueRepository::from_session(api, label_caching_policy, config_handling_policy),
            ),
            Err(failure) => Err(failure),
        }
    }

    /// The session of the repository.
    pub fn api(&self) -> (api: &IssueAPI)
        ensures
            api@ == self@.api,
    {
        &self.api
    }

    /// The policy that handles get for manual labels.
    pub fn label_caching(&self) -> (policy: CachingPolicy)
        ensures
            policy == self@.label_caching,
    {
        self.label_caching
    }

    /// The policy that mutable handles get for their configuration.
    pub fn config_handling(&self) -> (policy: ConfigHandlingPolicy)
        ensures
            policy == self@.config_handling,
    {
        self.config_handling
    }

    /// The source repositories of the store.
    pub fn repos<E, F: FnOnce() -> Result<Vec<String>, E>>(&self, list: F) -> (repos: Result<
        Vec<IssueRepo>,
        E,
    >)
        requires
            call_requires(list, ()),
        ensures
            exists|answer: Result<Vec<String>, E>| #[trigger]
                call_ensures(list, (), answer) && match answer {
                    Ok(names) => repos matches Ok(handles) && repo_names(handles@)
                        == names.deep_view(),
                    Err(failure) => repos == Err::<Vec<IssueRepo>, E>(failure),
                },
    {
        match list() {
            Ok(names) => {
                let mut handles: Vec<IssueRepo> = Vec::with_capacity(names.len());
                for name in it: names.into_iter()
                    invariant
                        it.seq() == names@,
                        handles@.len() == it.index(),
                        forall|i: int| 0 <= i < handles@.len() ==> handles@[i]@ == names@[i]@,
                {
                    handles.push(IssueRepo { name });
                }
                Ok(handles)
            },
            Err(failure) => Err(failure),
        }
    }

    /// Registers a new tag with the store.
    pub fn add_new_tag<E, F: FnOnce(String, String) -> Result<(), E>>(
        &self,
        name: String,
        description: String,
        register: F,
    ) -> (outcome: Result<(), E>)
        requires
            call_requires(register, (name, description)),
        ensures
            call_ensures(register, (name, description), outcome),
    {
        register(name, description)
    }

    /// Adds tags to many issues in one request. An issue is named by its
    /// identifier alone; what its record has cached plays no part.
    pub fn bulk_add_tags<E, F: FnOnce(Vec<(String, Vec<String>)>) -> Result<(), E>>(
        &self,
        tags: Vec<(&IssueData, Vec<String>)>,
        send: F,
    ) -> (outcome: Result<(), E>)
        requires
            forall|payload: Vec<(String, Vec<String>)>| #[trigger] call_requires(send, (payload,)),
        ensures
            exists|payload: Vec<(String, Vec<String>)>|
                {
                    &&& payload.deep_view() == tagging_payload(tags@)
                    &&& #[trigger] call_ensures(send, (payload,), outcome)
                },
    {
        let mut payload: Vec<(String, Vec<String>)> = Vec::with_capacity(tags.len());
        for entry in it: tags.into_iter()
            invariant
                it.seq() == tags@,
                payload@.len() == it.index(),
                forall|i: int|
                    0 <= i < payload@.len() ==> (#[trigger] payload@[i]).deep_view() == (
                        tags@[i].0@.ident,
                        tags@[i].1.deep_view(),
                    ),
        {
            let (issue, issue_tags) = entry;
            payload.push((issue.ident().clone(), issue_tags));
        }
        send(payload)
    }

    /// The models of the store. Every handle gets the configuration policy of
    /// the repository and starts out with a cold cache.
    pub fn models<E, F: FnOnce() -> Result<Vec<ModelInfo>, E>>(&self, list: F) -> (models: Result<
        Vec<Model>,
        E,
    >)
        requires
            call_requires(list, ()),
        ensures
            exists|answer: Result<Vec<ModelInfo>, E>| #[trigger]
                call_ensures(list, (), answer) && match answer {
                    Ok(listing) => models matches Ok(handles) && model_views(handles@)
                        == listed_models(listing@, self@.config_handling),
                    Err(failure) => models == Err::<Vec<Model>, E>(failure),
                },
    {
        match list() {
            Ok(listing) => {
                let mut handles: Vec<Model> = Vec::with_capacity(listing.len());
                for entry in it: listing.into_iter()
                    invariant
                        it.seq() == listing@,
                        handles@.len() == it.index(),
                        forall|i: int|
                            0 <= i < handles@.len() ==> handles@[i]@ == listed_model(
                                listing@[i],
                                self@.config_handling,
                            ),
                {
                    handles.push(
                        Model::new(entry.model_id, entry.model_name, None, self.config_handling),
                    );
                }
                Ok(handles)
            },
            Err(failure) => Err(failure),
        }
    }

    /// Creates a model in the store. The handle gets the configuration
    /// policy of the repository and has the configuration in its cache.
    pub fn add_model<E, F: FnOnce(String, HashMap<String, Value>) -> Result<String, E>>(
        &self,
        name: String,
        config: HashMap<String, Value>,
        create: F,
    ) -> (model: Result<Model, E>)
        requires
            call_requires(create, (name, config)),
        ensures
            exists|answer: Result<String, E>| #[trigger]
                call_ensures(create, (name, config), answer) && match answer {
                    Ok(id) => model matches Ok(made) && made@ == (ModelView {
                        id: id@,
                        name: name@,
                        config: Some(config@),
                        policy: self@.config_handling,
                    }),
                    Err(failure) => model == Err::<Model, E>(failure),
                },
    {
        let kept_name = name.clone();
        let kept_config = config.clone();
        match create(name, config) {
            Ok(id) => Ok(Model::new(id, kept_name, Some(kept_config), self.config_handling)),
            Err(failure) => Err(failure),
        }
    }
}

impl IssueRepo {
    /// The name as the value that is handed to the remote service.
    pub closed spec fn name_text(&self) -> String {
        self.name
    }

    /// The name of the source repository.
    pub fn name(&self) -> (name: &String)
        ensures
            *name == self.name_text(),
            name@ == self@,
    {
        &self.name
    }

    /// The projects of the source repository.
    pub fn projects<E, F: FnOnce(String) -> Result<Vec<String>, E>>(&self, list: F) -> (projects:
        Result<Vec<String>, E>)
        requires
            call_requires(list, (self.name_text(),)),
        ensures
            call_ensures(list, (self.name_text(),), projects),
    {
        list(self.name.clone())
    }
}

} // verus!
