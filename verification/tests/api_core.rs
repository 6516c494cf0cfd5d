use issue_db_api::api_core::{collect_issue_ids, issue_keys, IssueAPI, Verb};
use issue_db_api::config::{CachingPolicy, ConfigHandlingPolicy};
use issue_db_api::errors::{APIError, AuthenticationError};
use issue_db_api::models::ModelInfo;
use issue_db_api::repository::IssueRepository;
use serde_json::Value;
use std::collections::HashMap;

fn pair(a: &str, b: &str) -> (String, String) {
    (a.to_string(), b.to_string())
}

fn logged_in() -> IssueAPI {
    IssueAPI::new(
        "https://store".to_string(),
        "user".to_string(),
        "secret".to_string(),
        false,
        |endpoint, username, password| -> Result<String, String> {
            assert_eq!(endpoint, "https://store/token");
            assert_eq!(username, "user");
            assert_eq!(password, "secret");
            Ok("tok".to_string())
        },
    )
    .unwrap()
}

#[test]
fn endpoints_hang_off_the_url() {
    let api = IssueAPI::new_read_only("https://store:8000".to_string(), true);
    assert_eq!(api.get_endpoint("issue-data"), "https://store:8000/issue-data");
    assert_eq!(api.get_endpoint(""), "https://store:8000/");
    assert_eq!(api.get_endpoint("/bulk/add-tags"), "https://store:8000//bulk/add-tags");
    assert!(api.allows_self_signed());
}

#[test]
fn read_only_session_has_no_credential() {
    let api = IssueAPI::new_read_only("u".to_string(), false);
    assert_eq!(api.get_auth(), Err(AuthenticationError {}));
    assert!(!api.allows_self_signed());
}

#[test]
fn reading_needs_no_credential() {
    let api = IssueAPI::new_read_only("u".to_string(), false);
    let base = api.build_request_base("tags", Verb::Get).unwrap();
    assert_eq!(base.url, "u/tags");
    assert_eq!(base.bearer, None);
    let base = logged_in().build_request_base("tags", Verb::Get).unwrap();
    assert_eq!(base.bearer, None);
}

#[test]
fn writing_without_a_credential_fails() {
    let api = IssueAPI::new_read_only("u".to_string(), false);
    for verb in [Verb::Post, Verb::Patch, Verb::Put, Verb::Delete] {
        assert_eq!(api.build_request_base("tags", verb).unwrap_err(), AuthenticationError {});
    }
}

#[test]
fn writing_carries_the_token() {
    let api = logged_in();
    assert_eq!(api.get_auth(), Ok("tok".to_string()));
    for verb in [Verb::Post, Verb::Patch, Verb::Put, Verb::Delete] {
        let base = api.build_request_base("models/m1", verb).unwrap();
        assert_eq!(base.url, "https://store/models/m1");
        assert_eq!(base.bearer, Some("tok".to_string()));
    }
}

#[test]
fn failed_login_leaves_the_session_as_it_was() {
    let failed = IssueAPI::new("u".to_string(), "a".to_string(), "b".to_string(), false, |_, _, _| {
        Err("denied".to_string())
    });
    assert_eq!(failed.unwrap_err(), "denied");

    let mut api = logged_in();
    let outcome = api.login("user".to_string(), "wrong".to_string(), |_, _, _| Err(401u16));
    assert_eq!(outcome, Err(401));
    assert_eq!(api.get_auth(), Ok("tok".to_string()));
    let outcome =
        api.login("user".to_string(), "secret".to_string(), |_, _, _| -> Result<String, u16> {
            Ok("tok2".to_string())
        });
    assert_eq!(outcome, Ok(()));
    assert_eq!(api.get_auth(), Ok("tok2".to_string()));
}

#[test]
fn keys_join_project_and_number() {
    assert_eq!(
        issue_keys(vec![pair("HADOOP", "12"), pair("X", ""), pair("", "7")]),
        vec!["HADOOP-12", "X-", "-7"]
    );
    assert!(issue_keys(vec![]).is_empty());
}

#[test]
fn ids_come_back_in_the_order_of_the_keys() {
    let listing = vec![pair("B-2", "id-b"), pair("A-1", "id-a"), pair("A-1", "shadowed")];
    let ids = collect_issue_ids(
        vec!["A-1".to_string(), "B-2".to_string(), "A-1".to_string()],
        listing,
    );
    assert_eq!(ids, Ok(vec!["id-a".to_string(), "id-b".to_string(), "id-a".to_string()]));
    assert_eq!(collect_issue_ids(vec![], vec![pair("A-1", "x")]), Ok(vec![]));
}

#[test]
fn unknown_key_is_named_in_the_error() {
    let listing = vec![pair("A-1", "id-a")];
    let error = collect_issue_ids(
        vec!["A-1".to_string(), "C-3".to_string(), "D-4".to_string()],
        listing,
    )
    .unwrap_err();
    assert_eq!(error.message(), "No ID found for key \"C-3\"");
    assert_eq!(error, APIError::new("No ID found for key \"C-3\"".to_string()));
}

#[test]
fn repository_hands_its_policy_to_every_model() {
    let repository = IssueRepository::new_read_only(
        "https://store".to_string(),
        CachingPolicy::NoCaching,
        ConfigHandlingPolicy::ReadFetchWriteWithFetch,
        false,
    );
    assert_eq!(repository.label_caching(), CachingPolicy::NoCaching);
    assert_eq!(repository.config_handling(), ConfigHandlingPolicy::ReadFetchWriteWithFetch);
    assert_eq!(repository.api().get_endpoint("x"), "https://store/x");
    let models = repository
        .models(|| -> Result<Vec<ModelInfo>, String> {
            Ok(vec![
                ModelInfo { model_id: "m1".to_string(), model_name: "one".to_string() },
                ModelInfo { model_id: "m2".to_string(), model_name: "two".to_string() },
            ])
        })
        .unwrap();
    assert_eq!(models.len(), 2);
    assert_eq!(models[1].identifier(), "m2");
    assert_eq!(models[1].policy(), ConfigHandlingPolicy::ReadFetchWriteWithFetch);
    assert_eq!(models[1].cached_config(), None);
    assert_eq!(repository.models(|| Err(3u8)).unwrap_err(), 3);
}

#[test]
fn added_model_starts_with_a_warm_cache() {
    let repository = IssueRepository::new(
        "https://store".to_string(),
        "user".to_string(),
        "secret".to_string(),
        CachingPolicy::UseLocalAfterLoad,
        ConfigHandlingPolicy::ReadLocalWriteNoFetch,
        true,
        |endpoint, _, _| -> Result<String, String> {
            assert_eq!(endpoint, "https://store/token");
            Ok("tok".to_string())
        },
    )
    .unwrap();
    assert_eq!(repository.api().get_auth(), Ok("tok".to_string()));
    let config: HashMap<String, Value> =
        [("depth".to_string(), Value::from(3))].into_iter().collect();
    let mut model = repository
        .add_model("fresh".to_string(), config.clone(), |name, sent| -> Result<String, String> {
            assert_eq!(name, "fresh");
            assert_eq!(sent.get("depth"), Some(&Value::from(3)));
            Ok("m5".to_string())
        })
        .unwrap();
    assert_eq!(model.identifier(), "m5");
    assert_eq!(model.policy(), ConfigHandlingPolicy::ReadLocalWriteNoFetch);
    assert_eq!(
        model.config(|_| -> Result<_, String> { panic!("the cache is warm") }),
        Ok(config.clone())
    );
    assert_eq!(model.name(|_| -> Result<_, String> { panic!("the name is local") }), Ok("fresh".to_string()));
    let failed = repository.add_model("fresh".to_string(), config, |_, _| Err("no".to_string()));
    assert_eq!(failed.unwrap_err(), "no");
}

#[test]
fn failed_authentication_leaves_no_repository() {
    let failed = IssueRepository::new(
        "u".to_string(),
        "a".to_string(),
        "b".to_string(),
        CachingPolicy::NoCaching,
        ConfigHandlingPolicy::ReadLocalWriteNoFetch,
        false,
        |_, _, _| Err("denied".to_string()),
    );
    assert_eq!(failed.unwrap_err(), "denied");
}

#[test]
fn repos_and_tags_pass_through() {
    let repository = IssueRepository::new_read_only(
        "u".to_string(),
        CachingPolicy::NoCaching,
        ConfigHandlingPolicy::ReadLocalWriteNoFetch,
        false,
    );
    let repos = repository
        .repos(|| -> Result<Vec<String>, String> { Ok(vec!["Apache".to_string(), "Mozilla".to_string()]) })
        .unwrap();
    assert_eq!(repos.len(), 2);
    assert_eq!(repos[0].name(), "Apache");
    let projects = repos[1].projects(|name| -> Result<Vec<String>, String> {
        assert_eq!(name, "Mozilla");
        Ok(vec!["FIREFOX".to_string()])
    });
    assert_eq!(projects, Ok(vec!["FIREFOX".to_string()]));
    let added = repository.add_new_tag("bug".to_string(), "a defect".to_string(), |name, description| -> Result<(), String> {
        assert_eq!((name.as_str(), description.as_str()), ("bug", "a defect"));
        Ok(())
    });
    assert_eq!(added, Ok(()));
}

#[test]
fn repository_over_an_existing_session() {
    let repository = IssueRepository::from_session(
        logged_in(),
        CachingPolicy::UseLocalAfterLoad,
        ConfigHandlingPolicy::ReadLocalWriteNoFetch,
    );
    assert_eq!(repository.label_caching(), CachingPolicy::UseLocalAfterLoad);
    assert_eq!(repository.api().get_auth(), Ok("tok".to_string()));
}

#[test]
fn bulk_tagging_names_issues_by_identifier() {
    let repository = IssueRepository::new_read_only(
        "u".to_string(),
        CachingPolicy::NoCaching,
        ConfigHandlingPolicy::ReadLocalWriteNoFetch,
        false,
    );
    let mut raw = issue_db_api::raw_issue_response::RawIssueData::default();
    raw.summary = Some("cached".to_string());
    let first = issue_db_api::issue_data::IssueData::from_raw_data("X-1".to_string(), raw);
    let second = issue_db_api::issue_data::IssueData::new_empty("X-2".to_string());
    let sent = std::cell::RefCell::new(Vec::new());
    let outcome = repository.bulk_add_tags(
        vec![
            (&first, vec!["a".to_string(), "b".to_string()]),
            (&second, vec![]),
            (&first, vec!["c".to_string()]),
        ],
        |payload| -> Result<(), String> {
            sent.borrow_mut().push(payload);
            Ok(())
        },
    );
    assert_eq!(outcome, Ok(()));
    assert_eq!(
        *sent.borrow(),
        vec![vec![
            ("X-1".to_string(), vec!["a".to_string(), "b".to_string()]),
            ("X-2".to_string(), vec![]),
            ("X-1".to_string(), vec!["c".to_string()]),
        ]]
    );
    let failed = repository.bulk_add_tags(vec![], |payload| {
        assert!(payload.is_empty());
        Err(9u8)
    });
    assert_eq!(failed, Err(9));
}
