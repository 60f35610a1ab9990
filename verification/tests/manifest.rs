use klave::failure::{ConfigFault, Failure};
use klave::json::{Json, Member};
use klave::manifest::{
    application_from_json, applications_from_json, labels_of, open_manifest, read_manifest,
    select, Application,
};

const THREE: &str = r#"{
  "applications": [
    { "slug": "alpha", "rootDir": "apps/alpha" },
    { "name": "beta", "rootDir": "/apps/beta" },
    { "slug": "gamma", "name": "third" }
  ]
}"#;

fn app(slug: Option<&str>, name: Option<&str>, root_dir: Option<&str>) -> Application {
    Application {
        slug: slug.map(|s| s.to_string()),
        name: name.map(|s| s.to_string()),
        root_dir: root_dir.map(|s| s.to_string()),
    }
}

fn three() -> Vec<Application> {
    vec![
        app(Some("alpha"), None, Some("apps/alpha")),
        app(None, Some("beta"), Some("/apps/beta")),
        app(Some("gamma"), Some("third"), None),
    ]
}

#[test]
fn read_manifest_gives_the_applications_in_order() {
    assert_eq!(read_manifest(THREE), Ok(three()));
}

#[test]
fn read_manifest_refuses_what_is_not_json() {
    assert_eq!(read_manifest("{ not json"), Err(Failure::ConfigInvalid(ConfigFault::NotJson)));
    assert_eq!(read_manifest(""), Err(Failure::ConfigInvalid(ConfigFault::NotJson)));
}

#[test]
fn read_manifest_wants_an_applications_array() {
    let missing = Err(Failure::ConfigInvalid(ConfigFault::NoApplicationsArray));
    assert_eq!(read_manifest("{}"), missing);
    assert_eq!(read_manifest("{\"applications\": {}}"), missing);
    assert_eq!(read_manifest("{\"applications\": \"a\"}"), missing);
    assert_eq!(read_manifest("[]"), missing);
    assert_eq!(read_manifest("null"), missing);
}

#[test]
fn read_manifest_takes_string_fields_only() {
    let text = r#"{"applications": [{"slug": 7, "name": null, "rootDir": ["x"]}, 3, "s"]}"#;
    assert_eq!(
        read_manifest(text),
        Ok(vec![app(None, None, None), app(None, None, None), app(None, None, None)])
    );
}

#[test]
fn read_manifest_accepts_an_empty_array() {
    assert_eq!(read_manifest("{\"applications\": []}"), Ok(vec![]));
}

#[test]
fn application_from_json_reads_the_three_fields() {
    let entry = Json::Object(vec![
        Member { key: "slug".to_string(), value: Json::Text("a".to_string()) },
        Member { key: "name".to_string(), value: Json::Text("A".to_string()) },
        Member { key: "rootDir".to_string(), value: Json::Text("apps/a".to_string()) },
        Member { key: "other".to_string(), value: Json::Bool(true) },
    ]);
    assert_eq!(application_from_json(&entry), app(Some("a"), Some("A"), Some("apps/a")));
    assert_eq!(application_from_json(&Json::Null), app(None, None, None));
}

#[test]
fn applications_from_json_reads_a_document() {
    let doc = Json::Object(vec![Member {
        key: "applications".to_string(),
        value: Json::Array(vec![Json::Object(vec![Member {
            key: "slug".to_string(),
            value: Json::Text("a".to_string()),
        }])]),
    }]);
    assert_eq!(applications_from_json(&doc), Ok(vec![app(Some("a"), None, None)]));
    assert_eq!(
        applications_from_json(&Json::Object(vec![])),
        Err(Failure::ConfigInvalid(ConfigFault::NoApplicationsArray))
    );
}

#[test]
fn select_without_a_filter_takes_every_application() {
    let chosen = select(&three(), None).unwrap();
    assert_eq!(chosen.len(), 3);
    assert_eq!(chosen, three());
}

#[test]
fn select_by_slug_or_name_takes_the_matching_application() {
    assert_eq!(select(&three(), Some("alpha")), Ok(vec![three()[0].clone()]));
    assert_eq!(select(&three(), Some("beta")), Ok(vec![three()[1].clone()]));
    assert_eq!(select(&three(), Some("gamma")), Ok(vec![three()[2].clone()]));
    assert_eq!(select(&three(), Some("third")), Ok(vec![three()[2].clone()]));
}

#[test]
fn select_takes_every_application_that_answers_to_the_filter() {
    let apps = vec![app(Some("a"), None, None), app(Some("b"), None, None), app(None, Some("a"), None)];
    assert_eq!(select(&apps, Some("a")), Ok(vec![apps[0].clone(), apps[2].clone()]));
}

#[test]
fn select_by_an_unknown_name_lists_the_known_ones() {
    let outcome = select(&three(), Some("delta"));
    assert_eq!(
        outcome,
        Err(Failure::ApplicationNotFound {
            name: "delta".to_string(),
            available: vec!["alpha".to_string(), "beta".to_string(), "gamma".to_string()],
        })
    );
    assert_eq!(
        outcome.unwrap_err().message(),
        "Error: No application found with name \"delta\". Available applications: alpha, beta, gamma"
    );
}

#[test]
fn select_from_an_empty_manifest_fails() {
    assert_eq!(select(&vec![], None), Err(Failure::ConfigInvalid(ConfigFault::NoApplications)));
    assert_eq!(
        select(&vec![], Some("a")),
        Err(Failure::ApplicationNotFound { name: "a".to_string(), available: vec![] })
    );
}

#[test]
fn open_manifest_reads_and_chooses() {
    assert_eq!(open_manifest(None, None), Err(Failure::ConfigNotFound));
    assert_eq!(open_manifest(None, Some("alpha")), Err(Failure::ConfigNotFound));
    assert_eq!(open_manifest(Some("]"), None), Err(Failure::ConfigInvalid(ConfigFault::NotJson)));
    assert_eq!(
        open_manifest(Some("{\"applications\": []}"), None),
        Err(Failure::ConfigInvalid(ConfigFault::NoApplications))
    );
    assert_eq!(open_manifest(Some(THREE), None), Ok(three()));
    assert_eq!(open_manifest(Some(THREE), Some("beta")), Ok(vec![three()[1].clone()]));
    assert_eq!(
        open_manifest(Some(THREE), Some("nope")),
        Err(Failure::ApplicationNotFound {
            name: "nope".to_string(),
            available: vec!["alpha".to_string(), "beta".to_string(), "gamma".to_string()],
        })
    );
}

#[test]
fn labels_of_skips_applications_without_slug_and_name() {
    let apps = vec![app(Some("a"), Some("A"), None), app(None, None, Some("x")), app(None, Some("c"), None)];
    assert_eq!(labels_of(&apps), vec!["a".to_string(), "c".to_string()]);
}

#[test]
fn label_prefers_the_slug() {
    assert_eq!(app(Some("s"), Some("n"), None).label(), "s");
    assert_eq!(app(None, Some("n"), None).label(), "n");
    assert_eq!(app(None, None, None).label(), "unknown");
    assert_eq!(app(Some("s"), Some("n"), None).known_label(), Some("s".to_string()));
    assert_eq!(app(None, None, None).known_label(), None);
}

#[test]
fn answers_to_looks_at_slug_and_name() {
    let both = app(Some("s"), Some("n"), None);
    assert!(both.answers_to("s"));
    assert!(both.answers_to("n"));
    assert!(!both.answers_to("x"));
    assert!(!app(None, None, None).answers_to("unknown"));
    assert!(!app(None, None, None).answers_to(""));
}

#[test]
fn root_defaults_to_the_manifest_directory() {
    assert_eq!(app(None, None, None).root(), ".");
    assert_eq!(app(None, None, Some("apps/a")).root(), "apps/a");
    assert_eq!(app(None, None, Some("/apps/a")).root(), "/apps/a");
}

#[test]
fn relative_root_drops_one_leading_slash() {
    assert_eq!(app(None, None, None).relative_root(), ".");
    assert_eq!(app(None, None, Some("apps/a")).relative_root(), "apps/a");
    assert_eq!(app(None, None, Some("/apps/a")).relative_root(), "apps/a");
    assert_eq!(app(None, None, Some("//apps")).relative_root(), "/apps");
    assert_eq!(app(None, None, Some("/")).relative_root(), "");
    assert_eq!(app(None, None, Some("")).relative_root(), "");
}

#[test]
fn duplicate_copies_every_field() {
    let a = app(Some("s"), None, Some("r"));
    assert_eq!(a.duplicate(), a);
}
