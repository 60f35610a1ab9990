use klave::failure::{Failure, Subprocess};
use klave::git::{
    config_query, find_github_email, find_github_profile_url, find_my_name, guess_repo_url,
    init_command, init_outcome, profile_search_url, profile_url, setting_value, slug_source, trim,
    GitSetting, SlugSource,
};
use klave::json::{Json, Member};
use klave::toolchain::Command;

fn command(program: &str, args: &[&str]) -> Command {
    Command { program: program.to_string(), args: args.iter().map(|a| a.to_string()).collect() }
}

#[test]
fn trim_agrees_with_std() {
    let texts = [
        "",
        " ",
        "\n",
        "a",
        " a",
        "a ",
        "  a b  ",
        "\tJane Doe\r\n",
        "\u{a0}x\u{2003}",
        "\u{3000}",
        " \u{feff}x ",
        "é \n",
        "   \n\t  ",
    ];
    for text in texts {
        assert_eq!(trim(text), text.trim(), "{:?}", text);
    }
}

#[test]
fn a_setting_is_the_trimmed_output() {
    assert_eq!(setting_value(Some("Jane Doe\n")), "Jane Doe");
    assert_eq!(setting_value(Some("")), "");
    assert_eq!(setting_value(None), "");
    assert_eq!(find_my_name(Some("  Jane \n")), "Jane");
    assert_eq!(find_my_name(None), "");
    assert_eq!(find_github_email(Some("jane@example.org\n")), "jane@example.org");
    assert_eq!(find_github_email(None), "");
}

#[test]
fn git_commands() {
    assert_eq!(config_query(GitSetting::UserName), command("git", &["config", "--get", "user.name"]));
    assert_eq!(
        config_query(GitSetting::UserEmail),
        command("git", &["config", "--get", "user.email"])
    );
    assert_eq!(init_command(), command("git", &["init"]));
}

#[test]
fn git_init_fails_with_what_it_wrote() {
    assert_eq!(init_outcome(true, "ignored"), Ok(()));
    assert_eq!(
        init_outcome(false, "fatal: cannot mkdir"),
        Err(Failure::SubprocessFailed(Subprocess::GitInit("fatal: cannot mkdir".to_string())))
    );
    assert_eq!(
        init_outcome(false, "boom").unwrap_err().message(),
        "Failed to initialize Git repository: boom"
    );
}

#[test]
fn the_search_address_holds_the_email() {
    assert_eq!(profile_search_url(""), None);
    assert_eq!(
        profile_search_url("jane@example.org"),
        Some("https://api.github.com/search/users?q=jane@example.org+in:email".to_string())
    );
}

#[test]
fn the_profile_is_that_of_the_first_user_found() {
    let body = r#"{"total_count": 2, "items": [{"login": "jane", "id": 1}, {"login": "other"}]}"#;
    assert_eq!(find_github_profile_url("jane@example.org", Some(body)), "https://github.com/jane");
}

#[test]
fn no_profile_without_a_usable_answer() {
    let mail = "jane@example.org";
    assert_eq!(find_github_profile_url("", Some(r#"{"items": [{"login": "jane"}]}"#)), "");
    assert_eq!(find_github_profile_url(mail, None), "");
    assert_eq!(find_github_profile_url(mail, Some("not json")), "");
    assert_eq!(find_github_profile_url(mail, Some("{}")), "");
    assert_eq!(find_github_profile_url(mail, Some(r#"{"items": []}"#)), "");
    assert_eq!(find_github_profile_url(mail, Some(r#"{"items": {}}"#)), "");
    assert_eq!(find_github_profile_url(mail, Some(r#"{"items": [{"id": 1}]}"#)), "");
    assert_eq!(find_github_profile_url(mail, Some(r#"{"items": [{"login": 7}]}"#)), "");
    assert_eq!(find_github_profile_url(mail, Some(r#"{"items": ["jane"]}"#)), "");
    assert_eq!(
        find_github_profile_url(mail, Some(r#"{"items": [{"id": 1}, {"login": "late"}]}"#)),
        ""
    );
}

#[test]
fn profile_url_reads_a_document() {
    let doc = Json::Object(vec![Member {
        key: "items".to_string(),
        value: Json::Array(vec![Json::Object(vec![Member {
            key: "login".to_string(),
            value: Json::Text("jane".to_string()),
        }])]),
    }]);
    assert_eq!(profile_url(&doc), "https://github.com/jane");
    assert_eq!(profile_url(&Json::Null), "");
}

#[test]
fn the_slug_tells_where_the_name_comes_from() {
    assert_eq!(slug_source("."), SlugSource::WorkingDir);
    assert_eq!(slug_source("./"), SlugSource::WorkingDir);
    assert_eq!(slug_source("./demo"), SlugSource::LastComponent);
    assert_eq!(slug_source("../demo"), SlugSource::LastComponent);
    assert_eq!(slug_source("../"), SlugSource::LastComponent);
    assert_eq!(slug_source("demo"), SlugSource::Nothing);
    assert_eq!(slug_source(""), SlugSource::Nothing);
    assert_eq!(slug_source(".."), SlugSource::Nothing);
    assert_eq!(slug_source("/abs"), SlugSource::Nothing);
    assert_eq!(slug_source(".hidden"), SlugSource::Nothing);
}

#[test]
fn the_repository_is_guessed_from_profile_and_slug() {
    let author = "https://github.com/jane";
    assert_eq!(guess_repo_url(author, "./demo", "cwd", "demo"), "https://github.com/jane/demo");
    assert_eq!(guess_repo_url(author, "../x/demo", "cwd", "demo"), "https://github.com/jane/demo");
    assert_eq!(guess_repo_url(author, ".", "cwd", ""), "https://github.com/jane/cwd");
    assert_eq!(guess_repo_url(author, "./", "cwd", "ignored"), "https://github.com/jane/cwd");
}

#[test]
fn no_repository_without_a_profile_or_a_name() {
    let author = "https://github.com/jane";
    assert_eq!(guess_repo_url(author, "demo", "cwd", "demo"), "");
    assert_eq!(guess_repo_url(author, "./demo", "cwd", ""), "");
    assert_eq!(guess_repo_url(author, ".", "", "demo"), "");
    assert_eq!(guess_repo_url("", "./demo", "cwd", "demo"), "");
    assert_eq!(guess_repo_url("https://gitlab.com/jane", "./demo", "cwd", "demo"), "");
    assert_eq!(guess_repo_url("http://github.com/jane", "./demo", "cwd", "demo"), "");
    assert_eq!(guess_repo_url("https://github.com/", "./demo", "cwd", "demo"), "https://github.com//demo");
}
