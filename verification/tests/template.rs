use klave::failure::Failure;
use klave::template::{
    create_template, is_text_extension, rename_plan, replacements, rewrite, substitute,
    template_kind, Rename, Replacement, Substitution, TemplateKind,
};

fn pair(token: &str, value: &str) -> Replacement {
    Replacement { token: token.to_string(), value: value.to_string() }
}

#[test]
fn the_template_goes_by_its_name() {
    assert_eq!(template_kind("rust"), TemplateKind::Rust);
    assert_eq!(template_kind("assemblyscript"), TemplateKind::AssemblyScript);
    assert_eq!(template_kind("Rust"), TemplateKind::AssemblyScript);
    assert_eq!(template_kind(""), TemplateKind::AssemblyScript);
}

#[test]
fn the_replacements_are_the_five_tokens() {
    assert_eq!(
        replacements("demo", "A demo"),
        vec![
            pair("{{KLAVE_APP_SLUG}}", "demo"),
            pair("{{KLAVE_APP_DESCRIPTION}}", "A demo"),
            pair("{{KLAVE_APP_VERSION}}", "0.0.1"),
            pair("{{KLAVE_APP_LICENSE}}", "MIT"),
            pair("{{KLAVE_SDK_CURRENT_VERSION}}", "*"),
        ]
    );
}

#[test]
fn text_files_are_told_by_their_extension() {
    for ext in ["json", "toml", "rs", "ts", "wit"] {
        assert!(is_text_extension(ext), "{}", ext);
    }
    for ext in ["", "md", "wasm", "JSON", "tsx", "r", "jsonc", ".rs"] {
        assert!(!is_text_extension(ext), "{}", ext);
    }
}

#[test]
fn substitute_replaces_a_token_that_stands_twice() {
    let content = "{\n  \"name\": \"{{KLAVE_APP_SLUG}}\",\n  \"main\": \"apps/{{KLAVE_APP_SLUG}}/index.ts\"\n}\n";
    let out = substitute(content, &replacements("demo", "A demo"));
    assert_eq!(
        out,
        Substitution {
            content: "{\n  \"name\": \"demo\",\n  \"main\": \"apps/demo/index.ts\"\n}\n".to_string(),
            modified: true,
        }
    );
}

#[test]
fn substitute_replaces_every_token() {
    let content = "{{KLAVE_APP_SLUG}} {{KLAVE_APP_DESCRIPTION}} {{KLAVE_APP_VERSION}} {{KLAVE_APP_LICENSE}} {{KLAVE_SDK_CURRENT_VERSION}} {{OTHER}}";
    let out = substitute(content, &replacements("demo", "A demo"));
    assert_eq!(out.content, "demo A demo 0.0.1 MIT * {{OTHER}}");
    assert!(out.modified);
}

#[test]
fn substitute_leaves_a_content_without_tokens_untouched() {
    let out = substitute("fn main() {}\n", &replacements("demo", "A demo"));
    assert_eq!(out, Substitution { content: "fn main() {}\n".to_string(), modified: false });
    let out = substitute("anything", &vec![]);
    assert_eq!(out, Substitution { content: "anything".to_string(), modified: false });
}

#[test]
fn substitute_makes_the_replacements_in_turn() {
    let out = substitute("a", &vec![pair("a", "b"), pair("b", "c")]);
    assert_eq!(out, Substitution { content: "c".to_string(), modified: true });
    let out = substitute("a", &vec![pair("b", "c"), pair("a", "b")]);
    assert_eq!(out, Substitution { content: "b".to_string(), modified: true });
    let out = substitute("x", &vec![pair("x", "x")]);
    assert_eq!(out, Substitution { content: "x".to_string(), modified: true });
}

#[test]
fn substitute_agrees_with_the_replacements_of_std() {
    let contents = ["", "{{KLAVE_APP_SLUG}}", "x{{KLAVE_APP_SLUG}}y{{KLAVE_APP_LICENSE}}", "{{{{KLAVE_APP_VERSION}}}}"];
    let names = ["demo", "{{KLAVE_APP_LICENSE}}", ""];
    for content in contents {
        for name in names {
            let list = replacements(name, "about");
            let mut expected = content.to_string();
            let mut modified = false;
            for r in &list {
                if expected.contains(r.token.as_str()) {
                    expected = expected.replace(r.token.as_str(), r.value.as_str());
                    modified = true;
                }
            }
            assert_eq!(substitute(content, &list), Substitution { content: expected, modified });
        }
    }
}

#[test]
fn rewrite_gives_the_new_content_of_a_text_file_with_tokens() {
    let list = replacements("demo", "A demo");
    assert_eq!(
        rewrite(Some("toml"), "name = \"{{KLAVE_APP_SLUG}}\"", &list),
        Some("name = \"demo\"".to_string())
    );
    assert_eq!(rewrite(Some("toml"), "name = \"fixed\"", &list), None);
    assert_eq!(rewrite(Some("md"), "# {{KLAVE_APP_SLUG}}", &list), None);
    assert_eq!(rewrite(Some(""), "{{KLAVE_APP_SLUG}}", &list), None);
    assert_eq!(rewrite(None, "{{KLAVE_APP_SLUG}}", &list), None);
}

#[test]
fn the_application_directory_is_renamed_after_the_project() {
    assert_eq!(
        rename_plan("demo", true, "\"t/apps/hello_world\""),
        Ok(Rename { from: "apps/hello_world".to_string(), to: "apps/demo".to_string() })
    );
    let plan = rename_plan("demo", true, "").unwrap();
    assert_ne!(plan.from, plan.to);
}

#[test]
fn a_template_without_application_directory_fails() {
    assert_eq!(
        rename_plan("demo", false, "\"t/apps/hello_world\""),
        Err(Failure::AppDirMissing("\"t/apps/hello_world\"".to_string()))
    );
}

#[test]
fn create_template_plans_the_scaffolding() {
    let plan = create_template("demo", "A demo", "rust");
    assert_eq!(plan.kind, TemplateKind::Rust);
    assert_eq!(plan.replacements, replacements("demo", "A demo"));
    assert_eq!(plan.placeholder, "apps/hello_world");
    assert_eq!(plan.app_dir, "apps/demo");
    let plan = create_template("x", "", "assemblyscript");
    assert_eq!(plan.kind, TemplateKind::AssemblyScript);
    assert_eq!(plan.app_dir, "apps/x");
}
