use klave::create::{
    accepts_dir, accepts_name, execute, guard_new_project, template_choices, CreateArgs,
    CreatePlan, Draft, Prompt, Reply,
};
use klave::failure::Failure;
use klave::toolchain::Command;

fn args(name: Option<&str>, template: Option<&str>, no_git: bool, no_install: bool, dir: Option<&str>) -> CreateArgs {
    CreateArgs {
        name: name.map(|s| s.to_string()),
        template: template.map(|s| s.to_string()),
        no_git,
        no_install,
        dir: dir.map(|s| s.to_string()),
    }
}

fn text(s: &str) -> Reply {
    Reply::Text(s.to_string())
}

#[test]
fn a_project_is_not_created_inside_another() {
    assert_eq!(guard_new_project(false), Ok(()));
    assert_eq!(guard_new_project(true), Err(Failure::AlreadyInProject));
}

#[test]
fn the_choices_are_the_two_templates() {
    assert_eq!(template_choices(), vec!["assemblyscript", "rust"]);
}

#[test]
fn a_directory_must_start_with_a_dot_and_a_name_must_not_be_empty() {
    assert!(accepts_dir("./my-honest-app"));
    assert!(accepts_dir("."));
    assert!(accepts_dir("../x"));
    assert!(accepts_dir(".hidden"));
    assert!(!accepts_dir(""));
    assert!(!accepts_dir("/abs"));
    assert!(!accepts_dir("x/./y"));
    assert!(accepts_name("a"));
    assert!(accepts_name(" "));
    assert!(!accepts_name(""));
    assert_eq!(Prompt::ProjectDir.refusal("abs"), Some("Please enter a relative path."));
    assert_eq!(Prompt::ProjectDir.refusal("./rel"), None);
    assert_eq!(Prompt::ProjectName.refusal(""), Some("Project name is required"));
    assert_eq!(Prompt::ProjectName.refusal("x"), None);
    assert_eq!(Prompt::Description.refusal(""), None);
}

#[test]
fn prompts_have_questions_and_defaults() {
    assert_eq!(Prompt::Template.question(), "What language would you like to use?");
    assert_eq!(Prompt::ProjectDir.question(), "Where should we create your project?");
    assert_eq!(Prompt::ProjectName.question(), "What is the name of your honest application?");
    assert_eq!(Prompt::Description.question(), "How would you describe your honest application?");
    assert_eq!(Prompt::InitGit.question(), "Initialize a git repository?");
    assert_eq!(Prompt::InstallDependencies.question(), "Install dependencies?");
    assert_eq!(Prompt::Template.default_text(), None);
    assert_eq!(Prompt::ProjectDir.default_text(), Some("./my-honest-app"));
    assert_eq!(Prompt::ProjectName.default_text(), Some("hello-world"));
    assert_eq!(
        Prompt::Description.default_text(),
        Some("This is an honest application for the Klave Network")
    );
    assert_eq!(Prompt::InitGit.default_text(), None);
    assert_eq!(Prompt::InstallDependencies.default_text(), None);
}

#[test]
fn the_command_line_settles_what_it_gives() {
    assert_eq!(
        args(Some("demo"), Some("rust"), true, true, None).draft(),
        Draft {
            template: Some("rust".to_string()),
            project_dir: Some("./demo".to_string()),
            project_name: Some("demo".to_string()),
            description: None,
            init_git: Some(false),
            install_deps: Some(false),
        }
    );
    assert_eq!(
        args(Some("demo"), None, false, false, Some("elsewhere")).draft(),
        Draft {
            template: None,
            project_dir: Some("elsewhere".to_string()),
            project_name: Some("demo".to_string()),
            description: None,
            init_git: None,
            install_deps: None,
        }
    );
    assert_eq!(
        args(None, None, false, false, None).draft(),
        Draft {
            template: None,
            project_dir: None,
            project_name: None,
            description: None,
            init_git: None,
            install_deps: None,
        }
    );
}

#[test]
fn everything_is_asked_in_order_where_nothing_is_given() {
    let d = args(None, None, false, false, None).draft();
    assert_eq!(d.pending(), Some(Prompt::Template));
    let d = d.answered(Reply::Choice(0));
    assert_eq!(d.pending(), Some(Prompt::ProjectDir));
    let d = d.answered(text("./here"));
    assert_eq!(d.pending(), Some(Prompt::ProjectName));
    let d = d.answered(text("demo"));
    assert_eq!(d.pending(), Some(Prompt::Description));
    let d = d.answered(text("A demo"));
    assert_eq!(d.pending(), Some(Prompt::InitGit));
    let d = d.answered(Reply::YesNo(true));
    assert_eq!(d.pending(), Some(Prompt::InstallDependencies));
    let d = d.answered(Reply::YesNo(true));
    assert_eq!(d.pending(), None);
    assert_eq!(
        d.plan(),
        Some(CreatePlan {
            template: "assemblyscript".to_string(),
            project_dir: "./here".to_string(),
            project_name: "demo".to_string(),
            description: "A demo".to_string(),
            init_git: true,
            install_deps: true,
        })
    );
}

#[test]
fn installing_is_not_asked_for_the_rust_template() {
    let d = args(Some("demo"), None, false, false, None).draft();
    let d = d.answered(Reply::Choice(1));
    assert_eq!(d.pending(), Some(Prompt::Description));
    let d = d.answered(text(""));
    assert_eq!(d.pending(), Some(Prompt::InitGit));
    let d = d.answered(Reply::YesNo(false));
    assert_eq!(d.pending(), None);
    assert_eq!(
        d.plan(),
        Some(CreatePlan {
            template: "rust".to_string(),
            project_dir: "./demo".to_string(),
            project_name: "demo".to_string(),
            description: "".to_string(),
            init_git: false,
            install_deps: false,
        })
    );
}

#[test]
fn a_full_command_line_leaves_the_description_only() {
    let d = args(Some("demo"), Some("assemblyscript"), true, true, Some("./d")).draft();
    assert_eq!(d.pending(), Some(Prompt::Description));
    assert_eq!(d.clone().plan(), None);
    let d = d.answered(text("about"));
    assert_eq!(d.pending(), None);
    let plan = d.plan().unwrap();
    assert!(!plan.init_git);
    assert!(!plan.install_deps);
    assert!(plan.notes_skipped_install());
    assert_eq!(plan.project_dir, "./d");
}

#[test]
fn a_reply_that_does_not_fit_changes_nothing() {
    let d = args(None, None, false, false, None).draft();
    assert_eq!(d.clone().answered(Reply::Choice(2)), d);
    assert_eq!(d.clone().answered(text("rust")), d);
    assert_eq!(d.clone().answered(Reply::YesNo(true)), d);
    let d = d.answered(Reply::Choice(1));
    assert_eq!(d.clone().answered(text("/absolute")), d);
    assert_eq!(d.clone().answered(Reply::Choice(0)), d);
    let d = d.answered(text("."));
    assert_eq!(d.clone().answered(text("")), d);
    let d = d.answered(text("n")).answered(text("d")).answered(Reply::YesNo(true));
    assert_eq!(d.pending(), None);
    assert_eq!(d.clone().answered(Reply::YesNo(false)), d);
    assert_eq!(d.clone().answered(text("more")), d);
}

#[test]
fn an_unknown_template_is_kept_as_given() {
    let d = args(Some("demo"), Some("other"), false, false, None).draft();
    let d = d.answered(text("about")).answered(Reply::YesNo(true));
    assert_eq!(d.pending(), None);
    let plan = d.plan().unwrap();
    assert_eq!(plan.template, "other");
    assert!(!plan.install_deps);
    assert!(!plan.notes_skipped_install());
}

#[test]
fn the_new_project_installs_with_npm() {
    let d = args(Some("demo"), Some("assemblyscript"), true, false, None).draft();
    let d = d.answered(text("about")).answered(Reply::YesNo(true));
    let plan = d.plan().unwrap();
    assert!(plan.install_deps);
    assert!(!plan.notes_skipped_install());
    assert_eq!(
        plan.install(),
        Command {
            program: "npm".to_string(),
            args: vec!["install".to_string(), "--legacy-peer-deps".to_string()],
        }
    );
}

#[test]
fn execute_starts_from_the_command_line_unless_inside_a_project() {
    let started = execute(Some("demo".to_string()), None, true, false, None, false);
    assert_eq!(started, Ok(args(Some("demo"), None, true, false, None).draft()));
    assert_eq!(started.unwrap().pending(), Some(Prompt::Template));
    assert_eq!(
        execute(Some("demo".to_string()), None, true, false, None, true),
        Err(Failure::AlreadyInProject)
    );
}
