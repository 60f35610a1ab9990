//! Creating a project: what is asked of the user, in which order, and the
//! plan that the answers give.

use crate::failure::{Failure, FailureView};
use crate::text::{appended, copy_of, holds, occurs_at, same_text, starts_with, text_view};
use crate::toolchain::{install_command, install_of, Command, PackageManager};
use vstd::prelude::*;

verus! {

/// What the command line gave.
#[derive(Debug, PartialEq, Eq)]
pub struct CreateArgs {
    pub name: Option<String>,
    pub template: Option<String>,
    pub no_git: bool,
    pub no_install: bool,
    pub dir: Option<String>,
}

/// `CreateArgs` over texts.
pub struct CreateArgsView {
    pub name: Option<Seq<char>>,
    pub template: Option<Seq<char>>,
    pub no_git: bool,
    pub no_install: bool,
    pub dir: Option<Seq<char>>,
}

impl View for CreateArgs {
    type V = CreateArgsView;

    open spec fn view(&self) -> CreateArgsView {
        CreateArgsView {
            name: text_view(self.name),
            template: text_view(self.template),
            no_git: self.no_git,
            no_install: self.no_install,
            dir: text_view(self.dir),
        }
    }
}

/// A question of the create command.
#[derive(Clone, Copy, Debug, PartialEq, Eq, Structural)]
pub enum Prompt {
    /// Which template: a choice among `template_choices`, the first by
    /// default.
    Template,
    /// Where to create the project: a text.
    ProjectDir,
    /// The project's name: a text.
    ProjectName,
    /// The project's description: a text.
    Description,
    /// Whether to initialise a git repository: yes or no, yes by default.
    InitGit,
    /// Whether to install the dependencies: yes or no, yes by default.
    InstallDependencies,
}

/// An answer of the user.
#[derive(Debug, PartialEq, Eq)]
pub enum Reply {
    /// The index of the chosen item.
    Choice(usize),
    Text(String),
    YesNo(bool),
}

/// `Reply` over texts.
pub enum ReplyView {
    Choice(usize),
    Text(Seq<char>),
    YesNo(bool),
}

impl View for Reply {
    type V = ReplyView;

    open spec fn view(&self) -> ReplyView {
        match self {
            Reply::Choice(index) => ReplyView::Choice(*index),
            Reply::Text(text) => ReplyView::Text(text@),
            Reply::YesNo(yes) => ReplyView::YesNo(*yes),
        }
    }
}

/// What is settled so far; a field is `None` until it is.
#[derive(Clone, Debug, PartialEq, Eq)]
pub struct Draft {
    pub template: Option<String>,
    pub project_dir: Option<String>,
    pub project_name: Option<String>,
    pub description: Option<String>,
    pub init_git: Option<bool>,
    pub install_deps: Option<bool>,
}

/// `Draft` over texts.
pub struct DraftView {
    pub template: Option<Seq<char>>,
    pub project_dir: Option<Seq<char>>,
    pub project_name: Option<Seq<char>>,
    pub description: Option<Seq<char>>,
    pub init_git: Option<bool>,
    pub install_deps: Option<bool>,
}

impl View for Draft {
    type V = DraftView;

    open spec fn view(&self) -> DraftView {
        DraftView {
            template: text_view(self.template),
            project_dir: text_view(self.project_dir),
            project_name: text_view(self.project_name),
            description: text_view(self.description),
            init_git: self.init_git,
            install_deps: self.install_deps,
        }
    }
}

/// What the create command does once everything is settled.
#[derive(Debug, PartialEq, Eq)]
pub struct CreatePlan {
    pub template: String,
    pub project_dir: String,
    pub project_name: String,
    pub description: String,
    pub init_git: bool,
    pub install_deps: bool,
}

/// `CreatePlan` over texts.
pub struct CreatePlanView {
    pub template: Seq<char>,
    pub project_dir: Seq<char>,
    pub project_name: Seq<char>,
    pub description: Seq<char>,
    pub init_git: bool,
    pub install_deps: bool,
}

impl View for CreatePlan {
    type V = CreatePlanView;

    open spec fn view(&self) -> CreatePlanView {
        CreatePlanView {
            template: self.template@,
            project_dir: self.project_dir@,
            project_name: self.project_name@,
            description: self.description@,
            init_git: self.init_git,
            install_deps: self.install_deps,
        }
    }
}

/// The templates offered, in the order of the choice.
pub open spec fn choices() -> Seq<Seq<char>> {
    seq!["assemblyscript"@, "rust"@]
}

/// A project directory is accepted where it starts with a dot.
pub open spec fn dir_accepted(input: Seq<char>) -> bool {
    occurs_at(input, "."@, 0)
}

/// A project name is accepted where it is not empty.
pub open spec fn name_accepted(input: Seq<char>) -> bool {
    input.len() > 0
}

impl CreateArgsView {
    /// What the command line settles: the template and the name as given;
    /// the directory as given, else `./` and the name; no git and no install
    /// where they were switched off.
    pub open spec fn draft(self) -> DraftView {
        DraftView {
            template: self.template,
            project_dir: match self.dir {
                Some(dir) => Some(dir),
                None => match self.name {
                    Some(name) => Some("./"@ + name),
                    None => None,
                },
            },
            project_name: self.name,
            description: None,
            init_git: if self.no_git {
                Some(false)
            } else {
                None
            },
            install_deps: if self.no_install {
                Some(false)
            } else {
                None
            },
        }
    }
}

impl DraftView {
    /// The question that is asked next, if one is left. Installing is asked
    /// only for the AssemblyScript template.
    pub open spec fn pending(self) -> Option<Prompt> {
        if self.template is None {
            Some(Prompt::Template)
        } else if self.project_dir is None {
            Some(Prompt::ProjectDir)
        } else if self.project_name is None {
            Some(Prompt::ProjectName)
        } else if self.description is None {
            Some(Prompt::Description)
        } else if self.init_git is None {
            Some(Prompt::InitGit)
        } else if self.install_deps is None && self.template == Some("assemblyscript"@) {
            Some(Prompt::InstallDependencies)
        } else {
            None
        }
    }

    /// The draft after `reply` was given to the pending question. A reply
    /// that does not fit the question, or that the question does not accept,
    /// changes nothing.
    pub open spec fn answered(self, reply: ReplyView) -> DraftView {
        match (self.pending(), reply) {
            (Some(Prompt::Template), ReplyView::Choice(index)) => if index < choices().len() {
                DraftView { template: Some(choices()[index as int]), ..self }
            } else {
                self
            },
            (Some(Prompt::ProjectDir), ReplyView::Text(text)) => if dir_accepted(text) {
                DraftView { project_dir: Some(text), ..self }
            } else {
                self
            },
            (Some(Prompt::ProjectName), ReplyView::Text(text)) => if name_accepted(text) {
                DraftView { project_name: Some(text), ..self }
            } else {
                self
            },
            (Some(Prompt::Description), ReplyView::Text(text)) => DraftView {
                description: Some(text),
                ..self
            },
            (Some(Prompt::InitGit), ReplyView::YesNo(yes)) => DraftView {
                init_git: Some(yes),
                ..self
            },
            (Some(Prompt::InstallDependencies), ReplyView::YesNo(yes)) => DraftView {
                install_deps: Some(yes),
                ..self
            },
            _ => self,
        }
    }

    /// The plan, once no question is left.
    pub open spec fn plan(self) -> Option<CreatePlanView> {
        if self.pending() is None {
            Some(
                CreatePlanView {
                    template: self.template->Some_0,
                    project_dir: self.project_dir->Some_0,
                    project_name: self.project_name->Some_0,
                    description: self.description->Some_0,
                    init_git: self.init_git->Some_0,
                    install_deps: self.install_deps == Some(true),
                },
            )
        } else {
            None
        }
    }

    /// How many fields are not settled.
    pub open spec fn open_fields(self) -> nat {
        let a: nat = if self.template is None { 1 } else { 0 };
        let b: nat = if self.project_dir is None { 1 } else { 0 };
        let c: nat = if self.project_name is None { 1 } else { 0 };
        let d: nat = if self.description is None { 1 } else { 0 };
        let e: nat = if self.init_git is None { 1 } else { 0 };
        let f: nat = if self.install_deps is None { 1 } else { 0 };
        a + b + c + d + e + f
    }
}

/// The reply is of the kind that the question takes and is one that it
/// accepts.
pub open spec fn fits(prompt: Prompt, reply: ReplyView) -> bool {
    match (prompt, reply) {
        (Prompt::Template, ReplyView::Choice(index)) => index < choices().len(),
        (Prompt::ProjectDir, ReplyView::Text(text)) => dir_accepted(text),
        (Prompt::ProjectName, ReplyView::Text(text)) => name_accepted(text),
        (Prompt::Description, ReplyView::Text(_)) => true,
        (Prompt::InitGit, ReplyView::YesNo(_)) => true,
        (Prompt::InstallDependencies, ReplyView::YesNo(_)) => true,
        _ => false,
    }
}

/// A fitting reply settles the pending question: it is not asked again and
/// one field less is open, of six at most. Any other reply changes nothing.
pub proof fn lemma_reply_settles_question(draft: DraftView, reply: ReplyView)
    requires
        draft.pending() is Some,
    ensures
        fits(draft.pending()->Some_0, reply) ==> draft.answered(reply).pending() != draft.pending()
            && draft.answered(reply).open_fields() + 1 == draft.open_fields(),
        !fits(draft.pending()->Some_0, reply) ==> draft.answered(reply) == draft,
        0 < draft.open_fields() <= 6,
{
}

/// Nothing is asked about what the command line gave: with a name, a
/// template and both switches only the description is asked.
pub proof fn lemma_full_command_line_asks_description_only(args: CreateArgsView)
    requires
        args.name is Some,
        args.template is Some,
        args.no_git,
        args.no_install,
    ensures
        args.draft().pending() == Some(Prompt::Description),
        forall|text: Seq<char>|
            (#[trigger] args.draft().answered(ReplyView::Text(text))).pending() is None,
{
}

/// The project is created unless the working directory already holds a
/// manifest.
pub fn guard_new_project(manifest_exists: bool) -> (out: Result<(), Failure>)
    ensures
        match out {
            Ok(_) => !manifest_exists,
            Err(failure) => manifest_exists && failure@ == FailureView::AlreadyInProject,
        },
{
    if manifest_exists {
        Err(Failure::AlreadyInProject)
    } else {
        Ok(())
    }
}

/// Starts the create command: refuses where the working directory already
/// holds a manifest, else gives what the command line settles.
pub fn execute(
    name: Option<String>,
    template_type: Option<String>,
    no_git: bool,
    no_install: bool,
    dir: Option<String>,
    manifest_exists: bool,
) -> (out: Result<Draft, Failure>)
    ensures
        match out {
            Ok(draft) => !manifest_exists && draft@ == (CreateArgsView {
                name: text_view(name),
                template: text_view(template_type),
                no_git,
                no_install,
                dir: text_view(dir),
            }).draft(),
            Err(failure) => manifest_exists && failure@ == FailureView::AlreadyInProject,
        },
{
    match guard_new_project(manifest_exists) {
        Ok(_) => {
            let args = CreateArgs { name, template: template_type, no_git, no_install, dir };
            Ok(args.draft())
        },
        Err(failure) => Err(failure),
    }
}

/// The templates offered, in the order of the choice.
pub fn template_choices() -> (out: Vec<&'static str>)
    ensures
        out@.len() == 2,
        out@[0]@ == "assemblyscript"@,
        out@[1]@ == "rust"@,
{
    let mut out: Vec<&'static str> = Vec::new();
    out.push("assemblyscript");
    out.push("rust");
    out
}

/// Whether a project directory is accepted: it starts with a dot.
pub fn accepts_dir(input: &str) -> (yes: bool)
    ensures
        yes == dir_accepted(input@),
{
    starts_with(input, ".")
}

/// Whether a project name is accepted: it is not empty.
pub fn accepts_name(input: &str) -> (yes: bool)
    ensures
        yes == name_accepted(input@),
{
    !input.is_empty()
}

impl Prompt {
    /// The question as it is put to the user.
    pub fn question(&self) -> (out: &'static str)
        ensures
            match self {
                Prompt::Template => out@ == "What language would you like to use?"@,
                Prompt::ProjectDir => out@ == "Where should we create your project?"@,
                Prompt::ProjectName => out@ == "What is the name of your honest application?"@,
                Prompt::Description => out@ == "How would you describe your honest application?"@,
                Prompt::InitGit => out@ == "Initialize a git repository?"@,
                Prompt::InstallDependencies => out@ == "Install dependencies?"@,
            },
    {
        match self {
            Prompt::Template => "What language would you like to use?",
            Prompt::ProjectDir => "Where should we create your project?",
            Prompt::ProjectName => "What is the name of your honest application?",
            Prompt::Description => "How would you describe your honest application?",
            Prompt::InitGit => "Initialize a git repository?",
            Prompt::InstallDependencies => "Install dependencies?",
        }
    }

    /// The text offered as the default answer; none for a choice and for a
    /// yes-or-no question.
    pub fn default_text(&self) -> (out: Option<&'static str>)
        ensures
            match self {
                Prompt::ProjectDir => out matches Some(text) && text@ == "./my-honest-app"@,
                Prompt::ProjectName => out matches Some(text) && text@ == "hello-world"@,
                Prompt::Description => out matches Some(text) && text@
                    == "This is an honest application for the Klave Network"@,
                _ => out is None,
            },
    {
        match self {
            Prompt::ProjectDir => Some("./my-honest-app"),
            Prompt::ProjectName => Some("hello-world"),
            Prompt::Description => Some("This is an honest application for the Klave Network"),
            _ => None,
        }
    }

    /// Why an answer to this question is refused; `None` where it is
    /// accepted.
    pub fn refusal(&self, input: &str) -> (out: Option<&'static str>)
        ensures
            match self {
                Prompt::ProjectDir => if dir_accepted(input@) {
                    out is None
                } else {
                    out matches Some(text) && text@ == "Please enter a relative path."@
                },
                Prompt::ProjectName => if name_accepted(input@) {
                    out is None
                } else {
                    out matches Some(text) && text@ == "Project name is required"@
                },
                _ => out is None,
            },
    {
        match self {
            Prompt::ProjectDir => if accepts_dir(input) {
                None
            } else {
                Some("Please enter a relative path.")
            },
            Prompt::ProjectName => if accepts_name(input) {
                None
            } else {
                Some("Project name is required")
            },
            _ => None,
        }
    }
}

impl CreateArgs {
    /// What the command line settles.
    pub fn draft(&self) -> (out: Draft)
        ensures
            out@ == self@.draft(),
    {
        let project_dir = match &self.dir {
            Some(dir) => Some(dir.clone()),
            None => match &self.name {
                Some(name) => Some(appended("./", name.as_str())),
                None => None,
            },
        };
        Draft {
            template: copy_of(&self.template),
            project_dir,
            project_name: copy_of(&self.name),
            description: None,
            init_git: if self.no_git {
                Some(false)
            } else {
                None
            },
            install_deps: if self.no_install {
                Some(false)
            } else {
                None
            },
        }
    }
}

impl Draft {
    /// The question that is asked next, if one is left.
    pub fn pending(&self) -> (out: Option<Prompt>)
        ensures
            out == self@.pending(),
    {
        if self.template.is_none() {
            Some(Prompt::Template)
        } else if self.project_dir.is_none() {
            Some(Prompt::ProjectDir)
        } else if self.project_name.is_none() {
            Some(Prompt::ProjectName)
        } else if self.description.is_none() {
            Some(Prompt::Description)
        } else if self.init_git.is_none() {
            Some(Prompt::InitGit)
        } else if self.install_deps.is_none() && holds(&self.template, "assemblyscript") {
            Some(Prompt::InstallDependencies)
        } else {
            None
        }
    }

    /// Takes the user's reply to the pending question.
    pub fn answered(self, reply: Reply) -> (out: Draft)
        ensures
            out@ == self@.answered(reply@),
    {
        let pending = self.pending();
        match (pending, reply) {
            (Some(Prompt::Template), Reply::Choice(index)) => {
                if index == 0 {
                    Draft { template: Some("assemblyscript".to_owned()), ..self }
                } else if index == 1 {
                    Draft { template: Some("rust".to_owned()), ..self }
                } else {
                    self
                }
            },
            (Some(Prompt::ProjectDir), Reply::Text(text)) => if accepts_dir(text.as_str()) {
                Draft { project_dir: Some(text), ..self }
            } else {
                self
            },
            (Some(Prompt::ProjectName), Reply::Text(text)) => if accepts_name(text.as_str()) {
                Draft { project_name: Some(text), ..self }
            } else {
                self
            },
            (Some(Prompt::Description), Reply::Text(text)) => Draft {
                description: Some(text),
                ..self
            },
            (Some(Prompt::InitGit), Reply::YesNo(yes)) => Draft { init_git: Some(yes), ..self },
            (Some(Prompt::InstallDependencies), Reply::YesNo(yes)) => Draft {
                install_deps: Some(yes),
                ..self
            },
            _ => self,
        }
    }

    /// The plan, once no question is left.
    pub fn plan(self) -> (out: Option<CreatePlan>)
        ensures
            match out {
                Some(plan) => self@.plan() == Some(plan@),
                None => self@.plan() is None,
            },
    {
        if self.pending().is_some() {
            return None;
        }
        let install_deps = match self.install_deps {
            Some(yes) => yes,
            None => false,
        };
        match (self.template, self.project_dir, self.project_name, self.description, self.init_git) {
            (Some(template), Some(project_dir), Some(project_name), Some(description), Some(
                init_git,
            )) => Some(
                CreatePlan {
                    template,
                    project_dir,
                    project_name,
                    description,
                    init_git,
                    install_deps,
                },
            ),
            _ => None,
        }
    }
}

impl CreatePlanView {
    /// The user is told that the dependencies were left out: they were not
    /// installed and the template is the AssemblyScript one.
    pub open spec fn notes_skipped_install(self) -> bool {
        !self.install_deps && self.template == "assemblyscript"@
    }
}

impl CreatePlan {
    /// The command that installs the new project's dependencies.
    pub fn install(&self) -> (command: Command)
        ensures
            command@ == install_of(Some(PackageManager::Npm)),
    {
        install_command(Some(PackageManager::Npm))
    }

    /// Whether the user is told that the dependencies were left out.
    pub fn notes_skipped_install(&self) -> (yes: bool)
        ensures
            yes == self@.notes_skipped_install(),
    {
        !self.install_deps && same_text(self.template.as_str(), "assemblyscript")
    }
}

} // verus!
