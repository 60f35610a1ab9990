//! The outside tools a build needs: which kind of application a directory
//! holds, which tools are missing, and the commands that are run.

use crate::text::{appended, views_of};
use vstd::prelude::*;

verus! {

/// The language of an application, told by the marker files in its root
/// directory.
#[derive(Clone, Copy, Debug, PartialEq, Eq, Structural)]
pub enum AppKind {
    /// A `Cargo.toml` is there.
    Rust,
    /// No `Cargo.toml`, but a `tsconfig.json`.
    AssemblyScript,
    /// Neither marker is there.
    Unknown,
}

/// The package manager of a project, told by its lock file.
#[derive(Clone, Copy, Debug, PartialEq, Eq, Structural)]
pub enum PackageManager {
    Npm,
    Yarn,
    Pnpm,
}

/// Which of the tools were found on the search path.
#[derive(Clone, Copy, Debug, PartialEq, Eq, Structural)]
pub struct Tools {
    pub node: bool,
    pub npm: bool,
    pub cargo: bool,
    pub cargo_component: bool,
}

/// A tool that a build needs and that was not found.
#[derive(Clone, Copy, Debug, PartialEq, Eq, Structural)]
pub enum MissingTool {
    RustToolchain,
    CargoComponent,
    Node,
    Npm,
}

/// What was found at an application's root directory.
#[derive(Clone, Copy, Debug, PartialEq, Eq, Structural)]
pub struct Probe {
    pub dir_exists: bool,
    pub has_cargo_toml: bool,
    pub has_tsconfig: bool,
}

/// Where a command is run.
#[derive(Clone, Copy, Debug, PartialEq, Eq, Structural)]
pub enum WorkDir {
    /// The directory that holds the manifest.
    Project,
    /// The root directory of the application that is built.
    Application,
}

/// A program to start, with its arguments.
#[derive(Clone, Debug, PartialEq, Eq)]
pub struct Command {
    pub program: String,
    pub args: Vec<String>,
}

/// `Command` over texts.
pub struct CommandView {
    pub program: Seq<char>,
    pub args: Seq<Seq<char>>,
}

impl View for Command {
    type V = CommandView;

    open spec fn view(&self) -> CommandView {
        CommandView { program: self.program@, args: views_of(self.args@) }
    }
}

/// The kind that the two markers tell.
pub open spec fn kind_of_markers(has_cargo_toml: bool, has_tsconfig: bool) -> AppKind {
    if has_cargo_toml {
        AppKind::Rust
    } else if has_tsconfig {
        AppKind::AssemblyScript
    } else {
        AppKind::Unknown
    }
}

impl Probe {
    /// The kind of the application: `Unknown` where the directory is not
    /// there, else what the markers tell.
    pub open spec fn kind(self) -> AppKind {
        if self.dir_exists {
            kind_of_markers(self.has_cargo_toml, self.has_tsconfig)
        } else {
            AppKind::Unknown
        }
    }
}

/// Some application has a `Cargo.toml`.
pub open spec fn any_cargo_toml(probes: Seq<Probe>) -> bool {
    exists|i: int| 0 <= i < probes.len() && (#[trigger] probes[i]).has_cargo_toml
}

/// Some application has a `tsconfig.json`.
pub open spec fn any_tsconfig(probes: Seq<Probe>) -> bool {
    exists|i: int| 0 <= i < probes.len() && (#[trigger] probes[i]).has_tsconfig
}

/// `item` alone where `wanted` holds, else nothing.
pub open spec fn only_if(wanted: bool, item: MissingTool) -> Seq<MissingTool> {
    if wanted {
        seq![item]
    } else {
        Seq::empty()
    }
}

/// The tools that are needed and not there, in the order in which they are
/// reported.
pub open spec fn missing(needs_rust: bool, needs_assemblyscript: bool, tools: Tools) -> Seq<
    MissingTool,
> {
    only_if(needs_rust && !tools.cargo, MissingTool::RustToolchain) + only_if(
        needs_rust && !tools.cargo_component,
        MissingTool::CargoComponent,
    ) + only_if(needs_assemblyscript && !tools.node, MissingTool::Node) + only_if(
        needs_assemblyscript && !tools.npm,
        MissingTool::Npm,
    )
}

/// The package manager that the lock files tell: yarn before pnpm, npm where
/// neither has a lock file.
pub open spec fn manager_of_locks(has_yarn_lock: bool, has_pnpm_lock: bool) -> PackageManager {
    if has_yarn_lock {
        PackageManager::Yarn
    } else if has_pnpm_lock {
        PackageManager::Pnpm
    } else {
        PackageManager::Npm
    }
}

impl PackageManager {
    /// The program's name.
    pub open spec fn program(self) -> Seq<char> {
        match self {
            PackageManager::Npm => "npm"@,
            PackageManager::Yarn => "yarn"@,
            PackageManager::Pnpm => "pnpm"@,
        }
    }

    /// The program's name.
    pub fn name(&self) -> (out: &'static str)
        ensures
            out@ == self.program(),
    {
        match self {
            PackageManager::Npm => "npm",
            PackageManager::Yarn => "yarn",
            PackageManager::Pnpm => "pnpm",
        }
    }
}

/// The command that installs a project's dependencies. Without a known
/// package manager npm is used.
pub open spec fn install_of(manager: Option<PackageManager>) -> CommandView {
    match manager {
        Some(PackageManager::Yarn) => CommandView { program: "yarn"@, args: seq!["install"@] },
        Some(PackageManager::Pnpm) => CommandView { program: "pnpm"@, args: seq!["install"@] },
        _ => CommandView { program: "npm"@, args: seq!["install"@, "--legacy-peer-deps"@] },
    }
}

/// The command that builds an application of the given kind and label.
/// Without a known package manager an AssemblyScript build gets no
/// application argument. There is none for an unknown kind.
pub open spec fn build_of(kind: AppKind, manager: Option<PackageManager>, label: Seq<char>)
    -> Option<CommandView> {
    match kind {
        AppKind::Rust => Some(
            CommandView {
                program: "cargo"@,
                args: seq![
                    "component"@,
                    "build"@,
                    "--target"@,
                    "wasm32-unknown-unknown"@,
                    "--release"@,
                ],
            },
        ),
        AppKind::AssemblyScript => Some(
            match manager {
                Some(PackageManager::Npm) => CommandView {
                    program: "npm"@,
                    args: seq!["run"@, "build"@, "--"@, "--app"@, label],
                },
                Some(PackageManager::Yarn) => CommandView {
                    program: "yarn"@,
                    args: seq!["build"@, "--app"@, label],
                },
                Some(PackageManager::Pnpm) => CommandView {
                    program: "pnpm"@,
                    args: seq!["build"@, "--app"@, label],
                },
                None => CommandView { program: "npm"@, args: seq!["run"@, "build"@] },
            },
        ),
        AppKind::Unknown => None,
    }
}

/// The directory in which an application of the given kind is built.
pub open spec fn build_dir_of(kind: AppKind) -> WorkDir {
    match kind {
        AppKind::Rust => WorkDir::Application,
        _ => WorkDir::Project,
    }
}

/// The shell command that looks a program up on the search path.
pub open spec fn lookup_of(binary: Seq<char>, windows: bool) -> CommandView {
    if windows {
        CommandView { program: "cmd"@, args: seq!["/C"@, "where "@ + binary] }
    } else {
        CommandView { program: "sh"@, args: seq!["-c"@, "which "@ + binary] }
    }
}

/// Tells the kind of an application from the markers in its root directory.
pub fn detect_kind(has_cargo_toml: bool, has_tsconfig: bool) -> (kind: AppKind)
    ensures
        kind == kind_of_markers(has_cargo_toml, has_tsconfig),
{
    if has_cargo_toml {
        AppKind::Rust
    } else if has_tsconfig {
        AppKind::AssemblyScript
    } else {
        AppKind::Unknown
    }
}

impl AppKind {
    /// The name under which the kind is reported.
    pub open spec fn label(self) -> Seq<char> {
        match self {
            AppKind::Rust => "rust"@,
            AppKind::AssemblyScript => "assemblyscript"@,
            AppKind::Unknown => "unknown"@,
        }
    }

    /// The name under which the kind is reported.
    pub fn name(&self) -> (out: &'static str)
        ensures
            out@ == self.label(),
    {
        match self {
            AppKind::Rust => "rust",
            AppKind::AssemblyScript => "assemblyscript",
            AppKind::Unknown => "unknown",
        }
    }

    /// The file whose presence tells the kind; none for `Unknown`.
    pub fn marker(&self) -> (out: Option<&'static str>)
        ensures
            match self {
                AppKind::Rust => out matches Some(m) && m@ == "Cargo.toml"@,
                AppKind::AssemblyScript => out matches Some(m) && m@ == "tsconfig.json"@,
                AppKind::Unknown => out is None,
            },
    {
        match self {
            AppKind::Rust => Some("Cargo.toml"),
            AppKind::AssemblyScript => Some("tsconfig.json"),
            AppKind::Unknown => None,
        }
    }
}

impl Probe {
    /// The kind of the application that the probe found.
    pub fn app_kind(&self) -> (kind: AppKind)
        ensures
            kind == self.kind(),
    {
        if self.dir_exists {
            detect_kind(self.has_cargo_toml, self.has_tsconfig)
        } else {
            AppKind::Unknown
        }
    }
}

impl Tools {
    /// Every tool taken to be there, as when the checks are skipped.
    pub fn assumed() -> (tools: Tools)
        ensures
            tools == (Tools { node: true, npm: true, cargo: true, cargo_component: true }),
    {
        Tools { node: true, npm: true, cargo: true, cargo_component: true }
    }

    /// The tools as the lookups found them. The component plugin is looked
    /// up only where cargo was found: `cargo_component` is `None` where it
    /// was not looked up, and the plugin then counts as missing.
    pub fn probed(node: bool, npm: bool, cargo: bool, cargo_component: Option<bool>) -> (tools:
        Tools)
        ensures
            tools == (Tools {
                node,
                npm,
                cargo,
                cargo_component: cargo && cargo_component == Some(true),
            }),
    {
        let plugin = match cargo_component {
            Some(found) => cargo && found,
            None => false,
        };
        Tools { node, npm, cargo, cargo_component: plugin }
    }
}

impl MissingTool {
    /// The line shown for the tool, with how to get it.
    pub open spec fn advice(self) -> Seq<char> {
        match self {
            MissingTool::RustToolchain => "Rust toolchain (install from https://rustup.rs/)"@,
            MissingTool::CargoComponent =>
                "cargo-component (install with: cargo install cargo-component)"@,
            MissingTool::Node => "Node.js (install from https://nodejs.org/)"@,
            MissingTool::Npm => "npm (comes with Node.js installation)"@,
        }
    }

    /// The line shown for the tool, with how to get it.
    pub fn description(&self) -> (out: &'static str)
        ensures
            out@ == self.advice(),
    {
        match self {
            MissingTool::RustToolchain => "Rust toolchain (install from https://rustup.rs/)",
            MissingTool::CargoComponent =>
                "cargo-component (install with: cargo install cargo-component)",
            MissingTool::Node => "Node.js (install from https://nodejs.org/)",
            MissingTool::Npm => "npm (comes with Node.js installation)",
        }
    }
}

/// Whether some application has a `Cargo.toml`.
pub fn needs_rust(probes: &Vec<Probe>) -> (yes: bool)
    ensures
        yes == any_cargo_toml(probes@),
{
    let mut i: usize = 0;
    while i < probes.len()
        invariant
            i <= probes.len(),
            forall|j: int| 0 <= j < i ==> !(#[trigger] probes@[j]).has_cargo_toml,
        decreases probes.len() - i,
    {
        if probes[i].has_cargo_toml {
            return true;
        }
        i += 1;
    }
    false
}

/// Whether some application has a `tsconfig.json`.
pub fn needs_assemblyscript(probes: &Vec<Probe>) -> (yes: bool)
    ensures
        yes == any_tsconfig(probes@),
{
    let mut i: usize = 0;
    while i < probes.len()
        invariant
            i <= probes.len(),
            forall|j: int| 0 <= j < i ==> !(#[trigger] probes@[j]).has_tsconfig,
        decreases probes.len() - i,
    {
        if probes[i].has_tsconfig {
            return true;
        }
        i += 1;
    }
    false
}

/// The tools that the applications need and that were not found, in the
/// order in which they are reported.
pub fn missing_tools(needs_rust: bool, needs_assemblyscript: bool, tools: Tools) -> (out: Vec<
    MissingTool,
>)
    ensures
        out@ == missing(needs_rust, needs_assemblyscript, tools),
{
    let mut out: Vec<MissingTool> = Vec::new();
    if needs_rust && !tools.cargo {
        out.push(MissingTool::RustToolchain);
    }
    if needs_rust && !tools.cargo_component {
        out.push(MissingTool::CargoComponent);
    }
    if needs_assemblyscript && !tools.node {
        out.push(MissingTool::Node);
    }
    if needs_assemblyscript && !tools.npm {
        out.push(MissingTool::Npm);
    }
    proof {
        assert(out@ =~= missing(needs_rust, needs_assemblyscript, tools));
    }
    out
}

/// Tells the package manager from the lock files in the project directory:
/// `yarn.lock` before `pnpm-lock.yaml`; npm with a `package-lock.json` and
/// with no lock file at all.
pub fn resolve_package_manager(has_yarn_lock: bool, has_pnpm_lock: bool, has_package_lock: bool)
    -> (manager: PackageManager)
    ensures
        manager == manager_of_locks(has_yarn_lock, has_pnpm_lock),
{
    if has_yarn_lock {
        PackageManager::Yarn
    } else if has_pnpm_lock {
        PackageManager::Pnpm
    } else if has_package_lock {
        PackageManager::Npm
    } else {
        PackageManager::Npm
    }
}

/// Adds `word` to `words`.
fn push_word(words: &mut Vec<String>, word: &str)
    ensures
        views_of(final(words)@) == views_of(old(words)@).push(word@),
{
    let ghost before = words@;
    let owned = word.to_owned();
    words.push(owned);
    proof {
        assert(views_of(before).len() == before.len());
        assert(views_of(words@) =~= views_of(before).push(word@));
    }
}

/// No words.
fn no_words() -> (words: Vec<String>)
    ensures
        views_of(words@) == Seq::<Seq<char>>::empty(),
{
    let words: Vec<String> = Vec::new();
    proof {
        assert(views_of(words@) =~= Seq::<Seq<char>>::empty());
    }
    words
}

/// A command made of a program's name and its arguments.
fn command_of(program: &str, args: Vec<String>) -> (command: Command)
    ensures
        command@.program == program@,
        command@.args == views_of(args@),
{
    Command { program: program.to_owned(), args }
}

/// The command that installs the project's dependencies.
pub fn install_command(manager: Option<PackageManager>) -> (command: Command)
    ensures
        command@ == install_of(manager),
{
    let mut args = no_words();
    push_word(&mut args, "install");
    let command = match manager {
        Some(PackageManager::Yarn) => command_of("yarn", args),
        Some(PackageManager::Pnpm) => command_of("pnpm", args),
        _ => {
            push_word(&mut args, "--legacy-peer-deps");
            command_of("npm", args)
        },
    };
    proof {
        assert(command@.args =~= install_of(manager).args);
    }
    command
}

/// The command that builds an application, if its kind is known.
pub fn build_command(kind: AppKind, manager: Option<PackageManager>, label: &str) -> (command:
    Option<Command>)
    ensures
        match command {
            Some(c) => build_of(kind, manager, label@) == Some(c@),
            None => build_of(kind, manager, label@) is None,
        },
{
    let mut args = no_words();
    let command = match kind {
        AppKind::Rust => {
            push_word(&mut args, "component");
            push_word(&mut args, "build");
            push_word(&mut args, "--target");
            push_word(&mut args, "wasm32-unknown-unknown");
            push_word(&mut args, "--release");
            command_of("cargo", args)
        },
        AppKind::AssemblyScript => match manager {
            Some(PackageManager::Npm) => {
                push_word(&mut args, "run");
                push_word(&mut args, "build");
                push_word(&mut args, "--");
                push_word(&mut args, "--app");
                push_word(&mut args, label);
                command_of("npm", args)
            },
            Some(PackageManager::Yarn) => {
                push_word(&mut args, "build");
                push_word(&mut args, "--app");
                push_word(&mut args, label);
                command_of("yarn", args)
            },
            Some(PackageManager::Pnpm) => {
                push_word(&mut args, "build");
                push_word(&mut args, "--app");
                push_word(&mut args, label);
                command_of("pnpm", args)
            },
            None => {
                push_word(&mut args, "run");
                push_word(&mut args, "build");
                command_of("npm", args)
            },
        },
        AppKind::Unknown => { return None; },
    };
    proof {
        assert(command@.args =~= build_of(kind, manager, label@)->Some_0.args);
    }
    Some(command)
}

/// The directory in which an application of the given kind is built.
pub fn build_dir(kind: AppKind) -> (dir: WorkDir)
    ensures
        dir == build_dir_of(kind),
{
    match kind {
        AppKind::Rust => WorkDir::Application,
        _ => WorkDir::Project,
    }
}

/// The shell command that tells whether `binary` is on the search path: it
/// succeeds exactly where the program is found.
pub fn lookup_command(binary: &str, windows: bool) -> (command: Command)
    ensures
        command@ == lookup_of(binary@, windows),
{
    let mut args = no_words();
    let command = if windows {
        push_word(&mut args, "/C");
        let line = appended("where ", binary);
        push_word(&mut args, line.as_str());
        command_of("cmd", args)
    } else {
        push_word(&mut args, "-c");
        let line = appended("which ", binary);
        push_word(&mut args, line.as_str());
        command_of("sh", args)
    };
    proof {
        assert(command@.args =~= lookup_of(binary@, windows).args);
    }
    command
}

} // verus!
