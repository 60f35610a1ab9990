use klave::toolchain::{
    build_command, build_dir, detect_kind, install_command, lookup_command, missing_tools,
    needs_assemblyscript, needs_rust, resolve_package_manager, AppKind, Command, MissingTool,
    PackageManager, Probe, Tools, WorkDir,
};

fn command(program: &str, args: &[&str]) -> Command {
    Command { program: program.to_string(), args: args.iter().map(|a| a.to_string()).collect() }
}

fn tools(node: bool, npm: bool, cargo: bool, cargo_component: bool) -> Tools {
    Tools { node, npm, cargo, cargo_component }
}

#[test]
fn detect_kind_goes_by_the_markers() {
    assert_eq!(detect_kind(true, false), AppKind::Rust);
    assert_eq!(detect_kind(true, true), AppKind::Rust);
    assert_eq!(detect_kind(false, true), AppKind::AssemblyScript);
    assert_eq!(detect_kind(false, false), AppKind::Unknown);
}

#[test]
fn a_directory_without_markers_is_of_unknown_kind() {
    let probe = Probe { dir_exists: true, has_cargo_toml: false, has_tsconfig: false };
    assert_eq!(probe.app_kind(), AppKind::Unknown);
    let gone = Probe { dir_exists: false, has_cargo_toml: true, has_tsconfig: true };
    assert_eq!(gone.app_kind(), AppKind::Unknown);
    let rust = Probe { dir_exists: true, has_cargo_toml: true, has_tsconfig: false };
    assert_eq!(rust.app_kind(), AppKind::Rust);
}

#[test]
fn kinds_have_names_and_markers() {
    assert_eq!(AppKind::Rust.name(), "rust");
    assert_eq!(AppKind::AssemblyScript.name(), "assemblyscript");
    assert_eq!(AppKind::Unknown.name(), "unknown");
    assert_eq!(AppKind::Rust.marker(), Some("Cargo.toml"));
    assert_eq!(AppKind::AssemblyScript.marker(), Some("tsconfig.json"));
    assert_eq!(AppKind::Unknown.marker(), None);
}

#[test]
fn needs_look_at_every_application() {
    let none = Probe { dir_exists: true, has_cargo_toml: false, has_tsconfig: false };
    let rust = Probe { dir_exists: true, has_cargo_toml: true, has_tsconfig: false };
    let script = Probe { dir_exists: true, has_cargo_toml: false, has_tsconfig: true };
    assert!(!needs_rust(&vec![]));
    assert!(!needs_assemblyscript(&vec![]));
    assert!(needs_rust(&vec![none, script, rust]));
    assert!(!needs_rust(&vec![none, script]));
    assert!(needs_assemblyscript(&vec![rust, script]));
    assert!(!needs_assemblyscript(&vec![rust, none]));
}

#[test]
fn missing_tools_lists_what_is_needed_and_not_there() {
    assert_eq!(missing_tools(true, true, tools(true, true, true, true)), vec![]);
    assert_eq!(missing_tools(false, false, tools(false, false, false, false)), vec![]);
    assert_eq!(
        missing_tools(true, true, tools(false, false, false, false)),
        vec![MissingTool::RustToolchain, MissingTool::CargoComponent, MissingTool::Node, MissingTool::Npm]
    );
    assert_eq!(
        missing_tools(true, false, tools(false, false, true, false)),
        vec![MissingTool::CargoComponent]
    );
    assert_eq!(missing_tools(false, true, tools(true, false, false, false)), vec![MissingTool::Npm]);
}

#[test]
fn missing_tools_have_descriptions() {
    assert_eq!(
        MissingTool::RustToolchain.description(),
        "Rust toolchain (install from https://rustup.rs/)"
    );
    assert_eq!(
        MissingTool::CargoComponent.description(),
        "cargo-component (install with: cargo install cargo-component)"
    );
    assert_eq!(MissingTool::Node.description(), "Node.js (install from https://nodejs.org/)");
    assert_eq!(MissingTool::Npm.description(), "npm (comes with Node.js installation)");
}

#[test]
fn tools_are_assumed_or_probed() {
    assert_eq!(Tools::assumed(), tools(true, true, true, true));
    assert_eq!(Tools::probed(true, false, true, Some(true)), tools(true, false, true, true));
    assert_eq!(Tools::probed(true, true, true, Some(false)), tools(true, true, true, false));
    assert_eq!(Tools::probed(false, false, false, None), tools(false, false, false, false));
    assert_eq!(Tools::probed(false, false, false, Some(true)), tools(false, false, false, false));
    assert_eq!(Tools::probed(true, true, true, None), tools(true, true, true, false));
}

#[test]
fn the_lock_file_tells_the_package_manager() {
    assert_eq!(resolve_package_manager(true, true, true), PackageManager::Yarn);
    assert_eq!(resolve_package_manager(true, false, false), PackageManager::Yarn);
    assert_eq!(resolve_package_manager(false, true, true), PackageManager::Pnpm);
    assert_eq!(resolve_package_manager(false, false, true), PackageManager::Npm);
    assert_eq!(resolve_package_manager(false, false, false), PackageManager::Npm);
    assert_eq!(PackageManager::Npm.name(), "npm");
    assert_eq!(PackageManager::Yarn.name(), "yarn");
    assert_eq!(PackageManager::Pnpm.name(), "pnpm");
}

#[test]
fn install_commands() {
    assert_eq!(
        install_command(Some(PackageManager::Npm)),
        command("npm", &["install", "--legacy-peer-deps"])
    );
    assert_eq!(install_command(Some(PackageManager::Yarn)), command("yarn", &["install"]));
    assert_eq!(install_command(Some(PackageManager::Pnpm)), command("pnpm", &["install"]));
    assert_eq!(install_command(None), command("npm", &["install", "--legacy-peer-deps"]));
}

#[test]
fn build_commands() {
    let cargo = command(
        "cargo",
        &["component", "build", "--target", "wasm32-unknown-unknown", "--release"],
    );
    assert_eq!(build_command(AppKind::Rust, None, "demo"), Some(cargo.clone()));
    assert_eq!(build_command(AppKind::Rust, Some(PackageManager::Yarn), "demo"), Some(cargo));
    assert_eq!(
        build_command(AppKind::AssemblyScript, Some(PackageManager::Npm), "demo"),
        Some(command("npm", &["run", "build", "--", "--app", "demo"]))
    );
    assert_eq!(
        build_command(AppKind::AssemblyScript, Some(PackageManager::Yarn), "demo"),
        Some(command("yarn", &["build", "--app", "demo"]))
    );
    assert_eq!(
        build_command(AppKind::AssemblyScript, Some(PackageManager::Pnpm), "demo"),
        Some(command("pnpm", &["build", "--app", "demo"]))
    );
    assert_eq!(
        build_command(AppKind::AssemblyScript, None, "demo"),
        Some(command("npm", &["run", "build"]))
    );
    assert_eq!(build_command(AppKind::Unknown, Some(PackageManager::Npm), "demo"), None);
    assert_eq!(build_dir(AppKind::Rust), WorkDir::Application);
    assert_eq!(build_dir(AppKind::AssemblyScript), WorkDir::Project);
    assert_eq!(build_dir(AppKind::Unknown), WorkDir::Project);
}

#[test]
fn lookup_commands() {
    assert_eq!(lookup_command("cargo", false), command("sh", &["-c", "which cargo"]));
    assert_eq!(lookup_command("node", true), command("cmd", &["/C", "where node"]));
    assert_eq!(lookup_command("", false), command("sh", &["-c", "which "]));
}
