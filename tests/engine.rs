use nix_config::command::{classify, is_already_installed, CommandResult, FailurePolicy, Outcome, Session, Step};
use nix_config::config::{build_configuration, switch_configuration, Configuration};
use nix_config::driver::{apply, update};
use nix_config::homebrew::{cleanup_homebrew, install_homebrew_packages, update_homebrew};
use nix_config::system::{apply_system_defaults, setup_activation_scripts, SystemDefaults};

fn ok() -> CommandResult {
    CommandResult { success: true, stderr: String::new() }
}

fn fail(stderr: &str) -> CommandResult {
    CommandResult { success: false, stderr: stderr.to_string() }
}

fn strings(v: &[&str]) -> Vec<String> {
    v.iter().map(|s| s.to_string()).collect()
}

/// Runs a session, answering each step with `answer`; returns the indices
/// invoked, in order, and whether the run succeeded.
fn drive(steps: Vec<Step>, answer: impl Fn(usize, &Step) -> CommandResult) -> (Vec<usize>, bool) {
    let mut session = Session::new(steps);
    let mut invoked = Vec::new();
    while let Some(i) = session.next_step() {
        invoked.push(i);
        let result = answer(i, session.step(i));
        session.record(&result);
    }
    (invoked, session.succeeded())
}

#[test]
fn already_installed_detection() {
    assert!(is_already_installed("Warning: git 2.44 is already installed and up-to-date"));
    assert!(!is_already_installed("Error: No available formula"));
    assert!(!is_already_installed(""));
    assert!(!is_already_installed("already  installed"));
}

#[test]
fn classify_each_policy() {
    assert!(matches!(classify(FailurePolicy::Abort, &ok()), Outcome::Succeeded));
    match classify(FailurePolicy::Abort, &fail("boom")) {
        Outcome::Failure(m) => assert_eq!(m, "boom"),
        _ => panic!("expected failure"),
    }
    assert!(matches!(
        classify(FailurePolicy::TolerateAlreadyInstalled, &fail("x is already installed")),
        Outcome::Tolerated
    ));
    match classify(FailurePolicy::TolerateAlreadyInstalled, &fail("network down")) {
        Outcome::Failure(m) => assert_eq!(m, "network down"),
        _ => panic!("expected failure"),
    }
    match classify(FailurePolicy::WarnOnly, &fail("no cleanup")) {
        Outcome::Warning(m) => assert_eq!(m, "no cleanup"),
        _ => panic!("expected warning"),
    }
}

#[test]
fn empty_install_lists_invoke_nothing() {
    let plan = install_homebrew_packages(&[], &[]);
    assert!(plan.is_empty());
    let (invoked, succeeded) = drive(plan, |_, _| fail("never"));
    assert!(invoked.is_empty());
    assert!(succeeded);
}

#[test]
fn install_plan_lists_formulae_then_casks() {
    let plan = install_homebrew_packages(&strings(&["go", "nvm"]), &strings(&["zed"]));
    assert_eq!(plan.len(), 3);
    assert_eq!(plan[0].program, "brew");
    assert_eq!(plan[0].args, strings(&["install", "go"]));
    assert_eq!(plan[1].args, strings(&["install", "nvm"]));
    assert_eq!(plan[2].args, strings(&["install", "--cask", "zed"]));
    assert!(plan.iter().all(|s| s.policy == FailurePolicy::TolerateAlreadyInstalled));
}

#[test]
fn already_installed_never_errors_whatever_the_exit() {
    let plan = install_homebrew_packages(&strings(&["go"]), &strings(&["zed"]));
    let (invoked, succeeded) = drive(plan, |_, _| fail("Warning: already installed"));
    assert_eq!(invoked, vec![0, 1]);
    assert!(succeeded);
    let plan = install_homebrew_packages(&strings(&["go"]), &[]);
    let (_, succeeded) = drive(plan, |_, _| CommandResult { success: true, stderr: "already installed".to_string() });
    assert!(succeeded);
}

#[test]
fn other_install_failure_stops_the_run() {
    let plan = install_homebrew_packages(&strings(&["a", "b", "c"]), &strings(&["d"]));
    let mut session = Session::new(plan);
    assert_eq!(session.next_step(), Some(0));
    assert!(matches!(session.record(&ok()), Outcome::Succeeded));
    assert_eq!(session.next_step(), Some(1));
    match session.record(&fail("Error: download failed")) {
        Outcome::Failure(m) => assert_eq!(m, "Error: download failed"),
        _ => panic!("expected failure"),
    }
    assert_eq!(session.next_step(), None);
    assert!(session.has_failed());
    assert!(!session.succeeded());
}

#[test]
fn preference_values_are_written_as_text() {
    let plan = apply_system_defaults(&SystemDefaults::default());
    assert_eq!(plan.len(), 8);
    assert_eq!(plan[0].program, "defaults");
    assert_eq!(plan[0].args, strings(&["write", "com.apple.dock", "autohide", "true"]));
    assert_eq!(plan[1].args, strings(&["write", "com.apple.dock", "tilesize", "60"]));
    assert_eq!(plan[4].args, strings(&["write", "com.apple.loginwindow", "GuestEnabled", "false"]));
    assert_eq!(
        plan[7].args,
        strings(&["write", "NSGlobalDomain", "AppleInterfaceStyleSwitchesAutomatically", "true"])
    );
    assert!(plan.iter().all(|s| s.policy == FailurePolicy::Abort));
}

#[test]
fn tile_size_uses_decimal_digits() {
    let mut defaults = SystemDefaults::default();
    defaults.dock.tilesize = 1024;
    let plan = apply_system_defaults(&defaults);
    assert_eq!(plan[1].args[3], "1024");
    defaults.dock.tilesize = 0;
    let plan = apply_system_defaults(&defaults);
    assert_eq!(plan[1].args[3], "0");
}

#[test]
fn activation_failures_are_warnings() {
    let plan = setup_activation_scripts("filip");
    assert_eq!(plan[0].program, "sudo");
    assert_eq!(plan[0].args, strings(&["-u", "filip", "defaultbrowser", "browser"]));
    assert_eq!(plan[1].program, "rustup");
    assert_eq!(plan[1].args, strings(&["default", "stable"]));
    let (invoked, succeeded) = drive(plan, |_, _| fail("no such user"));
    assert_eq!(invoked, vec![0, 1]);
    assert!(succeeded);
}

#[test]
fn apply_orders_preferences_before_packages() {
    let config = Configuration::default();
    let defaults = SystemDefaults::default();
    let plan = apply(&config, &defaults);
    assert_eq!(plan.len(), 8 + 2 + 8 + 47);
    assert!(plan[..8].iter().all(|s| s.program == "defaults"));
    assert!(plan[10..].iter().all(|s| s.program == "brew"));
    let (invoked, succeeded) = drive(plan, |i, _| if i == 3 { fail("denied") } else { ok() });
    assert_eq!(invoked, vec![0, 1, 2, 3]);
    assert!(!succeeded);
}

#[test]
fn apply_twice_is_clean_the_second_time() {
    let config = Configuration::default();
    let defaults = SystemDefaults::default();
    let (first, ok_first) = drive(apply(&config, &defaults), |_, _| ok());
    assert!(ok_first);
    let (second, ok_second) = drive(apply(&config, &defaults), |_, s| {
        if s.program == "brew" {
            fail("Warning: already installed and up-to-date")
        } else {
            ok()
        }
    });
    assert!(ok_second);
    assert_eq!(first, second);
}

#[test]
fn update_cleanup_failure_is_only_a_warning() {
    let plan = update();
    assert_eq!(plan.len(), 4);
    assert_eq!(plan[0].args, strings(&["flake", "check"]));
    assert_eq!(plan[1].args, strings(&["update"]));
    assert_eq!(plan[2].args, strings(&["upgrade"]));
    assert_eq!(plan[3].args, strings(&["cleanup"]));
    let (invoked, succeeded) = drive(plan, |i, _| if i == 3 { fail("cleanup broke") } else { ok() });
    assert_eq!(invoked, vec![0, 1, 2, 3]);
    assert!(succeeded);
    let (invoked, succeeded) = drive(update(), |i, _| if i == 1 { fail("offline") } else { ok() });
    assert_eq!(invoked, vec![0, 1]);
    assert!(!succeeded);
}

#[test]
fn update_and_cleanup_plans() {
    assert_eq!(update_homebrew().len(), 2);
    let cleanup = cleanup_homebrew();
    assert_eq!(cleanup[0].policy, FailurePolicy::WarnOnly);
}

#[test]
fn build_and_switch_take_the_flake_path() {
    let build = build_configuration(".#mbp");
    assert_eq!(build[0].program, "nix");
    assert_eq!(build[0].args, strings(&["run", "nix-darwin", "--", "build", "--flake", ".#mbp"]));
    let switch = switch_configuration(".#work");
    assert_eq!(switch[0].program, "sudo");
    assert_eq!(switch[0].args, strings(&["darwin-rebuild", "switch", "--flake", ".#work"]));
}

#[test]
fn default_table_contents() {
    let config = Configuration::default();
    assert_eq!(config.system_packages.len(), 46);
    assert_eq!(config.system_packages[0].name, "neovim");
    assert!(config.system_packages.iter().all(|p| p.version.is_none()));
    assert_eq!(config.homebrew_brews.len(), 8);
    assert_eq!(config.homebrew_casks.len(), 47);
    assert_eq!(config.vars.home_directory, "/Users/filip");
    assert!(config.system_defaults.is_empty());
}
