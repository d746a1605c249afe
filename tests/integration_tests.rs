use nix_config::config::{check_flake, Configuration};
use nix_config::system::SystemDefaults;

#[test]
fn test_configuration_default() {
    let config = Configuration::default();

    assert_eq!(config.vars.username, "filip");
    assert_eq!(config.vars.defaultbrowser, "browser");
    assert!(!config.system_packages.is_empty());
    assert!(!config.homebrew_brews.is_empty());
    assert!(!config.homebrew_casks.is_empty());
}

#[test]
fn test_system_defaults() {
    let defaults = SystemDefaults::default();

    assert_eq!(defaults.dock.autohide, true);
    assert_eq!(defaults.dock.tilesize, 60);
    assert_eq!(defaults.finder.apple_show_all_extensions, true);
    assert_eq!(defaults.loginwindow.guest_enabled, false);
}

#[test]
fn test_flake_check() {
    let plan = check_flake();
    assert_eq!(plan.len(), 1);
    assert_eq!(plan[0].program, "nix");
    assert_eq!(plan[0].args, vec!["flake".to_string(), "check".to_string()]);
}

#[test]
fn test_package_lists_not_empty() {
    let config = Configuration::default();

    // Verify we have essential packages
    let has_git = config.system_packages.iter().any(|p| p.name == "git");
    let has_neovim = config.system_packages.iter().any(|p| p.name == "neovim");
    let has_rust = config.system_packages.iter().any(|p| p.name == "rustup");

    assert!(has_git, "Git should be in system packages");
    assert!(has_neovim, "Neovim should be in system packages");
    assert!(has_rust, "Rustup should be in system packages");

    // Verify we have essential homebrew packages
    assert!(config.homebrew_brews.contains(&"go".to_string()));
    assert!(config
        .homebrew_casks
        .contains(&"visual-studio-code".to_string()));
}

#[test]
fn test_persistent_dock_apps() {
    let defaults = SystemDefaults::default();

    let expected_apps = vec![
        "/System/Volumes/Data/Applications/Firefox Developer Edition.app",
        "/System/Volumes/Data/Applications/Thunderbird.app",
        "/System/Volumes/Data/Applications/Slack.app",
        "/System/Volumes/Data/Applications/Discord.app",
    ];

    for app in expected_apps {
        assert!(
            defaults.dock.persistent_apps.contains(&app.to_string()),
            "Dock should contain {}",
            app
        );
    }
}
