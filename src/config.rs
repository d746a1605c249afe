//! The desired state: variables, package lists, and the declarative
//! configuration commands.
use vstd::prelude::*;
use std::collections::HashMap;
use crate::command::{FailurePolicy, Step, StepView, plan_view};
use crate::homebrew::{names, text};

verus! {

/// Declares `serde_json::Value` so that the table can carry preference
/// values of that type; nothing is assumed of what a value holds.
#[verifier::external_type_specification]
#[verifier::external_body]
pub struct ExJsonValue(serde_json::Value);

/// The per-user activation directives.
pub struct Variables {
    pub defaultbrowser: String,
    pub username: String,
    pub home_directory: String,
}

/// A primary package, named, at an optional version.
pub struct SystemPackage {
    pub name: String,
    pub version: Option<String>,
}

/// The desired state: variables, primary packages, formulae, casks, and
/// free-form preference values.
pub struct Configuration {
    pub vars: Variables,
    pub system_packages: Vec<SystemPackage>,
    pub homebrew_brews: Vec<String>,
    pub homebrew_casks: Vec<String>,
    pub system_defaults: HashMap<String, serde_json::Value>,
}

/// The primary packages of the default table, in order.
pub open spec fn default_system_package_names() -> Seq<Seq<char>> {
    seq![
        "neovim"@,
        "git"@,
        "gh"@,
        "pre-commit"@,
        "nixd"@,
        "nixfmt-rfc-style"@,
        "cmake"@,
        "rustup"@,
        "ruby"@,
        "awscli2"@,
        "google-cloud-sdk"@,
        "turso-cli"@,
        "cloudflared"@,
        "atlas"@,
        "golangci-lint"@,
        "python314"@,
        "pipx"@,
        "bun"@,
        "coreutils"@,
        "wget"@,
        "rclone"@,
        "p7zip"@,
        "dust"@,
        "bottom"@,
        "defaultbrowser"@,
        "zoxide"@,
        "bat"@,
        "eza"@,
        "jq"@,
        "yq"@,
        "pandoc"@,
        "pv"@,
        "ffmpeg"@,
        "imagemagick"@,
        "yt-dlp"@,
        "gnupg"@,
        "knot-dns"@,
        "nmap"@,
        "fastfetch"@,
        "lolcat"@,
        "git-credential-manager"@,
        "audacity"@,
        "raycast"@,
        "qbittorrent"@,
        "monitorcontrol"@,
        "wireshark-qt"@,
    ]
}

/// The formulae of the default table, in order.
pub open spec fn default_brews() -> Seq<Seq<char>> {
    seq![
        "bettercap"@,
        "gnupg"@,
        "go"@,
        "nvm"@,
        "pnpm"@,
        "handbrake"@,
        "paperjam"@,
        "gnu-sed"@,
    ]
}

/// The casks of the default table, in order.
pub open spec fn default_casks() -> Seq<Seq<char>> {
    seq![
        "figma"@,
        "loom"@,
        "ukelele"@,
        "amie"@,
        "orbstack"@,
        "linear-linear"@,
        "shottr"@,
        "tailscale"@,
        "stats"@,
        "karabiner-elements"@,
        "vlc"@,
        "rustdesk"@,
        "handbrake"@,
        "1password"@,
        "blender"@,
        "thunderbird"@,
        "zotero"@,
        "github"@,
        "jetbrains-toolbox"@,
        "adobe-creative-cloud"@,
        "microsoft-openjdk@21"@,
        "swiftdefaultappsprefpane"@,
        "meetingbar"@,
        "lunar-client"@,
        "whisky"@,
        "steam"@,
        "zed"@,
        "visual-studio-code"@,
        "vscodium"@,
        "cursor"@,
        "utm"@,
        "signal"@,
        "microsoft-powerpoint"@,
        "discord"@,
        "slack"@,
        "parsec"@,
        "obs"@,
        "obsidian"@,
        "ollama"@,
        "veracrypt"@,
        "warp"@,
        "tor-browser"@,
        "arc"@,
        "librewolf"@,
        "firefox@developer-edition"@,
        "eloston-chromium"@,
        "zen"@,
    ]
}

/// The names of a list of packages.
pub open spec fn package_names(v: Seq<SystemPackage>) -> Seq<Seq<char>> {
    v.map_values(|p: SystemPackage| p.name@)
}

/// The default table.
pub open spec fn is_default_configuration(c: Configuration) -> bool {
    &&& c.vars.defaultbrowser@ == "browser"@
    &&& c.vars.username@ == "filip"@
    &&& c.vars.home_directory@ == "/Users/filip"@
    &&& package_names(c.system_packages@) == default_system_package_names()
    &&& forall|i: int| 0 <= i < c.system_packages@.len() ==> (#[trigger] c.system_packages@[i]).version is None
    &&& names(c.homebrew_brews@) == default_brews()
    &&& names(c.homebrew_casks@) == default_casks()
    &&& c.system_defaults@ == Map::<String, serde_json::Value>::empty()
}

/// A package at no pinned version.
fn unversioned(name: &str) -> (r: SystemPackage)
    ensures
        r.name@ == name@,
        r.version is None,
{
    SystemPackage { name: text(name), version: None }
}

fn default_system_packages() -> (r: Vec<SystemPackage>)
    ensures
        package_names(r@) == default_system_package_names(),
        forall|i: int| 0 <= i < r@.len() ==> (#[trigger] r@[i]).version is None,
{
    let mut v: Vec<SystemPackage> = Vec::new();
    v.push(unversioned("neovim"));
    v.push(unversioned("git"));
    v.push(unversioned("gh"));
    v.push(unversioned("pre-commit"));
    v.push(unversioned("nixd"));
    v.push(unversioned("nixfmt-rfc-style"));
    v.push(unversioned("cmake"));
    v.push(unversioned("rustup"));
    v.push(unversioned("ruby"));
    v.push(unversioned("awscli2"));
    v.push(unversioned("google-cloud-sdk"));
    v.push(unversioned("turso-cli"));
    v.push(unversioned("cloudflared"));
    v.push(unversioned("atlas"));
    v.push(unversioned("golangci-lint"));
    v.push(unversioned("python314"));
    v.push(unversioned("pipx"));
    v.push(unversioned("bun"));
    v.push(unversioned("coreutils"));
    v.push(unversioned("wget"));
    v.push(unversioned("rclone"));
    v.push(unversioned("p7zip"));
    v.push(unversioned("dust"));
    v.push(unversioned("bottom"));
    v.push(unversioned("defaultbrowser"));
    v.push(unversioned("zoxide"));
    v.push(unversioned("bat"));
    v.push(unversioned("eza"));
    v.push(unversioned("jq"));
    v.push(unversioned("yq"));
    v.push(unversioned("pandoc"));
    v.push(unversioned("pv"));
    v.push(unversioned("ffmpeg"));
    v.push(unversioned("imagemagick"));
    v.push(unversioned("yt-dlp"));
    v.push(unversioned("gnupg"));
    v.push(unversioned("knot-dns"));
    v.push(unversioned("nmap"));
    v.push(unversioned("fastfetch"));
    v.push(unversioned("lolcat"));
    v.push(unversioned("git-credential-manager"));
    v.push(unversioned("audacity"));
    v.push(unversioned("raycast"));
    v.push(unversioned("qbittorrent"));
    v.push(unversioned("monitorcontrol"));
    v.push(unversioned("wireshark-qt"));
    assert(package_names(v@) =~= default_system_package_names());
    v
}

fn default_brew_list() -> (r: Vec<String>)
    ensures
        names(r@) == default_brews(),
{
    let mut v: Vec<String> = Vec::new();
    v.push(text("bettercap"));
    v.push(text("gnupg"));
    v.push(text("go"));
    v.push(text("nvm"));
    v.push(text("pnpm"));
    v.push(text("handbrake"));
    v.push(text("paperjam"));
    v.push(text("gnu-sed"));
    assert(names(v@) =~= default_brews());
    v
}

fn default_cask_list() -> (r: Vec<String>)
    ensures
        names(r@) == default_casks(),
{
    let mut v: Vec<String> = Vec::new();
    v.push(text("figma"));
    v.push(text("loom"));
    v.push(text("ukelele"));
    v.push(text("amie"));
    v.push(text("orbstack"));
    v.push(text("linear-linear"));
    v.push(text("shottr"));
    v.push(text("tailscale"));
    v.push(text("stats"));
    v.push(text("karabiner-elements"));
    v.push(text("vlc"));
    v.push(text("rustdesk"));
    v.push(text("handbrake"));
    v.push(text("1password"));
    v.push(text("blender"));
    v.push(text("thunderbird"));
    v.push(text("zotero"));
    v.push(text("github"));
    v.push(text("jetbrains-toolbox"));
    v.push(text("adobe-creative-cloud"));
    v.push(text("microsoft-openjdk@21"));
    v.push(text("swiftdefaultappsprefpane"));
    v.push(text("meetingbar"));
    v.push(text("lunar-client"));
    v.push(text("whisky"));
    v.push(text("steam"));
    v.push(text("zed"));
    v.push(text("visual-studio-code"));
    v.push(text("vscodium"));
    v.push(text("cursor"));
    v.push(text("utm"));
    v.push(text("signal"));
    v.push(text("microsoft-powerpoint"));
    v.push(text("discord"));
    v.push(text("slack"));
    v.push(text("parsec"));
    v.push(text("obs"));
    v.push(text("obsidian"));
    v.push(text("ollama"));
    v.push(text("veracrypt"));
    v.push(text("warp"));
    v.push(text("tor-browser"));
    v.push(text("arc"));
    v.push(text("librewolf"));
    v.push(text("firefox@developer-edition"));
    v.push(text("eloston-chromium"));
    v.push(text("zen"));
    assert(names(v@) =~= default_casks());
    v
}

impl Default for Configuration {
    fn default() -> (r: Self)
        ensures
            is_default_configuration(r),
    {
        Configuration {
            vars: Variables {
                defaultbrowser: text("browser"),
                username: text("filip"),
                home_directory: text("/Users/filip"),
            },
            system_packages: default_system_packages(),
            homebrew_brews: default_brew_list(),
            homebrew_casks: default_cask_list(),
            system_defaults: HashMap::new(),
        }
    }
}

/// A `nix` or `darwin-rebuild` invocation; a failure is a hard error.
pub open spec fn declarative_command(program: Seq<char>, args: Seq<Seq<char>>) -> StepView {
    StepView { program, args, policy: FailurePolicy::Abort }
}

/// Building the configuration of flake `path`.
pub open spec fn build_plan(path: Seq<char>) -> Seq<StepView> {
    seq![declarative_command("nix"@, seq!["run"@, "nix-darwin"@, "--"@, "build"@, "--flake"@, path])]
}

/// Switching the machine to the configuration of flake `path`.
pub open spec fn switch_plan(path: Seq<char>) -> Seq<StepView> {
    seq![declarative_command("sudo"@, seq!["darwin-rebuild"@, "switch"@, "--flake"@, path])]
}

/// Validating the declarative configuration.
pub open spec fn check_plan() -> Seq<StepView> {
    seq![declarative_command("nix"@, seq!["flake"@, "check"@])]
}

fn single_step(program: &str, args: Vec<String>) -> (r: Vec<Step>)
    ensures
        plan_view(r@) == seq![declarative_command(program@, args@.map_values(|a: String| a@))],
{
    let mut plan: Vec<Step> = Vec::new();
    plan.push(Step { program: text(program), args, policy: FailurePolicy::Abort });
    assert(plan_view(plan@) =~= seq![declarative_command(program@, args@.map_values(|a: String| a@))]);
    plan
}

/// The plan that builds the configuration of flake `flake_path`.
pub fn build_configuration(flake_path: &str) -> (r: Vec<Step>)
    ensures
        plan_view(r@) == build_plan(flake_path@),
{
    let mut args: Vec<String> = Vec::new();
    args.push(text("run"));
    args.push(text("nix-darwin"));
    args.push(text("--"));
    args.push(text("build"));
    args.push(text("--flake"));
    args.push(text(flake_path));
    assert(args@.map_values(|a: String| a@) =~= seq!["run"@, "nix-darwin"@, "--"@, "build"@, "--flake"@, flake_path@]);
    single_step("nix", args)
}

/// The plan that switches the machine to the configuration of flake
/// `flake_path`.
pub fn switch_configuration(flake_path: &str) -> (r: Vec<Step>)
    ensures
        plan_view(r@) == switch_plan(flake_path@),
{
    let mut args: Vec<String> = Vec::new();
    args.push(text("darwin-rebuild"));
    args.push(text("switch"));
    args.push(text("--flake"));
    args.push(text(flake_path));
    assert(args@.map_values(|a: String| a@) =~= seq!["darwin-rebuild"@, "switch"@, "--flake"@, flake_path@]);
    single_step("sudo", args)
}

/// The plan that validates the declarative configuration.
pub fn check_flake() -> (r: Vec<Step>)
    ensures
        plan_view(r@) == check_plan(),
{
    let mut args: Vec<String> = Vec::new();
    args.push(text("flake"));
    args.push(text("check"));
    assert(args@.map_values(|a: String| a@) =~= seq!["flake"@, "check"@]);
    single_step("nix", args)
}

} // verus!
