//! OS preference settings and the activation steps run after them.
use vstd::prelude::*;
use crate::command::{FailurePolicy, Step, StepView, plan_view};
use crate::homebrew::text;

verus! {

/// The OS preference table, grouped by area.
pub struct SystemDefaults {
    pub dock: DockSettings,
    pub finder: FinderSettings,
    pub loginwindow: LoginWindowSettings,
    pub nsglobal_domain: NSGlobalDomainSettings,
}

pub struct DockSettings {
    pub autohide: bool,
    pub tilesize: u32,
    pub persistent_apps: Vec<String>,
}

pub struct FinderSettings {
    pub apple_show_all_extensions: bool,
    pub apple_show_all_files: bool,
}

pub struct LoginWindowSettings {
    pub guest_enabled: bool,
}

pub struct NSGlobalDomainSettings {
    pub swipe_scroll_direction: bool,
    pub apple_icu_force_24_hour_time: bool,
    pub apple_interface_style_switches_automatically: bool,
}

/// The applications pinned to the dock by default.
pub open spec fn default_persistent_apps() -> Seq<Seq<char>> {
    seq![
        "/System/Volumes/Data/Applications/Firefox Developer Edition.app"@,
        "/System/Volumes/Data/Applications/Thunderbird.app"@,
        "/System/Volumes/Data/Applications/Slack.app"@,
        "/System/Volumes/Data/Applications/Discord.app"@,
    ]
}

/// The default preference table.
pub open spec fn is_default_system_defaults(d: SystemDefaults) -> bool {
    &&& d.dock.autohide
    &&& d.dock.tilesize == 60
    &&& d.dock.persistent_apps@.map_values(|s: String| s@) == default_persistent_apps()
    &&& d.finder.apple_show_all_extensions
    &&& d.finder.apple_show_all_files
    &&& !d.loginwindow.guest_enabled
    &&& !d.nsglobal_domain.swipe_scroll_direction
    &&& d.nsglobal_domain.apple_icu_force_24_hour_time
    &&& d.nsglobal_domain.apple_interface_style_switches_automatically
}

impl Default for SystemDefaults {
    fn default() -> (r: Self)
        ensures
            is_default_system_defaults(r),
    {
        let mut apps: Vec<String> = Vec::new();
        apps.push(text("/System/Volumes/Data/Applications/Firefox Developer Edition.app"));
        apps.push(text("/System/Volumes/Data/Applications/Thunderbird.app"));
        apps.push(text("/System/Volumes/Data/Applications/Slack.app"));
        apps.push(text("/System/Volumes/Data/Applications/Discord.app"));
        assert(apps@.map_values(|s: String| s@) =~= default_persistent_apps());
        SystemDefaults {
            dock: DockSettings { autohide: true, tilesize: 60, persistent_apps: apps },
            finder: FinderSettings { apple_show_all_extensions: true, apple_show_all_files: true },
            loginwindow: LoginWindowSettings { guest_enabled: false },
            nsglobal_domain: NSGlobalDomainSettings {
                swipe_scroll_direction: false,
                apple_icu_force_24_hour_time: true,
                apple_interface_style_switches_automatically: true,
            },
        }
    }
}

/// How a boolean preference is written.
pub open spec fn bool_text(b: bool) -> Seq<char> {
    if b { "true"@ } else { "false"@ }
}

/// The decimal digit for `d`, which is below ten.
pub open spec fn digit_char(d: nat) -> char {
    seq!['0', '1', '2', '3', '4', '5', '6', '7', '8', '9'][d as int]
}

/// The decimal form of `n`, without sign or leading zeros.
pub open spec fn decimal_text(n: nat) -> Seq<char>
    decreases n,
{
    if n < 10 {
        seq![digit_char(n)]
    } else {
        decimal_text(n / 10).push(digit_char(n % 10))
    }
}

/// Writing one preference: `defaults write <domain> <key> <value>`; a
/// failure is a hard error.
pub open spec fn defaults_write(domain: Seq<char>, key: Seq<char>, value: Seq<char>) -> StepView {
    StepView { program: "defaults"@, args: seq!["write"@, domain, key, value], policy: FailurePolicy::Abort }
}

/// Every preference of `d`: dock, then finder, then login window, then the
/// global domain.
pub open spec fn preference_plan(d: SystemDefaults) -> Seq<StepView> {
    seq![
        defaults_write("com.apple.dock"@, "autohide"@, bool_text(d.dock.autohide)),
        defaults_write("com.apple.dock"@, "tilesize"@, decimal_text(d.dock.tilesize as nat)),
        defaults_write("com.apple.finder"@, "AppleShowAllExtensions"@, bool_text(d.finder.apple_show_all_extensions)),
        defaults_write("com.apple.finder"@, "AppleShowAllFiles"@, bool_text(d.finder.apple_show_all_files)),
        defaults_write("com.apple.loginwindow"@, "GuestEnabled"@, bool_text(d.loginwindow.guest_enabled)),
        defaults_write("NSGlobalDomain"@, "com.apple.swipescrolldirection"@, bool_text(d.nsglobal_domain.swipe_scroll_direction)),
        defaults_write("NSGlobalDomain"@, "AppleICUForce24HourTime"@, bool_text(d.nsglobal_domain.apple_icu_force_24_hour_time)),
        defaults_write(
            "NSGlobalDomain"@,
            "AppleInterfaceStyleSwitchesAutomatically"@,
            bool_text(d.nsglobal_domain.apple_interface_style_switches_automatically),
        ),
    ]
}

/// The post-install conveniences for `username`: the default browser, then
/// the toolchain default. Each failure is only a warning.
pub open spec fn activation_plan(username: Seq<char>) -> Seq<StepView> {
    seq![
        StepView {
            program: "sudo"@,
            args: seq!["-u"@, username, "defaultbrowser"@, "browser"@],
            policy: FailurePolicy::WarnOnly,
        },
        StepView { program: "rustup"@, args: seq!["default"@, "stable"@], policy: FailurePolicy::WarnOnly },
    ]
}

/// Relies on `u32`'s `Display`, through `ToString::to_string`: the value in
/// decimal digits, with no sign, padding or leading zeros.
#[verifier::external_body]
fn decimal(n: u32) -> (r: String)
    ensures
        r@ == decimal_text(n as nat),
{
    n.to_string()
}

/// How `b` is written as a preference value.
pub fn bool_value(b: bool) -> (r: String)
    ensures
        r@ == bool_text(b),
{
    if b {
        text("true")
    } else {
        text("false")
    }
}

/// The step that writes `value` under `key` in preference domain `domain`.
pub fn set_default(domain: &str, key: &str, value: &str) -> (r: Step)
    ensures
        r@ == defaults_write(domain@, key@, value@),
{
    let mut args: Vec<String> = Vec::new();
    args.push(text("write"));
    args.push(text(domain));
    args.push(text(key));
    args.push(text(value));
    let r = Step { program: text("defaults"), args, policy: FailurePolicy::Abort };
    assert(r@.args =~= seq!["write"@, domain@, key@, value@]);
    r
}

/// The plan that writes every preference of `defaults`, in a fixed order;
/// the first failure ends it.
pub fn apply_system_defaults(defaults: &SystemDefaults) -> (r: Vec<Step>)
    ensures
        plan_view(r@) == preference_plan(*defaults),
{
    let mut plan: Vec<Step> = Vec::new();
    plan.push(set_default("com.apple.dock", "autohide", bool_value(defaults.dock.autohide).as_str()));
    plan.push(set_default("com.apple.dock", "tilesize", decimal(defaults.dock.tilesize).as_str()));
    plan.push(
        set_default(
            "com.apple.finder",
            "AppleShowAllExtensions",
            bool_value(defaults.finder.apple_show_all_extensions).as_str(),
        ),
    );
    plan.push(
        set_default("com.apple.finder", "AppleShowAllFiles", bool_value(defaults.finder.apple_show_all_files).as_str()),
    );
    plan.push(
        set_default("com.apple.loginwindow", "GuestEnabled", bool_value(defaults.loginwindow.guest_enabled).as_str()),
    );
    plan.push(
        set_default(
            "NSGlobalDomain",
            "com.apple.swipescrolldirection",
            bool_value(defaults.nsglobal_domain.swipe_scroll_direction).as_str(),
        ),
    );
    plan.push(
        set_default(
            "NSGlobalDomain",
            "AppleICUForce24HourTime",
            bool_value(defaults.nsglobal_domain.apple_icu_force_24_hour_time).as_str(),
        ),
    );
    plan.push(
        set_default(
            "NSGlobalDomain",
            "AppleInterfaceStyleSwitchesAutomatically",
            bool_value(defaults.nsglobal_domain.apple_interface_style_switches_automatically).as_str(),
        ),
    );
    assert(plan_view(plan@) =~= preference_plan(*defaults));
    plan
}

/// The plan of activation steps for `username`; every failure in it is only
/// a warning, so it always runs to its end.
pub fn setup_activation_scripts(username: &str) -> (r: Vec<Step>)
    ensures
        plan_view(r@) == activation_plan(username@),
{
    let mut browser: Vec<String> = Vec::new();
    browser.push(text("-u"));
    browser.push(text(username));
    browser.push(text("defaultbrowser"));
    browser.push(text("browser"));
    let mut toolchain: Vec<String> = Vec::new();
    toolchain.push(text("default"));
    toolchain.push(text("stable"));
    let mut plan: Vec<Step> = Vec::new();
    plan.push(Step { program: text("sudo"), args: browser, policy: FailurePolicy::WarnOnly });
    plan.push(Step { program: text("rustup"), args: toolchain, policy: FailurePolicy::WarnOnly });
    assert(browser@.map_values(|a: String| a@) =~= seq!["-u"@, username@, "defaultbrowser"@, "browser"@]);
    assert(toolchain@.map_values(|a: String| a@) =~= seq!["default"@, "stable"@]);
    assert(plan_view(plan@) =~= activation_plan(username@));
    plan
}

} // verus!
