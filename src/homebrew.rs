//! Plans for the secondary package manager: installs, update and cleanup.
use vstd::prelude::*;
use crate::command::{FailurePolicy, Step, StepView, plan_view};

verus! {

/// Installing a formula: `brew install <name>`, already-installed tolerated.
pub open spec fn brew_install(name: Seq<char>) -> StepView {
    StepView { program: "brew"@, args: seq!["install"@, name], policy: FailurePolicy::TolerateAlreadyInstalled }
}

/// Installing a cask: `brew install --cask <name>`, already-installed tolerated.
pub open spec fn cask_install(name: Seq<char>) -> StepView {
    StepView {
        program: "brew"@,
        args: seq!["install"@, "--cask"@, name],
        policy: FailurePolicy::TolerateAlreadyInstalled,
    }
}

/// The names held by a list of strings.
pub open spec fn names(v: Seq<String>) -> Seq<Seq<char>> {
    v.map_values(|s: String| s@)
}

/// Every formula in order, then every cask in order.
pub open spec fn install_plan(brews: Seq<Seq<char>>, casks: Seq<Seq<char>>) -> Seq<StepView> {
    brews.map_values(|n: Seq<char>| brew_install(n)) + casks.map_values(|n: Seq<char>| cask_install(n))
}

/// A `brew` invocation whose failures follow `policy`.
pub open spec fn brew_command(args: Seq<Seq<char>>, policy: FailurePolicy) -> StepView {
    StepView { program: "brew"@, args, policy }
}

/// Refreshing the index and then upgrading every package; both must succeed.
pub open spec fn update_plan() -> Seq<StepView> {
    seq![
        brew_command(seq!["update"@], FailurePolicy::Abort),
        brew_command(seq!["upgrade"@], FailurePolicy::Abort),
    ]
}

/// Removing unused artifacts, best effort.
pub open spec fn cleanup_plan() -> Seq<StepView> {
    seq![brew_command(seq!["cleanup"@], FailurePolicy::WarnOnly)]
}

/// An owned copy of a string slice.
pub fn text(s: &str) -> (r: String)
    ensures
        r@ == s@,
{
    s.to_string()
}

fn brew_step(args: Vec<String>, policy: FailurePolicy) -> (r: Step)
    ensures
        r@ == brew_command(args@.map_values(|a: String| a@), policy),
{
    Step { program: text("brew"), args, policy }
}

/// The step that installs formula `package`.
pub fn install_brew(package: &str) -> (r: Step)
    ensures
        r@ == brew_install(package@),
{
    let mut args: Vec<String> = Vec::new();
    args.push(text("install"));
    args.push(text(package));
    let r = brew_step(args, FailurePolicy::TolerateAlreadyInstalled);
    assert(r@.args =~= seq!["install"@, package@]);
    r
}

/// The step that installs cask `package`.
pub fn install_cask(package: &str) -> (r: Step)
    ensures
        r@ == cask_install(package@),
{
    let mut args: Vec<String> = Vec::new();
    args.push(text("install"));
    args.push(text("--cask"));
    args.push(text(package));
    let r = brew_step(args, FailurePolicy::TolerateAlreadyInstalled);
    assert(r@.args =~= seq!["install"@, "--cask"@, package@]);
    r
}

/// The plan that installs every formula of `brews`, then every cask of
/// `casks`, each in order. Empty lists give an empty plan.
pub fn install_homebrew_packages(brews: &[String], casks: &[String]) -> (r: Vec<Step>)
    ensures
        plan_view(r@) == install_plan(names(brews@), names(casks@)),
{
    let mut plan: Vec<Step> = Vec::new();
    let mut i: usize = 0;
    while i < brews.len()
        invariant
            i <= brews@.len(),
            plan@.len() == i,
            forall|j: int| 0 <= j < i ==> #[trigger] plan@[j]@ == brew_install(brews@[j]@),
        decreases brews@.len() - i,
    {
        plan.push(install_brew(brews[i].as_str()));
        i = i + 1;
    }
    let mut k: usize = 0;
    while k < casks.len()
        invariant
            k <= casks@.len(),
            plan@.len() == brews@.len() + k,
            forall|j: int| 0 <= j < brews@.len() ==> #[trigger] plan@[j]@ == brew_install(brews@[j]@),
            forall|j: int| 0 <= j < k ==> #[trigger] plan@[brews@.len() + j]@ == cask_install(casks@[j]@),
        decreases casks@.len() - k,
    {
        plan.push(install_cask(casks[k].as_str()));
        k = k + 1;
    }
    proof {
        let want = install_plan(names(brews@), names(casks@));
        assert forall|j: int| 0 <= j < plan@.len() implies #[trigger] plan_view(plan@)[j] == want[j] by {
            if j >= brews@.len() {
                assert(plan@[brews@.len() + (j - brews@.len())]@ == cask_install(casks@[j - brews@.len()]@));
            }
        }
        assert(plan_view(plan@) =~= want);
    }
    plan
}

/// The plan that refreshes the package index and then upgrades every package.
pub fn update_homebrew() -> (r: Vec<Step>)
    ensures
        plan_view(r@) == update_plan(),
{
    let mut update: Vec<String> = Vec::new();
    update.push(text("update"));
    let mut upgrade: Vec<String> = Vec::new();
    upgrade.push(text("upgrade"));
    let mut plan: Vec<Step> = Vec::new();
    plan.push(brew_step(update, FailurePolicy::Abort));
    plan.push(brew_step(upgrade, FailurePolicy::Abort));
    assert(update@.map_values(|a: String| a@) =~= seq!["update"@]);
    assert(upgrade@.map_values(|a: String| a@) =~= seq!["upgrade"@]);
    assert(plan_view(plan@) =~= update_plan());
    plan
}

/// The plan that removes unused artifacts; its failure is only a warning.
pub fn cleanup_homebrew() -> (r: Vec<Step>)
    ensures
        plan_view(r@) == cleanup_plan(),
{
    let mut cleanup: Vec<String> = Vec::new();
    cleanup.push(text("cleanup"));
    let mut plan: Vec<Step> = Vec::new();
    plan.push(brew_step(cleanup, FailurePolicy::WarnOnly));
    assert(cleanup@.map_values(|a: String| a@) =~= seq!["cleanup"@]);
    assert(plan_view(plan@) =~= cleanup_plan());
    plan
}

} // verus!
