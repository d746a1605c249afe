//! The top-level operations, `apply` and `update`, as ordered plans, and the
//! properties that hold of every run of them.
use vstd::prelude::*;
use crate::command::{
    FailurePolicy, Step, StepView, already_installed_marker, completes, fails_at, halts_at, has_substring,
    plan_view,
};
use crate::config::{Configuration, check_flake, check_plan};
use crate::homebrew::{
    cleanup_homebrew, cleanup_plan, install_homebrew_packages, install_plan, names, update_homebrew, update_plan,
};
use crate::system::{SystemDefaults, activation_plan, apply_system_defaults, preference_plan, setup_activation_scripts};

verus! {

/// Preferences first, then activation steps, then formulae and casks.
pub open spec fn apply_plan(c: Configuration, d: SystemDefaults) -> Seq<StepView> {
    preference_plan(d) + activation_plan(c.vars.username@) + install_plan(
        names(c.homebrew_brews@),
        names(c.homebrew_casks@),
    )
}

/// Validation, then index refresh and upgrade, then best-effort cleanup.
pub open spec fn full_update_plan() -> Seq<StepView> {
    check_plan() + update_plan() + cleanup_plan()
}

/// The plan that converges the machine to `config` and `defaults`.
pub fn apply(config: &Configuration, defaults: &SystemDefaults) -> (r: Vec<Step>)
    ensures
        plan_view(r@) == apply_plan(*config, *defaults),
{
    let mut plan = apply_system_defaults(defaults);
    let mut activation = setup_activation_scripts(config.vars.username.as_str());
    let mut packages = install_homebrew_packages(config.homebrew_brews.as_slice(), config.homebrew_casks.as_slice());
    let ghost first = plan@;
    let ghost second = activation@;
    let ghost third = packages@;
    plan.append(&mut activation);
    plan.append(&mut packages);
    assert(plan@ == first + second + third);
    assert(plan_view(plan@) =~= plan_view(first) + plan_view(second) + plan_view(third));
    plan
}

/// The plan that validates the configuration and updates every package.
pub fn update() -> (r: Vec<Step>)
    ensures
        plan_view(r@) == full_update_plan(),
{
    let mut plan = check_flake();
    let mut upgrade = update_homebrew();
    let mut cleanup = cleanup_homebrew();
    let ghost first = plan@;
    let ghost second = upgrade@;
    let ghost third = cleanup@;
    plan.append(&mut upgrade);
    plan.append(&mut cleanup);
    assert(plan@ == first + second + third);
    assert(plan_view(plan@) =~= plan_view(first) + plan_view(second) + plan_view(third));
    plan
}

/// When step `k` fails hard, the run halts at the first failing step, which
/// is no later than `k`.
pub proof fn first_failure_exists(plan: Seq<StepView>, results: Seq<(bool, Seq<char>)>, k: int)
    requires
        0 <= k < plan.len(),
        k < results.len(),
        fails_at(plan, results, k),
    ensures
        exists|i: int| 0 <= i <= k && #[trigger] halts_at(plan, results, i),
    decreases k,
{
    if exists|j: int| 0 <= j < k && #[trigger] fails_at(plan, results, j) {
        let j = choose|j: int| 0 <= j < k && #[trigger] fails_at(plan, results, j);
        first_failure_exists(plan, results, j);
    } else {
        assert(halts_at(plan, results, k));
    }
}

/// Installing nothing invokes nothing: the plan for two empty lists is empty,
/// so its run completes without an invocation, whatever would be reported.
pub proof fn empty_install_invokes_nothing(results: Seq<(bool, Seq<char>)>)
    ensures
        install_plan(Seq::empty(), Seq::empty()).len() == 0,
        completes(install_plan(Seq::empty(), Seq::empty()), results),
{
    assert(install_plan(Seq::empty(), Seq::empty()) =~= Seq::<StepView>::empty());
}

/// An install step whose standard error reports the package as already
/// installed is never a hard error, whatever its exit status.
pub proof fn already_installed_is_not_an_error(
    brews: Seq<Seq<char>>,
    casks: Seq<Seq<char>>,
    results: Seq<(bool, Seq<char>)>,
    i: int,
)
    requires
        0 <= i < install_plan(brews, casks).len(),
        i < results.len(),
        has_substring(results[i].1, already_installed_marker()),
    ensures
        !fails_at(install_plan(brews, casks), results, i),
{
    let plan = install_plan(brews, casks);
    assert(plan[i].policy == FailurePolicy::TolerateAlreadyInstalled) by {
        if i >= brews.len() {
            assert(plan[i] == casks.map_values(|n: Seq<char>| crate::homebrew::cask_install(n))[i - brews.len()]);
        }
    }
}

/// An install step that fails for any other reason ends the run there: no
/// later install is invoked and the run does not complete.
pub proof fn install_failure_ends_the_run(
    brews: Seq<Seq<char>>,
    casks: Seq<Seq<char>>,
    results: Seq<(bool, Seq<char>)>,
    i: int,
)
    requires
        0 <= i < install_plan(brews, casks).len(),
        i < results.len(),
        forall|j: int| 0 <= j < i ==> !#[trigger] fails_at(install_plan(brews, casks), results, j),
        !results[i].0,
        !has_substring(results[i].1, already_installed_marker()),
    ensures
        halts_at(install_plan(brews, casks), results, i),
        !completes(install_plan(brews, casks), results),
{
    let plan = install_plan(brews, casks);
    assert(plan[i].policy == FailurePolicy::TolerateAlreadyInstalled) by {
        if i >= brews.len() {
            assert(plan[i] == casks.map_values(|n: Seq<char>| crate::homebrew::cask_install(n))[i - brews.len()]);
        }
    }
    assert(fails_at(plan, results, i));
}

/// In `apply`, every preference write comes before every package install;
/// when a preference write fails, the run halts at a preference write, so no
/// package install is invoked.
pub proof fn preferences_precede_packages(
    c: Configuration,
    d: SystemDefaults,
    results: Seq<(bool, Seq<char>)>,
    k: int,
)
    requires
        0 <= k < preference_plan(d).len(),
        k < results.len(),
        fails_at(apply_plan(c, d), results, k),
    ensures
        forall|j: int| 0 <= j < preference_plan(d).len() ==> (#[trigger] apply_plan(c, d)[j]).program == "defaults"@,
        forall|j: int|
            preference_plan(d).len() + activation_plan(c.vars.username@).len() <= j < apply_plan(c, d).len()
                ==> (#[trigger] apply_plan(c, d)[j]).program == "brew"@ && apply_plan(c, d)[j].args[0] == "install"@,
        exists|i: int|
            0 <= i <= k && #[trigger] halts_at(apply_plan(c, d), results, i) && forall|j: int|
                0 <= j <= i ==> (#[trigger] apply_plan(c, d)[j]).program == "defaults"@,
        !completes(apply_plan(c, d), results),
{
    let plan = apply_plan(c, d);
    let prefs = preference_plan(d);
    let head = prefs.len() + activation_plan(c.vars.username@).len();
    let brews = names(c.homebrew_brews@);
    let casks = names(c.homebrew_casks@);
    let installs = install_plan(brews, casks);
    assert forall|j: int| 0 <= j < prefs.len() implies (#[trigger] plan[j]).program == "defaults"@ by {
        assert(plan[j] == prefs[j]);
    }
    assert forall|j: int| head <= j < plan.len() implies (#[trigger] plan[j]).program == "brew"@ && plan[j].args[0]
        == "install"@ by {
        assert(plan[j] == installs[j - head]);
        if j - head >= brews.len() {
            assert(installs[j - head] == casks.map_values(|n: Seq<char>| crate::homebrew::cask_install(n))[j - head
                - brews.len()]);
        }
    }
    first_failure_exists(plan, results, k);
    let i = choose|i: int| 0 <= i <= k && #[trigger] halts_at(plan, results, i);
    assert(forall|j: int| 0 <= j <= i ==> (#[trigger] plan[j]).program == "defaults"@);
}

/// A failing cleanup never makes `update` fail: the cleanup step is never a
/// hard error, and whether the run completes does not depend on what cleanup
/// reports.
pub proof fn cleanup_never_fails_update(results: Seq<(bool, Seq<char>)>, cleanup: (bool, Seq<char>))
    requires
        results.len() >= full_update_plan().len(),
    ensures
        !fails_at(full_update_plan(), results, full_update_plan().len() - 1),
        completes(full_update_plan(), results) == completes(
            full_update_plan(),
            results.update(full_update_plan().len() - 1, cleanup),
        ),
{
    let plan = full_update_plan();
    let other = results.update(plan.len() - 1, cleanup);
    assert(plan.len() == 4);
    assert(plan[3].policy == FailurePolicy::WarnOnly);
    assert forall|j: int| 0 <= j < 3 implies #[trigger] fails_at(plan, results, j) == fails_at(plan, other, j) by {
        assert(other[j] == results[j]);
    }
    if completes(plan, results) {
        assert forall|j: int| 0 <= j < plan.len() implies !#[trigger] fails_at(plan, other, j) by {
            if j < 3 {
                assert(fails_at(plan, results, j) == fails_at(plan, other, j));
            }
        }
    }
    if completes(plan, other) {
        assert forall|j: int| 0 <= j < plan.len() implies !#[trigger] fails_at(plan, results, j) by {
            if j < 3 {
                assert(fails_at(plan, results, j) == fails_at(plan, other, j));
            }
        }
    }
}

/// Running `apply` again on a machine it already converged completes without
/// a hard error: each preference write (a plain overwrite) succeeds, and
/// each install either succeeds or reports the package as already installed.
pub proof fn converged_apply_completes(c: Configuration, d: SystemDefaults, results: Seq<(bool, Seq<char>)>)
    requires
        results.len() >= apply_plan(c, d).len(),
        forall|i: int|
            0 <= i < apply_plan(c, d).len() && (#[trigger] apply_plan(c, d)[i]).policy == FailurePolicy::Abort
                ==> results[i].0,
        forall|i: int|
            0 <= i < apply_plan(c, d).len() && (#[trigger] apply_plan(c, d)[i]).policy
                == FailurePolicy::TolerateAlreadyInstalled ==> results[i].0 || has_substring(
                results[i].1,
                already_installed_marker(),
            ),
    ensures
        completes(apply_plan(c, d), results),
{
    let plan = apply_plan(c, d);
    assert forall|i: int| 0 <= i < plan.len() implies !#[trigger] fails_at(plan, results, i) by {
        let _ = plan[i];
    }
}

} // verus!
