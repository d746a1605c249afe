//! External command steps and how their results are classified.
use vstd::prelude::*;

verus! {

/// What a failed step means for the run it belongs to.
#[derive(Clone, Copy, Debug, PartialEq, Eq, Structural)]
pub enum FailurePolicy {
    /// Any failure is a hard error that ends the run.
    Abort,
    /// A failure whose standard error reports that the package is already
    /// installed counts as success; any other failure ends the run.
    TolerateAlreadyInstalled,
    /// A failure is reported as a warning and the run goes on.
    WarnOnly,
}

/// One external program invocation and its failure policy.
#[derive(Clone, Debug)]
pub struct Step {
    pub program: String,
    pub args: Vec<String>,
    pub policy: FailurePolicy,
}

/// The mathematical form of a step.
pub struct StepView {
    pub program: Seq<char>,
    pub args: Seq<Seq<char>>,
    pub policy: FailurePolicy,
}

impl View for Step {
    type V = StepView;

    open spec fn view(&self) -> StepView {
        StepView { program: self.program@, args: self.args@.map_values(|a: String| a@), policy: self.policy }
    }
}

/// What an external invocation reported: whether it exited successfully, and
/// its captured standard error.
#[derive(Clone, Debug)]
pub struct CommandResult {
    pub success: bool,
    pub stderr: String,
}

impl View for CommandResult {
    type V = (bool, Seq<char>);

    open spec fn view(&self) -> (bool, Seq<char>) {
        (self.success, self.stderr@)
    }
}

/// How a single step's result is taken by the run.
#[derive(Clone, Debug)]
pub enum Outcome {
    Succeeded,
    /// The step failed in a way its policy accepts as success.
    Tolerated,
    /// The step failed; the run goes on. Holds the captured standard error.
    Warning(String),
    /// The step failed; the run ends. Holds the captured standard error.
    Failure(String),
}

/// The marker that the package manager writes when a package is present.
pub open spec fn already_installed_marker() -> Seq<char> {
    "already installed"@
}

/// `needle` occurs in `hay` as a contiguous run of characters.
pub open spec fn has_substring(hay: Seq<char>, needle: Seq<char>) -> bool {
    exists|i: int| 0 <= i && i + needle.len() <= hay.len() && #[trigger] hay.subrange(i, i + needle.len()) == needle
}

/// The step's result is a hard error under its policy.
pub open spec fn is_hard_failure(policy: FailurePolicy, success: bool, stderr: Seq<char>) -> bool {
    !success && match policy {
        FailurePolicy::Abort => true,
        FailurePolicy::TolerateAlreadyInstalled => !has_substring(stderr, already_installed_marker()),
        FailurePolicy::WarnOnly => false,
    }
}

/// The mathematical form of a plan of steps.
pub open spec fn plan_view(steps: Seq<Step>) -> Seq<StepView> {
    steps.map_values(|s: Step| s@)
}

/// Step `i` of `plan` fails hard when it reports `results[i]`.
pub open spec fn fails_at(plan: Seq<StepView>, results: Seq<(bool, Seq<char>)>, i: int) -> bool {
    is_hard_failure(plan[i].policy, results[i].0, results[i].1)
}

/// Run against `results`, the plan invokes every step and ends without a
/// hard error (the `i`-th invocation reports `results[i]`).
pub open spec fn completes(plan: Seq<StepView>, results: Seq<(bool, Seq<char>)>) -> bool {
    &&& results.len() >= plan.len()
    &&& forall|i: int| 0 <= i < plan.len() ==> !#[trigger] fails_at(plan, results, i)
}

/// Run against `results`, the plan stops with a hard error at step `i`:
/// steps `0..=i` were invoked and no later one is.
pub open spec fn halts_at(plan: Seq<StepView>, results: Seq<(bool, Seq<char>)>, i: int) -> bool {
    &&& 0 <= i < plan.len()
    &&& i < results.len()
    &&& fails_at(plan, results, i)
    &&& forall|j: int| 0 <= j < i ==> !#[trigger] fails_at(plan, results, j)
}

/// What a step's result means under `policy`.
pub open spec fn classify_spec(policy: FailurePolicy, result: CommandResult) -> Outcome {
    if result.success {
        Outcome::Succeeded
    } else {
        match policy {
            FailurePolicy::Abort => Outcome::Failure(result.stderr),
            FailurePolicy::TolerateAlreadyInstalled => if has_substring(result.stderr@, already_installed_marker()) {
                Outcome::Tolerated
            } else {
                Outcome::Failure(result.stderr)
            },
            FailurePolicy::WarnOnly => Outcome::Warning(result.stderr),
        }
    }
}

/// Relies on `str::contains` with a `&str` pattern: true exactly when the
/// pattern occurs as a sub-slice of the string.
#[verifier::external_body]
fn str_contains(hay: &str, needle: &str) -> (r: bool)
    ensures
        r == has_substring(hay@, needle@),
{
    hay.contains(needle)
}

/// Whether captured standard error reports that a package is already present.
pub fn is_already_installed(stderr: &str) -> (r: bool)
    ensures
        r == has_substring(stderr@, already_installed_marker()),
{
    str_contains(stderr, "already installed")
}

/// Decides what a step's result means under the step's policy.
pub fn classify(policy: FailurePolicy, result: &CommandResult) -> (o: Outcome)
    ensures
        o == classify_spec(policy, *result),
        (o is Failure) == is_hard_failure(policy, result.success, result.stderr@),
{
    if result.success {
        return Outcome::Succeeded;
    }
    match policy {
        FailurePolicy::Abort => Outcome::Failure(result.stderr.clone()),
        FailurePolicy::TolerateAlreadyInstalled => {
            if is_already_installed(result.stderr.as_str()) {
                Outcome::Tolerated
            } else {
                Outcome::Failure(result.stderr.clone())
            }
        },
        FailurePolicy::WarnOnly => Outcome::Warning(result.stderr.clone()),
    }
}

/// A run of a plan in progress. The caller asks for the next step, invokes it,
/// and records the result; the run stops at the first hard error.
pub struct Session {
    steps: Vec<Step>,
    position: usize,
    failed: bool,
    results: Ghost<Seq<(bool, Seq<char>)>>,
}

impl Session {
    /// The steps of the run, in order.
    pub closed spec fn plan(&self) -> Seq<StepView> {
        plan_view(self.steps@)
    }

    /// The results recorded so far, one for each invoked step.
    pub closed spec fn history(&self) -> Seq<(bool, Seq<char>)> {
        self.results@
    }

    /// The index of the step that is to run next (or that failed).
    pub closed spec fn position(&self) -> nat {
        self.position as nat
    }

    /// The run has stopped at a hard error.
    pub closed spec fn failed(&self) -> bool {
        self.failed
    }

    /// Every step before the position passed; a failed run failed at it.
    pub closed spec fn wf(&self) -> bool {
        &&& self.position <= self.steps.len()
        &&& self.results@.len() == self.position + if self.failed { 1int } else { 0int }
        &&& forall|j: int| 0 <= j < self.position ==> !#[trigger] fails_at(self.plan(), self.results@, j)
        &&& self.failed ==> self.position < self.steps.len() && fails_at(self.plan(), self.results@, self.position as int)
    }

    /// The run has invoked every step without a hard error.
    pub open spec fn spec_succeeded(&self) -> bool {
        !self.failed() && self.position() == self.plan().len()
    }

    /// Starts a run of `steps`; nothing has been invoked yet.
    pub fn new(steps: Vec<Step>) -> (s: Session)
        ensures
            s.wf(),
            s.plan() == plan_view(steps@),
            s.history() == Seq::<(bool, Seq<char>)>::empty(),
            s.position() == 0,
            !s.failed(),
    {
        Session { steps, position: 0, failed: false, results: Ghost(Seq::empty()) }
    }

    /// The index of the step to invoke next, or `None` once the run is over.
    pub fn next_step(&self) -> (r: Option<usize>)
        requires
            self.wf(),
        ensures
            r == (if !self.failed() && self.position() < self.plan().len() {
                Some(self.position() as usize)
            } else {
                None
            }),
    {
        if !self.failed && self.position < self.steps.len() {
            Some(self.position)
        } else {
            None
        }
    }

    /// The step at index `i` of the plan.
    pub fn step(&self, i: usize) -> (r: &Step)
        requires
            i < self.plan().len(),
        ensures
            r@ == self.plan()[i as int],
    {
        &self.steps[i]
    }

    /// Whether the run invoked every step without a hard error.
    pub fn succeeded(&self) -> (r: bool)
        ensures
            r == self.spec_succeeded(),
    {
        !self.failed && self.position == self.steps.len()
    }

    /// Whether the run stopped at a hard error.
    pub fn has_failed(&self) -> (r: bool)
        ensures
            r == self.failed(),
    {
        self.failed
    }

    /// Records the result of the step that `next_step` named, and says what
    /// it means: a hard error ends the run, anything else moves it on.
    pub fn record(&mut self, result: &CommandResult) -> (o: Outcome)
        requires
            old(self).wf(),
            !old(self).failed(),
            old(self).position() < old(self).plan().len(),
        ensures
            final(self).wf(),
            final(self).plan() == old(self).plan(),
            final(self).history() == old(self).history().push(result@),
            o == classify_spec(old(self).plan()[old(self).position() as int].policy, *result),
            final(self).failed() == (o is Failure),
            final(self).failed() ==> final(self).position() == old(self).position(),
            !final(self).failed() ==> final(self).position() == old(self).position() + 1,
    {
        let o = classify(self.steps[self.position].policy, result);
        proof {
            self.results@ = self.results@.push(result@);
        }
        if let Outcome::Failure(_) = o {
            self.failed = true;
        } else {
            self.position = self.position + 1;
        }
        proof {
            let p = old(self).plan()[old(self).position() as int].policy;
            assert(p == old(self).steps@[old(self).position() as int].policy);
            assert(self.plan() == old(self).plan());
            assert((o is Failure) == is_hard_failure(p, result.success, result.stderr@));
            assert forall|j: int| 0 <= j < self.position implies !#[trigger] fails_at(self.plan(), self.results@, j) by {
                assert(self.results@[j] == old(self).results@.push(result@)[j]);
                if j < old(self).position {
                    assert(!fails_at(old(self).plan(), old(self).results@, j));
                }
            }
        }
        o
    }
}

/// A session's record matches the whole-run model: while it runs, every step
/// so far passed; once over, it stopped at a hard error or completed the plan.
pub proof fn session_follows_run_model(s: &Session)
    requires
        s.wf(),
    ensures
        s.failed() ==> halts_at(s.plan(), s.history(), s.position() as int),
        s.spec_succeeded() ==> completes(s.plan(), s.history()),
        s.history().len() == s.position() + if s.failed() { 1int } else { 0int },
{
}

} // verus!
