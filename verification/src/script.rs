//! A command of the installer is a script: a list of steps, each an outside
//! action (run a program, write a file, set a config entry, ...) and what a
//! failure of that action means. The library decides, from the outcomes of the
//! steps run so far, whether to run the next step or what the command answers;
//! the caller performs the actions and reports their outcomes.
use vstd::prelude::*;

use crate::text::views;

verus! {

/// An action that the caller performs.
pub enum Action {
    /// Run `program` with `args`; with `stdout_to`, its standard output goes to
    /// a newly created file at that path; with `show_output`, the caller echoes
    /// its standard output, byte by byte, to its own.
    Run { program: String, args: Vec<String>, stdout_to: Option<String>, show_output: bool },
    /// Create (or truncate) the file at `path` and write `bytes` into it; the
    /// action fails when the file cannot be created.
    WriteFile { path: String, bytes: Vec<u8> },
    /// Set `name` to `value` in the user's config file.
    SetConfig { name: String, value: String },
    /// Copy the file `from` to `to`.
    CopyFile { from: String, to: String },
    /// Succeeds when something exists at `path`.
    CheckExists { path: String },
    /// Print `text` and a newline on standard output.
    Print { text: String },
    /// Read the config file at `path` as text (no text when it cannot be
    /// read), print each of its entries as `read line: name=value`, and give
    /// the text as the outcome's detail.
    ReadConfig { path: String },
}

/// What a failure of a step means.
pub enum OnFailure {
    /// The failure is ignored and the script goes on.
    Continue,
    /// The script stops and answers the prefix followed by the failure's detail.
    Report(String),
    /// The script stops and answers this text.
    Stop(String),
}

/// One step of a script.
pub struct Step {
    pub action: Action,
    pub on_failure: OnFailure,
}

/// What a script that ran to its end answers.
pub enum Ending {
    /// This text.
    Message(String),
    /// The detail of the outcome of the step at this index.
    OutputOf(usize),
}

/// A command of the installer.
pub struct Script {
    pub steps: Vec<Step>,
    pub ending: Ending,
}

/// How an action went: whether it succeeded, and its detail (for a program,
/// the text the caller reports of it; for a file, the error's text).
pub struct Outcome {
    pub success: bool,
    pub detail: String,
}

/// Where a script stands.
#[derive(PartialEq, Eq, Debug)]
pub enum Progress {
    /// The step at this index is to be run next.
    Next(usize),
    /// The script is over: `Ok` with its answer when it ran to its end, `Err`
    /// with the answer of the step that stopped it.
    Done(Result<String, String>),
}

pub enum ActionView {
    Run { program: Seq<char>, args: Seq<Seq<char>>, stdout_to: Option<Seq<char>>, show_output: bool },
    WriteFile { path: Seq<char>, bytes: Seq<u8> },
    SetConfig { name: Seq<char>, value: Seq<char> },
    CopyFile { from: Seq<char>, to: Seq<char> },
    CheckExists { path: Seq<char> },
    Print { text: Seq<char> },
    ReadConfig { path: Seq<char> },
}

pub enum OnFailureView {
    Continue,
    Report(Seq<char>),
    Stop(Seq<char>),
}

pub struct StepView {
    pub action: ActionView,
    pub on_failure: OnFailureView,
}

pub enum EndingView {
    Message(Seq<char>),
    OutputOf(nat),
}

pub struct ScriptView {
    pub steps: Seq<StepView>,
    pub ending: EndingView,
}

pub struct OutcomeView {
    pub success: bool,
    pub detail: Seq<char>,
}

pub open spec fn option_view(o: Option<String>) -> Option<Seq<char>> {
    match o {
        Some(s) => Some(s@),
        None => None,
    }
}

impl View for Action {
    type V = ActionView;

    open spec fn view(&self) -> ActionView {
        match self {
            Action::Run { program, args, stdout_to, show_output } => ActionView::Run {
                program: program@,
                args: views(args@),
                stdout_to: option_view(*stdout_to),
                show_output: *show_output,
            },
            Action::WriteFile { path, bytes } => ActionView::WriteFile { path: path@, bytes: bytes@ },
            Action::SetConfig { name, value } => ActionView::SetConfig { name: name@, value: value@ },
            Action::CopyFile { from, to } => ActionView::CopyFile { from: from@, to: to@ },
            Action::CheckExists { path } => ActionView::CheckExists { path: path@ },
            Action::Print { text } => ActionView::Print { text: text@ },
            Action::ReadConfig { path } => ActionView::ReadConfig { path: path@ },
        }
    }
}

impl View for OnFailure {
    type V = OnFailureView;

    open spec fn view(&self) -> OnFailureView {
        match self {
            OnFailure::Continue => OnFailureView::Continue,
            OnFailure::Report(p) => OnFailureView::Report(p@),
            OnFailure::Stop(m) => OnFailureView::Stop(m@),
        }
    }
}

impl View for Step {
    type V = StepView;

    open spec fn view(&self) -> StepView {
        StepView { action: self.action@, on_failure: self.on_failure@ }
    }
}

impl View for Ending {
    type V = EndingView;

    open spec fn view(&self) -> EndingView {
        match self {
            Ending::Message(m) => EndingView::Message(m@),
            Ending::OutputOf(i) => EndingView::OutputOf(*i as nat),
        }
    }
}

impl View for Script {
    type V = ScriptView;

    open spec fn view(&self) -> ScriptView {
        ScriptView { steps: self.steps@.map_values(|s: Step| s@), ending: self.ending@ }
    }
}

impl View for Outcome {
    type V = OutcomeView;

    open spec fn view(&self) -> OutcomeView {
        OutcomeView { success: self.success, detail: self.detail@ }
    }
}

pub open spec fn outcome_views(v: Seq<Outcome>) -> Seq<OutcomeView> {
    v.map_values(|o: Outcome| o@)
}

/// What an outcome of a step decides: nothing when the step succeeded or its
/// failure is ignored; otherwise the script's (failing) answer.
pub open spec fn verdict(on_failure: OnFailureView, outcome: OutcomeView) -> Option<Seq<char>> {
    if outcome.success {
        None
    } else {
        match on_failure {
            OnFailureView::Continue => None,
            OnFailureView::Report(prefix) => Some(prefix + outcome.detail),
            OnFailureView::Stop(message) => Some(message),
        }
    }
}

/// The answer of a script that ran to its end.
pub open spec fn ending_text(ending: EndingView, outcomes: Seq<OutcomeView>) -> Seq<char> {
    match ending {
        EndingView::Message(m) => m,
        EndingView::OutputOf(i) => outcomes[i as int].detail,
    }
}

/// The answer of the script from step `at` on, given the outcomes of its steps
/// (`outcomes[i]` is that of step `i`): `None` while it still has a step to run
/// whose outcome is not known.
pub open spec fn run_from(s: ScriptView, outcomes: Seq<OutcomeView>, at: nat) -> Option<
    Result<Seq<char>, Seq<char>>,
>
    decreases s.steps.len() - at,
{
    if at >= s.steps.len() {
        Some(Ok(ending_text(s.ending, outcomes)))
    } else if at >= outcomes.len() {
        None
    } else {
        match verdict(s.steps[at as int].on_failure, outcomes[at as int]) {
            Some(answer) => Some(Err(answer)),
            None => run_from(s, outcomes, at + 1),
        }
    }
}

/// The answer of the script given the outcomes of its steps so far.
pub open spec fn run(s: ScriptView, outcomes: Seq<OutcomeView>) -> Option<Result<Seq<char>, Seq<char>>> {
    run_from(s, outcomes, 0)
}

/// A script is well formed when a reported output is that of one of its steps.
pub open spec fn well_formed(s: ScriptView) -> bool {
    match s.ending {
        EndingView::OutputOf(i) => i < s.steps.len(),
        EndingView::Message(_) => true,
    }
}

pub open spec fn result_view(r: Result<String, String>) -> Result<Seq<char>, Seq<char>> {
    match r {
        Ok(m) => Ok(m@),
        Err(m) => Err(m@),
    }
}

pub open spec fn progress_matches(p: Progress, s: ScriptView, outcomes: Seq<OutcomeView>) -> bool {
    match p {
        Progress::Next(i) => run(s, outcomes) is None && i == outcomes.len(),
        Progress::Done(r) => run(s, outcomes) == Some(result_view(r)),
    }
}

impl Script {
    /// Where the script stands once the steps before `history.len()` have run
    /// with these outcomes: the index of the next step to run, or its answer.
    pub fn progress(&self, history: &Vec<Outcome>) -> (p: Progress)
        requires
            well_formed(self@),
            history.len() <= self.steps.len(),
        ensures
            progress_matches(p, self@, outcome_views(history@)),
            // the first step whose failure counts decides the answer
            forall|i: int|
                0 <= i < history.len() && (forall|j: int|
                    0 <= j < i ==> history@[j].success || (#[trigger] self@.steps[j]).on_failure is Continue)
                    && !history@[i].success && (#[trigger] self@.steps[i]).on_failure is Report ==> (p matches Progress::Done(
                    Err(a),
                ) && a@ == self@.steps[i].on_failure->Report_0 + history@[i].detail@),
            forall|i: int|
                0 <= i < history.len() && (forall|j: int|
                    0 <= j < i ==> history@[j].success || (#[trigger] self@.steps[j]).on_failure is Continue)
                    && !history@[i].success && (#[trigger] self@.steps[i]).on_failure is Stop ==> (p matches Progress::Done(
                    Err(a),
                ) && a@ == self@.steps[i].on_failure->Stop_0),
            // while no failure counts, the next step runs, and after the last the ending answers
            (forall|j: int|
                0 <= j < history.len() ==> history@[j].success || (#[trigger] self@.steps[j]).on_failure is Continue)
                ==> if history.len() < self.steps.len() {
                p == Progress::Next(history.len())
            } else {
                p matches Progress::Done(Ok(a)) && a@ == match self@.ending {
                    EndingView::Message(m) => m,
                    EndingView::OutputOf(k) => history@[k as int].detail@,
                }
            },
    {
        proof {
            let sv = self@;
            let hv = outcome_views(history@);
            assert forall|i: int|
                0 <= i < history.len() && (forall|j: int|
                    0 <= j < i ==> history@[j].success || (#[trigger] sv.steps[j]).on_failure is Continue)
                    && !history@[i].success && !((#[trigger] sv.steps[i]).on_failure is Continue) implies run(sv, hv)
                == Some(Err::<Seq<char>, Seq<char>>(
                match sv.steps[i].on_failure {
                    OnFailureView::Report(pre) => pre + history@[i].detail@,
                    OnFailureView::Stop(m) => m,
                    OnFailureView::Continue => Seq::<char>::empty(),
                },
            )) by {
                assert forall|j: int| 0 <= j < i implies hv[j].success || (#[trigger] sv.steps[j]).on_failure is Continue by {
                    assert(hv[j] == history@[j]@);
                }
                assert(hv[i] == history@[i]@);
                lemma_run_first_failure(sv, hv, i);
            }
            if forall|j: int|
                0 <= j < history.len() ==> history@[j].success || (#[trigger] sv.steps[j]).on_failure is Continue {
                assert forall|j: int| 0 <= j < hv.len() && j < sv.steps.len() implies hv[j].success || (#[trigger] sv.steps[j]).on_failure is Continue by {
                    assert(hv[j] == history@[j]@);
                }
                lemma_run_passes(sv, hv);
                match sv.ending {
                    EndingView::OutputOf(k) => {
                        if history.len() >= self.steps.len() {
                            assert(hv[k as int] == history@[k as int]@);
                        }
                    },
                    EndingView::Message(_) => {},
                }
            }
        }
        self.progress_of(history)
    }

    fn progress_of(&self, history: &Vec<Outcome>) -> (p: Progress)
        requires
            well_formed(self@),
            history.len() <= self.steps.len(),
        ensures
            progress_matches(p, self@, outcome_views(history@)),
    {
        let ghost sv = self@;
        let ghost hv = outcome_views(history@);
        let n = history.len();
        let mut i: usize = 0;
        while i < n
            invariant
                sv == self@,
                hv == outcome_views(history@),
                n == history.len(),
                n <= self.steps.len(),
                i <= n,
                run_from(sv, hv, 0) == run_from(sv, hv, i as nat),
            decreases n - i,
        {
            let step = &self.steps[i];
            let outcome = &history[i];
            proof {
                assert(sv.steps[i as int] == step@);
                assert(hv[i as int] == outcome@);
            }
            if !outcome.success {
                match &step.on_failure {
                    OnFailure::Continue => {},
                    OnFailure::Report(prefix) => {
                        let mut answer = prefix.clone();
                        answer.append(outcome.detail.as_str());
                        return Progress::Done(Err(answer));
                    },
                    OnFailure::Stop(message) => {
                        return Progress::Done(Err(message.clone()));
                    },
                }
            }
            i = i + 1;
        }
        if n < self.steps.len() {
            Progress::Next(n)
        } else {
            match &self.ending {
                Ending::Message(m) => Progress::Done(Ok(m.clone())),
                Ending::OutputOf(k) => {
                    proof {
                        assert(hv[*k as int] == history@[*k as int]@);
                    }
                    Progress::Done(Ok(history[*k].detail.clone()))
                },
            }
        }
    }
}

/// The first step whose failure counts decides the answer: when every earlier
/// step succeeded or has its failures ignored, and this step failed, the
/// script answers the step's prefix followed by the failure's detail (or its
/// fixed text), whatever the later outcomes.
pub proof fn lemma_run_first_failure(s: ScriptView, outcomes: Seq<OutcomeView>, i: int)
    requires
        0 <= i < s.steps.len(),
        i < outcomes.len(),
        forall|j: int| 0 <= j < i ==> outcomes[j].success || (#[trigger] s.steps[j]).on_failure is Continue,
        !outcomes[i].success,
        !(s.steps[i].on_failure is Continue),
    ensures
        run(s, outcomes) == Some(
            Err::<Seq<char>, Seq<char>>(
                match s.steps[i].on_failure {
                    OnFailureView::Report(prefix) => prefix + outcomes[i].detail,
                    OnFailureView::Stop(message) => message,
                    OnFailureView::Continue => Seq::<char>::empty(),
                },
            ),
        ),
{
    lemma_run_from_skips(s, outcomes, 0, i as nat);
}

/// Steps that pass are skipped.
proof fn lemma_run_from_skips(s: ScriptView, outcomes: Seq<OutcomeView>, at: nat, to: nat)
    requires
        at <= to <= s.steps.len(),
        to <= outcomes.len(),
        forall|j: int| 0 <= j < to ==> outcomes[j].success || (#[trigger] s.steps[j]).on_failure is Continue,
    ensures
        run_from(s, outcomes, at) == run_from(s, outcomes, to),
    decreases to - at,
{
    if at < to {
        assert(outcomes[at as int].success || s.steps[at as int].on_failure is Continue);
        lemma_run_from_skips(s, outcomes, at + 1, to);
    }
}

/// While no failure counts, a script has no answer until every step has run,
/// and then it answers its ending.
pub proof fn lemma_run_passes(s: ScriptView, outcomes: Seq<OutcomeView>)
    requires
        forall|j: int|
            0 <= j < outcomes.len() && j < s.steps.len() ==> outcomes[j].success || (#[trigger] s.steps[j]).on_failure is Continue,
    ensures
        outcomes.len() < s.steps.len() ==> run(s, outcomes) is None,
        outcomes.len() >= s.steps.len() ==> run(s, outcomes) == Some(
            Ok::<Seq<char>, Seq<char>>(ending_text(s.ending, outcomes)),
        ),
{
    let n = if outcomes.len() < s.steps.len() { outcomes.len() } else { s.steps.len() };
    lemma_run_from_skips(s, outcomes, 0, n);
}

/// A script whose steps all succeed answers its ending.
pub proof fn lemma_run_all_succeed(s: ScriptView, outcomes: Seq<OutcomeView>)
    requires
        outcomes.len() >= s.steps.len(),
        forall|i: int| 0 <= i < s.steps.len() ==> (#[trigger] outcomes[i]).success,
    ensures
        run(s, outcomes) == Some(Ok::<Seq<char>, Seq<char>>(ending_text(s.ending, outcomes))),
{
    lemma_run_from_all_succeed(s, outcomes, 0);
}

proof fn lemma_run_from_all_succeed(s: ScriptView, outcomes: Seq<OutcomeView>, at: nat)
    requires
        outcomes.len() >= s.steps.len(),
        forall|i: int| 0 <= i < s.steps.len() ==> (#[trigger] outcomes[i]).success,
    ensures
        run_from(s, outcomes, at) == Some(Ok::<Seq<char>, Seq<char>>(ending_text(s.ending, outcomes))),
    decreases s.steps.len() - at,
{
    if at < s.steps.len() {
        assert(outcomes[at as int].success);
        lemma_run_from_all_succeed(s, outcomes, at + 1);
    }
}

/// A failure of a step whose failures are ignored never changes what the
/// script answers, unless that step's output is the answer.
pub proof fn lemma_run_ignores_continue_failures(
    s: ScriptView,
    outcomes: Seq<OutcomeView>,
    i: int,
    other: OutcomeView,
)
    requires
        0 <= i < s.steps.len(),
        i < outcomes.len(),
        s.steps[i].on_failure == OnFailureView::Continue,
        s.ending != EndingView::OutputOf(i as nat),
        well_formed(s),
    ensures
        run(s, outcomes.update(i, other)) == run(s, outcomes),
{
    lemma_run_from_ignores(s, outcomes, i, other, 0);
}

proof fn lemma_run_from_ignores(s: ScriptView, outcomes: Seq<OutcomeView>, i: int, other: OutcomeView, at: nat)
    requires
        0 <= i < s.steps.len(),
        i < outcomes.len(),
        s.steps[i].on_failure == OnFailureView::Continue,
        s.ending != EndingView::OutputOf(i as nat),
        well_formed(s),
        at <= outcomes.len(),
    ensures
        run_from(s, outcomes.update(i, other), at) == run_from(s, outcomes, at),
    decreases s.steps.len() - at,
{
    let u = outcomes.update(i, other);
    assert(u.len() == outcomes.len());
    if at < s.steps.len() && at < outcomes.len() {
        lemma_run_from_ignores(s, outcomes, i, other, at + 1);
        if at as int != i {
            assert(u[at as int] == outcomes[at as int]);
        } else {
            assert(verdict(s.steps[at as int].on_failure, u[at as int]) is None);
            assert(verdict(s.steps[at as int].on_failure, outcomes[at as int]) is None);
        }
    } else if at >= s.steps.len() {
        match s.ending {
            EndingView::OutputOf(k) => {
                if k < outcomes.len() {
                    assert(u[k as int] == outcomes[k as int]);
                }
            },
            EndingView::Message(_) => {},
        }
    }
}

} // verus!
