//! The driver: which stage of the pipeline comes next, what is reported on the
//! way, and with which status the process ends.
//!
//! The driver itself reads nothing and runs nothing. It is a state machine:
//! [`step`] takes the stage the run is in and the event that just happened, and
//! answers with the next stage and the actions to perform, in order. Whoever
//! runs the pipeline performs them and comes back with the next event.

use vstd::prelude::*;

verus! {

/// How the process ends. There is no fifth way.
#[derive(Debug, Clone, Copy, PartialEq, Eq, Structural)]
pub enum ExitStatus {
    Success,
    InvalidArgs,
    StaticError,
    Panic,
}

impl ExitStatus {
    /// The exit code that the operating system sees.
    pub open spec fn code(self) -> i32 {
        match self {
            ExitStatus::Success => 0i32,
            ExitStatus::InvalidArgs => 1i32,
            ExitStatus::StaticError => 2i32,
            ExitStatus::Panic => 127i32,
        }
    }
}

impl From<ExitStatus> for i32 {
    fn from(status: ExitStatus) -> (code: i32) {
        match status {
            ExitStatus::Success => 0,
            ExitStatus::InvalidArgs => 1,
            ExitStatus::StaticError => 2,
            ExitStatus::Panic => 127,
        }
    }
}

impl vstd::std_specs::convert::FromSpecImpl<ExitStatus> for i32 {
    open spec fn obeys_from_spec() -> bool {
        true
    }

    open spec fn from_spec(status: ExitStatus) -> i32 {
        status.code()
    }
}

/// What the command line asked of a run.
#[derive(Debug, Clone, Copy, PartialEq, Eq, Structural)]
pub struct Args {
    /// Print the syntax tree once it is there.
    pub print_ast: bool,
    /// Print the program once it is there.
    pub print_program: bool,
    /// Analyse the script, but do not run it.
    pub check: bool,
}

/// At most this many diagnostics of one analysis are shown.
pub const MAX_REPORTED: usize = 20;

/// Where a run stands: what it is waiting for.
#[derive(Debug, Clone, Copy, PartialEq, Eq, Structural)]
pub enum Stage {
    /// Nothing has been asked for yet.
    Start,
    /// The source is being read.
    Reading,
    /// Syntax analysis is under way.
    Parsing,
    /// Semantic analysis is under way, on a tree that came with this many
    /// syntax errors.
    Resolving { syntax_errors: usize },
    /// The program is running.
    Evaluating,
    /// The run is over.
    Done { status: ExitStatus },
}

/// What happened outside the driver.
#[derive(Debug, Clone, Copy)]
pub enum Event {
    /// The run begins.
    Begin,
    /// The source was read in full, or reading failed.
    SourceRead { ok: bool },
    /// Syntax analysis gave a tree, and found this many errors on the way.
    Parsed { errors: usize },
    /// Semantic analysis gave a program (`None`), or rejected the tree with
    /// this many errors.
    Resolved { rejected: Option<usize> },
    /// The program ran to its end, or panicked.
    Evaluated { ok: bool },
}

/// What the driver wants done.
#[derive(Debug, Clone, Copy, PartialEq, Eq, Structural)]
pub enum Action {
    /// Name the input stream and read it in full.
    ReadSource,
    /// Show the panic that the failed read amounts to, at the position that
    /// stands for the whole file.
    ReportReadFailure,
    /// Analyse the syntax of the source.
    Parse,
    /// Show the first `count` syntax errors.
    ReportSyntaxErrors { count: usize },
    /// Print the syntax tree.
    PrintAst,
    /// Analyse the tree semantically.
    Resolve,
    /// Show the first `count` semantic errors.
    ReportSemanticErrors { count: usize },
    /// Print the program.
    PrintProgram,
    /// Run the program.
    Evaluate,
    /// Show the panic that ended the program.
    ReportPanic,
    /// End the process.
    Exit { status: ExitStatus },
}

/// How many of `errors` diagnostics are shown.
pub open spec fn shown(errors: usize) -> usize {
    if errors <= MAX_REPORTED {
        errors
    } else {
        MAX_REPORTED
    }
}

/// Whether `event` is what a run in `stage` is waiting for.
pub open spec fn answers(stage: Stage, event: Event) -> bool {
    match (stage, event) {
        (Stage::Start, Event::Begin) => true,
        (Stage::Reading, Event::SourceRead { .. }) => true,
        (Stage::Parsing, Event::Parsed { .. }) => true,
        (Stage::Resolving { .. }, Event::Resolved { .. }) => true,
        (Stage::Evaluating, Event::Evaluated { .. }) => true,
        _ => false,
    }
}

/// The stage that follows `stage` on `event`.
///
/// Each stage is entered only when the one before it went well enough: a
/// failed read ends the run at once; syntax errors do not keep semantic
/// analysis from running, but they end the run after it; a rejected tree ends
/// the run; a checked script is not run. An event that the stage is not
/// waiting for changes nothing.
pub open spec fn next_stage(args: Args, stage: Stage, event: Event) -> Stage {
    match (stage, event) {
        (Stage::Start, Event::Begin) => Stage::Reading,
        (Stage::Reading, Event::SourceRead { ok }) => if ok {
            Stage::Parsing
        } else {
            Stage::Done { status: ExitStatus::Panic }
        },
        (Stage::Parsing, Event::Parsed { errors }) => Stage::Resolving { syntax_errors: errors },
        (Stage::Resolving { syntax_errors }, Event::Resolved { rejected }) => if rejected is Some
            || syntax_errors > 0 {
            Stage::Done { status: ExitStatus::StaticError }
        } else if args.check {
            Stage::Done { status: ExitStatus::Success }
        } else {
            Stage::Evaluating
        },
        (Stage::Evaluating, Event::Evaluated { ok }) => if ok {
            Stage::Done { status: ExitStatus::Success }
        } else {
            Stage::Done { status: ExitStatus::Panic }
        },
        _ => stage,
    }
}

/// What is printed on `event`, in order, before the run goes on or ends.
pub open spec fn reports(args: Args, stage: Stage, event: Event) -> Seq<Action> {
    match (stage, event) {
        (Stage::Reading, Event::SourceRead { ok }) => if ok {
            seq![]
        } else {
            seq![Action::ReportReadFailure]
        },
        (Stage::Parsing, Event::Parsed { errors }) => {
            let diagnostics = if errors > 0 {
                seq![Action::ReportSyntaxErrors { count: shown(errors) }]
            } else {
                seq![]
            };
            if args.print_ast {
                diagnostics.push(Action::PrintAst)
            } else {
                diagnostics
            }
        },
        (Stage::Resolving { .. }, Event::Resolved { rejected }) => match rejected {
            Some(count) => if count > 0 {
                seq![Action::ReportSemanticErrors { count: shown(count) }]
            } else {
                seq![]
            },
            None => if args.print_program {
                seq![Action::PrintProgram]
            } else {
                seq![]
            },
        },
        (Stage::Evaluating, Event::Evaluated { ok }) => if ok {
            seq![]
        } else {
            seq![Action::ReportPanic]
        },
        _ => seq![],
    }
}

/// What a run that has just entered `stage` asks for.
pub open spec fn request(stage: Stage) -> Seq<Action> {
    match stage {
        Stage::Start => seq![],
        Stage::Reading => seq![Action::ReadSource],
        Stage::Parsing => seq![Action::Parse],
        Stage::Resolving { .. } => seq![Action::Resolve],
        Stage::Evaluating => seq![Action::Evaluate],
        Stage::Done { status } => seq![Action::Exit { status }],
    }
}

/// The actions that `event` calls for in `stage`: first what is printed, then
/// the request of the stage that follows. Nothing, if the stage is not waiting
/// for the event.
pub open spec fn actions(args: Args, stage: Stage, event: Event) -> Seq<Action> {
    if answers(stage, event) {
        reports(args, stage, event) + request(next_stage(args, stage, event))
    } else {
        seq![]
    }
}

/// The answer of the driver to one event.
#[derive(Debug, Clone, PartialEq, Eq)]
pub struct Step {
    /// The stage the run is in from now on.
    pub stage: Stage,
    /// What to do before the next event, in this order.
    pub actions: Vec<Action>,
}

/// The number of diagnostics to show out of `errors`.
fn limit(errors: usize) -> (count: usize)
    ensures
        count == shown(errors),
{
    if errors <= MAX_REPORTED {
        errors
    } else {
        MAX_REPORTED
    }
}

/// Takes a run from `stage` over `event`.
pub fn step(args: &Args, stage: Stage, event: Event) -> (step: Step)
    ensures
        step.stage == next_stage(*args, stage, event),
        step.actions@ == actions(*args, stage, event),
{
    let mut pending: Vec<Action> = Vec::new();
    let next = match (stage, event) {
        (Stage::Start, Event::Begin) => Stage::Reading,
        (Stage::Reading, Event::SourceRead { ok }) => {
            if ok {
                Stage::Parsing
            } else {
                pending.push(Action::ReportReadFailure);
                Stage::Done { status: ExitStatus::Panic }
            }
        },
        (Stage::Parsing, Event::Parsed { errors }) => {
            if errors > 0 {
                pending.push(Action::ReportSyntaxErrors { count: limit(errors) });
            }
            if args.print_ast {
                pending.push(Action::PrintAst);
            }
            Stage::Resolving { syntax_errors: errors }
        },
        (Stage::Resolving { syntax_errors }, Event::Resolved { rejected }) => {
            match rejected {
                Some(count) => {
                    if count > 0 {
                        pending.push(Action::ReportSemanticErrors { count: limit(count) });
                    }
                    Stage::Done { status: ExitStatus::StaticError }
                },
                None => {
                    if args.print_program {
                        pending.push(Action::PrintProgram);
                    }
                    if syntax_errors > 0 {
                        Stage::Done { status: ExitStatus::StaticError }
                    } else if args.check {
                        Stage::Done { status: ExitStatus::Success }
                    } else {
                        Stage::Evaluating
                    }
                },
            }
        },
        (Stage::Evaluating, Event::Evaluated { ok }) => {
            if ok {
                Stage::Done { status: ExitStatus::Success }
            } else {
                pending.push(Action::ReportPanic);
                Stage::Done { status: ExitStatus::Panic }
            }
        },
        _ => {
            return Step { stage, actions: pending };
        },
    };
    match next {
        Stage::Start => {},
        Stage::Reading => pending.push(Action::ReadSource),
        Stage::Parsing => pending.push(Action::Parse),
        Stage::Resolving { .. } => pending.push(Action::Resolve),
        Stage::Evaluating => pending.push(Action::Evaluate),
        Stage::Done { status } => pending.push(Action::Exit { status }),
    }
    Step { stage: next, actions: pending }
}

/// What the collaborators of one run come back with, each when it is asked.
/// A run that ends early never asks the later ones.
#[derive(Debug, Clone, Copy)]
pub struct Outcomes {
    /// Whether the source can be read.
    pub read_ok: bool,
    /// How many errors syntax analysis finds.
    pub syntax_errors: usize,
    /// `None` if semantic analysis gives a program, else the number of its
    /// errors.
    pub semantic_errors: Option<usize>,
    /// Whether the program runs to its end without a panic.
    pub eval_ok: bool,
}

/// The status a run with these outcomes ends with.
///
/// A source that cannot be read is a panic. A tree that semantic analysis
/// rejects, or that came with syntax errors, is a static error. What is left
/// succeeds if it is only checked, and else ends as its evaluation does.
pub open spec fn verdict(args: Args, outcomes: Outcomes) -> ExitStatus {
    if !outcomes.read_ok {
        ExitStatus::Panic
    } else if outcomes.semantic_errors is Some || outcomes.syntax_errors > 0 {
        ExitStatus::StaticError
    } else if args.check || outcomes.eval_ok {
        ExitStatus::Success
    } else {
        ExitStatus::Panic
    }
}

/// The event that a run in `stage` gets to see, given what the collaborators
/// come back with.
pub open spec fn answer(outcomes: Outcomes, stage: Stage) -> Event {
    match stage {
        Stage::Start => Event::Begin,
        Stage::Reading => Event::SourceRead { ok: outcomes.read_ok },
        Stage::Parsing => Event::Parsed { errors: outcomes.syntax_errors },
        Stage::Resolving { .. } => Event::Resolved { rejected: outcomes.semantic_errors },
        Stage::Evaluating => Event::Evaluated { ok: outcomes.eval_ok },
        Stage::Done { .. } => Event::Begin,
    }
}

/// The stage of a run after `events` events, each the answer to the stage
/// before it.
pub open spec fn stage_after(args: Args, outcomes: Outcomes, events: nat) -> Stage
    decreases events,
{
    if events == 0 {
        Stage::Start
    } else {
        let before = stage_after(args, outcomes, (events - 1) as nat);
        next_stage(args, before, answer(outcomes, before))
    }
}

/// All that a run was asked to do during its first `events` events.
pub open spec fn trace(args: Args, outcomes: Outcomes, events: nat) -> Seq<Action>
    decreases events,
{
    if events == 0 {
        seq![]
    } else {
        let before = stage_after(args, outcomes, (events - 1) as nat);
        trace(args, outcomes, (events - 1) as nat) + actions(
            args,
            before,
            answer(outcomes, before),
        )
    }
}

/// No run takes more than this many events.
pub const MAX_EVENTS: usize = 5;

/// Runs the pipeline on collaborators that come back with `outcomes`: the
/// status the process ends with, and all that was done on the way.
pub fn run(args: &Args, outcomes: &Outcomes) -> (end: (ExitStatus, Vec<Action>))
    ensures
        end.0 == verdict(*args, *outcomes),
        end.1@ == trace(*args, *outcomes, MAX_EVENTS as nat),
{
    let mut stage = Stage::Start;
    let mut log: Vec<Action> = Vec::new();
    let mut events: usize = 0;
    while events < MAX_EVENTS
        invariant
            events <= MAX_EVENTS,
            stage == stage_after(*args, *outcomes, events as nat),
            log@ == trace(*args, *outcomes, events as nat),
        decreases MAX_EVENTS - events,
    {
        let event = match stage {
            Stage::Start => Event::Begin,
            Stage::Reading => Event::SourceRead { ok: outcomes.read_ok },
            Stage::Parsing => Event::Parsed { errors: outcomes.syntax_errors },
            Stage::Resolving { .. } => Event::Resolved { rejected: outcomes.semantic_errors },
            Stage::Evaluating => Event::Evaluated { ok: outcomes.eval_ok },
            Stage::Done { .. } => Event::Begin,
        };
        let mut taken = step(args, stage, event);
        log.append(&mut taken.actions);
        stage = taken.stage;
        events = events + 1;
    }
    proof {
        lemma_run_ends(*args, *outcomes);
    }
    match stage {
        Stage::Done { status } => (status, log),
        _ => (ExitStatus::Panic, log),
    }
}

/// Every run is over after five events, and ends with its verdict.
pub proof fn lemma_run_ends(args: Args, outcomes: Outcomes)
    ensures
        stage_after(args, outcomes, MAX_EVENTS as nat) == (Stage::Done {
            status: verdict(args, outcomes),
        }),
{
    reveal_with_fuel(stage_after, 6);
}

/// A run that is over stays over: no event moves it, and nothing more is
/// asked for.
pub proof fn lemma_done_is_final(args: Args, status: ExitStatus, event: Event)
    ensures
        next_stage(args, Stage::Done { status }, event) == (Stage::Done { status }),
        actions(args, Stage::Done { status }, event) == Seq::<Action>::empty(),
{
}

/// A run asks for each thing when it enters the stage that waits for it, and
/// at no other time: the last action of a step is the request of the stage it
/// leads to, and no report is a request.
pub proof fn lemma_requests(args: Args, stage: Stage, event: Event, action: Action)
    requires
        actions(args, stage, event).contains(action),
    ensures
        answers(stage, event),
        action is ReadSource ==> next_stage(args, stage, event) is Reading,
        action is Parse ==> next_stage(args, stage, event) is Parsing,
        action is Resolve ==> next_stage(args, stage, event) is Resolving,
        action is Evaluate ==> next_stage(args, stage, event) is Evaluating,
        action is Exit ==> next_stage(args, stage, event) == (Stage::Done {
            status: action->status,
        }),
{
    let said = reports(args, stage, event);
    let asked = request(next_stage(args, stage, event));
    let at = choose|i: int| 0 <= i < (said + asked).len() && (said + asked)[i] == action;
    if at < said.len() {
        assert(said[at] == action);
    } else {
        assert(asked[at - said.len()] == action);
    }
}

/// The program is run only when nothing stands against it: evaluation is
/// entered from a semantic analysis that gave a program, for a tree without
/// syntax errors, in a run that is not a mere check.
pub proof fn lemma_evaluation_is_guarded(args: Args, stage: Stage, event: Event)
    requires
        answers(stage, event),
        next_stage(args, stage, event) is Evaluating,
    ensures
        stage == (Stage::Resolving { syntax_errors: 0 }),
        event matches Event::Resolved { rejected } && rejected is None,
        !args.check,
{
}

/// A script with a syntax error and a semantic error: semantic analysis is
/// still asked for, its errors are shown, the program is never run, and the run
/// ends as a static error.
pub proof fn lemma_static_errors_short_circuit(args: Args, outcomes: Outcomes)
    requires
        outcomes.read_ok,
        outcomes.syntax_errors > 0,
        outcomes.semantic_errors matches Some(count) && count > 0,
    ensures
        stage_after(args, outcomes, 4) == (Stage::Done { status: ExitStatus::StaticError }),
        trace(args, outcomes, 3).last() == Action::Resolve,
        trace(args, outcomes, 4) == trace(args, outcomes, 3) + seq![
            Action::ReportSemanticErrors { count: shown(outcomes.semantic_errors->0) },
            Action::Exit { status: ExitStatus::StaticError },
        ],
        forall|events: nat| !(#[trigger] stage_after(args, outcomes, events) is Evaluating),
{
    reveal_with_fuel(stage_after, 5);
    reveal_with_fuel(trace, 5);
    assert forall|events: nat| !(#[trigger] stage_after(args, outcomes, events) is Evaluating) by {
        lemma_stage_by_count(args, outcomes, events);
    }
}

/// Whether a run with these outcomes gets to run the program.
pub open spec fn runs_program(args: Args, outcomes: Outcomes) -> bool {
    &&& outcomes.read_ok
    &&& outcomes.syntax_errors == 0
    &&& outcomes.semantic_errors is None
    &&& !args.check
}

/// The stages come in their order, one event each, until the run is over; and
/// a run that is over has ended with its verdict.
pub proof fn lemma_stage_by_count(args: Args, outcomes: Outcomes, events: nat)
    ensures
        events == 0 ==> stage_after(args, outcomes, events) is Start,
        events == 1 ==> stage_after(args, outcomes, events) is Reading,
        events == 2 ==> stage_after(args, outcomes, events) == (if outcomes.read_ok {
            Stage::Parsing
        } else {
            Stage::Done { status: verdict(args, outcomes) }
        }),
        events == 3 ==> stage_after(args, outcomes, events) == (if outcomes.read_ok {
            Stage::Resolving { syntax_errors: outcomes.syntax_errors }
        } else {
            Stage::Done { status: verdict(args, outcomes) }
        }),
        events == 4 ==> stage_after(args, outcomes, events) == (if runs_program(args, outcomes) {
            Stage::Evaluating
        } else {
            Stage::Done { status: verdict(args, outcomes) }
        }),
        events >= 5 ==> stage_after(args, outcomes, events) == (Stage::Done {
            status: verdict(args, outcomes),
        }),
    decreases events,
{
    if events > 0 {
        lemma_stage_by_count(args, outcomes, (events - 1) as nat);
    }
}

/// The program is run in exactly the runs that [`runs_program`] names.
pub proof fn lemma_evaluated_iff(args: Args, outcomes: Outcomes)
    ensures
        runs_program(args, outcomes) <==> exists|events: nat| #[trigger]
            stage_after(args, outcomes, events) is Evaluating,
{
    if runs_program(args, outcomes) {
        lemma_stage_by_count(args, outcomes, 4);
        assert(stage_after(args, outcomes, 4) is Evaluating);
    }
    assert forall|events: nat| #[trigger]
        stage_after(args, outcomes, events) is Evaluating implies runs_program(args, outcomes) by {
        lemma_stage_by_count(args, outcomes, events);
    }
}

/// The four exit codes.
pub proof fn lemma_exit_codes(status: ExitStatus)
    ensures
        status.code() == 0 || status.code() == 1 || status.code() == 2 || status.code() == 127,
        status.code() == 0 <==> status == ExitStatus::Success,
{
}

} // verus!
