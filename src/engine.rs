use vstd::prelude::*;
use crate::context::{Context, cwd_key, cwd_of, substitution};
use crate::platform::OperatingSystem;
use crate::preflight::{Failure, FailureView};
use crate::script::{Command, CommandTypes, FallbackCommand, FallbackOptions, Options};
use crate::text::{cd_target, trim_of};

verus! {

/// A process launch: the command goes to the platform shell (`sh -c` or the
/// native command shell).
pub struct Invocation {
    /// The substituted command text.
    pub command: String,
    /// What the step does, shown before it runs.
    pub description: Option<String>,
    /// The working directory, when the context records one.
    pub cwd: Option<String>,
    /// The process shares the terminal's standard streams.
    pub interactive: bool,
    /// Standard output is collected and handed back.
    pub capture: bool,
}

/// An invocation, over text as sequences of characters.
pub struct InvocationView {
    pub command: Seq<char>,
    pub description: Option<Seq<char>>,
    pub cwd: Option<Seq<char>>,
    pub interactive: bool,
    pub capture: bool,
}

/// The characters of an optional text.
pub open spec fn text_of(o: Option<String>) -> Option<Seq<char>> {
    match o {
        Some(s) => Some(s@),
        None => None,
    }
}

impl View for Invocation {
    type V = InvocationView;

    open spec fn view(&self) -> InvocationView {
        InvocationView {
            command: self.command@,
            description: text_of(self.description),
            cwd: text_of(self.cwd),
            interactive: self.interactive,
            capture: self.capture,
        }
    }
}

/// The outside work the engine asks for next.
pub enum Action {
    /// Launch a process and report how it ended with `Event::Exited`.
    Run(Invocation),
    /// Resolve `target` against `base` (the process's own working directory
    /// when absent), canonicalize it, and report with `Event::Resolved`.
    /// `command` is the step's substituted command and `description` its
    /// description, shown before the change.
    ChangeDir {
        command: String,
        description: Option<String>,
        target: String,
        base: Option<String>,
    },
    /// Pause for `ms` milliseconds, then send `Event::Resumed`.
    Pause { ms: u64 },
    /// Start the concurrent unit of group `group` on `context`, a copy of the
    /// main context, then send `Event::Resumed`.
    Dispatch { group: usize, context: Context },
    /// Wait for every dispatched unit and report their results, in dispatch
    /// order, with `Event::Joined`.
    Join,
    /// The run is over, with this result.
    Finish(Result<(), Failure>),
}

/// An action, over views.
pub enum ActionView {
    Run(InvocationView),
    ChangeDir {
        command: Seq<char>,
        description: Option<Seq<char>>,
        target: Seq<char>,
        base: Option<Seq<char>>,
    },
    Pause { ms: u64 },
    Dispatch { group: nat, context: Map<Seq<char>, Seq<char>> },
    Join,
    Finish(Result<(), FailureView>),
}

/// The view of a result that carries a failure.
pub open spec fn result_view(r: Result<(), Failure>) -> Result<(), FailureView> {
    match r {
        Ok(()) => Ok(()),
        Err(f) => Err(f@),
    }
}

impl View for Action {
    type V = ActionView;

    open spec fn view(&self) -> ActionView {
        match self {
            Action::Run(i) => ActionView::Run(i@),
            Action::ChangeDir { command, description, target, base } => ActionView::ChangeDir {
                command: command@,
                description: text_of(*description),
                target: target@,
                base: text_of(*base),
            },
            Action::Pause { ms } => ActionView::Pause { ms: *ms },
            Action::Dispatch { group, context } => ActionView::Dispatch {
                group: *group as nat,
                context: context@,
            },
            Action::Join => ActionView::Join,
            Action::Finish(r) => ActionView::Finish(result_view(*r)),
        }
    }
}

/// The views of the results of several units.
pub open spec fn results_view(v: Seq<Result<(), Failure>>) -> Seq<Result<(), FailureView>> {
    v.map_values(|r: Result<(), Failure>| result_view(r))
}

/// What the host reports back after doing an action.
pub enum Event {
    /// A pause or a dispatch is done, or the run starts.
    Resumed,
    /// A process ended: its standard output on a successful exit (empty when
    /// not captured), else the cause of the failure.
    Exited(Result<String, String>),
    /// A directory change: the canonical directory, else the cause.
    Resolved(Result<String, String>),
    /// The results of the dispatched units, in dispatch order.
    Joined(Vec<Result<(), Failure>>),
}

/// An event, over views.
pub enum EventView {
    Resumed,
    Exited(Result<Seq<char>, Seq<char>>),
    Resolved(Result<Seq<char>, Seq<char>>),
    Joined(Seq<Result<(), FailureView>>),
}

/// The view of a result of text.
pub open spec fn text_result(r: Result<String, String>) -> Result<Seq<char>, Seq<char>> {
    match r {
        Ok(s) => Ok(s@),
        Err(s) => Err(s@),
    }
}

impl View for Event {
    type V = EventView;

    open spec fn view(&self) -> EventView {
        match self {
            Event::Resumed => EventView::Resumed,
            Event::Exited(r) => EventView::Exited(text_result(*r)),
            Event::Resolved(r) => EventView::Resolved(text_result(*r)),
            Event::Joined(v) => EventView::Joined(results_view(v@)),
        }
    }
}

/// Where the run stands with respect to group `next`.
#[derive(Debug, Clone, Copy, PartialEq, Eq, Structural)]
pub enum Phase {
    /// Group `next` has not started.
    Ready,
    /// The process of the step of group `next` runs.
    Launched,
    /// The directory change of the step of group `next` is being resolved.
    ChangingDir,
    /// Recovery step `index` of the failed step of group `next` runs.
    Recovering { index: usize },
    /// The pause after the step of group `next` runs.
    Pausing,
    /// The main flow is over; the dispatched units are awaited.
    Joining,
    /// The run is over.
    Finished,
}

/// The state of a run.
pub struct RunState {
    /// The step groups, in order.
    pub groups: Seq<CommandTypes>,
    /// The main context.
    pub context: Map<Seq<char>, Seq<char>>,
    /// The platform the runner is on, if it is one of the known ones.
    pub platform: Option<OperatingSystem>,
    /// The group in progress.
    pub next: int,
    /// Where group `next` stands.
    pub phase: Phase,
    /// The substituted command of the step in progress.
    pub current: Seq<char>,
    /// How many concurrent units have been dispatched.
    pub units: nat,
    /// The failure of the step in progress, or the one that stopped the run.
    pub failure: Option<FailureView>,
}

/// The options of a step, or the defaults.
pub open spec fn options_or_default(o: Option<Options>) -> (bool, Option<u64>, bool, Option<
    OperatingSystem,
>) {
    match o {
        Some(opts) => (opts.proceed_on_failure, opts.delay_ms, opts.interactive, opts.operating_system),
        None => (false, None, false, None),
    }
}

/// Whether a recovery step shares the terminal's standard streams.
pub open spec fn recovery_interactive(o: Option<FallbackOptions>) -> bool {
    match o {
        Some(opts) => opts.interactive,
        None => false,
    }
}

/// The step is restricted to a platform other than the one the runner is on.
pub open spec fn skipped(step: Command, platform: Option<OperatingSystem>) -> bool {
    match options_or_default(step.options).3 {
        Some(os) => platform != Some(os),
        None => false,
    }
}

/// The run goes on when the step fails.
pub open spec fn tolerates(step: Command) -> bool {
    options_or_default(step.options).0
}

/// The pause after the step.
pub open spec fn delay_of(step: Command) -> Option<u64> {
    options_or_default(step.options).1
}

/// The recovery steps of a step.
pub open spec fn fallbacks(step: Command) -> Seq<FallbackCommand> {
    match step.options {
        Some(opts) => match opts.fallback {
            Some(f) => f@,
            None => Seq::empty(),
        },
        None => Seq::empty(),
    }
}

/// The launch of a step whose substituted command is `command`.
pub open spec fn step_invocation(
    step: Command,
    command: Seq<char>,
    context: Map<Seq<char>, Seq<char>>,
) -> InvocationView {
    InvocationView {
        command,
        description: text_of(step.description),
        cwd: cwd_of(context),
        interactive: options_or_default(step.options).2,
        capture: step.capture.is_some(),
    }
}

/// The launch of a recovery step.
pub open spec fn recovery_invocation(
    fb: FallbackCommand,
    context: Map<Seq<char>, Seq<char>>,
) -> InvocationView {
    InvocationView {
        command: substitution(fb.command@, context),
        description: text_of(fb.description),
        cwd: cwd_of(context),
        interactive: recovery_interactive(fb.options),
        capture: false,
    }
}

/// The step of a group of the main flow.
pub open spec fn step_of(group: CommandTypes) -> Command {
    match group {
        CommandTypes::Command(step) => step,
        CommandTypes::Commands(_) => arbitrary(),
    }
}

/// The step of the group in progress.
pub open spec fn current_step(s: RunState) -> Command {
    step_of(s.groups[s.next])
}

/// The first failure among the results of the units, in dispatch order.
pub open spec fn first_failure(results: Seq<Result<(), FailureView>>) -> Option<FailureView>
    decreases results.len(),
{
    if results.len() == 0 {
        None
    } else if results[0] is Err {
        Some(results[0]->Err_0)
    } else {
        first_failure(results.drop_first())
    }
}

/// The result of a run: the failure that stopped the main flow, else the
/// first failed unit, else success.
pub open spec fn outcome(
    failure: Option<FailureView>,
    results: Seq<Result<(), FailureView>>,
) -> Result<(), FailureView> {
    match failure {
        Some(f) => Err(f),
        None => match first_failure(results) {
            Some(f) => Err(f),
            None => Ok(()),
        },
    }
}

/// The end of the main flow: wait for the dispatched units, if there are
/// any, else finish.
pub open spec fn wind_up(s: RunState) -> (RunState, ActionView) {
    if s.units > 0 {
        (RunState { phase: Phase::Joining, ..s }, ActionView::Join)
    } else {
        (
            RunState { phase: Phase::Finished, ..s },
            ActionView::Finish(outcome(s.failure, Seq::empty())),
        )
    }
}

/// Starts the step of group `s.next`: a directory change, or a process.
pub open spec fn launch(s: RunState) -> (RunState, ActionView) {
    let step = current_step(s);
    let command = substitution(step.command@, s.context);
    match cd_target(command) {
        Some(target) => (
            RunState { phase: Phase::ChangingDir, current: command, ..s },
            ActionView::ChangeDir {
                command,
                description: text_of(step.description),
                target,
                base: cwd_of(s.context),
            },
        ),
        None => (
            RunState { phase: Phase::Launched, current: command, ..s },
            ActionView::Run(step_invocation(step, command, s.context)),
        ),
    }
}

/// The main flow from group `s.next` on: steps for another platform are
/// passed over; a concurrent group is dispatched on a copy of the context;
/// past the last group the run winds up.
pub open spec fn proceed_from(s: RunState) -> (RunState, ActionView)
    decreases s.groups.len() - s.next,
{
    if s.next < 0 || s.next >= s.groups.len() {
        wind_up(s)
    } else {
        match s.groups[s.next] {
            CommandTypes::Command(step) => if skipped(step, s.platform) {
                proceed_from(RunState { next: s.next + 1, ..s })
            } else {
                launch(s)
            },
            CommandTypes::Commands(_) => (
                RunState { next: s.next + 1, units: s.units + 1, ..s },
                ActionView::Dispatch { group: s.next as nat, context: s.context },
            ),
        }
    }
}

/// The step of group `s.next` is over (it succeeded or its failure is
/// tolerated): pause if it asks for it, else go on with the next group.
pub open spec fn conclude(s: RunState) -> (RunState, ActionView) {
    match delay_of(current_step(s)) {
        Some(ms) => (RunState { phase: Phase::Pausing, ..s }, ActionView::Pause { ms }),
        None => proceed_from(RunState { next: s.next + 1, phase: Phase::Ready, ..s }),
    }
}

/// After a failure and its recovery steps: go on if the step tolerates
/// failure, else stop the main flow.
pub open spec fn settle(s: RunState) -> (RunState, ActionView) {
    if tolerates(current_step(s)) {
        conclude(RunState { failure: None, ..s })
    } else {
        wind_up(s)
    }
}

/// The step of group `s.next` failed with `cause`: run its first recovery
/// step, if it has any, else settle.
pub open spec fn fail(s: RunState, cause: Seq<char>) -> (RunState, ActionView) {
    let f = FailureView::Step { command: s.current, cause };
    let fbs = fallbacks(current_step(s));
    if fbs.len() > 0 {
        (
            RunState { phase: Phase::Recovering { index: 0 }, failure: Some(f), ..s },
            ActionView::Run(recovery_invocation(fbs[0], s.context)),
        )
    } else {
        settle(RunState { failure: Some(f), ..s })
    }
}

/// The context after a successful step: its trimmed output stored under its
/// capture name, if it has one.
pub open spec fn captured(
    context: Map<Seq<char>, Seq<char>>,
    capture: Option<String>,
    output: Seq<char>,
) -> Map<Seq<char>, Seq<char>> {
    match capture {
        Some(name) => context.insert(name@, trim_of(output)),
        None => context,
    }
}

/// The cause a failed outside action reports.
pub open spec fn cause_of(e: EventView) -> Seq<char> {
    match e {
        EventView::Exited(Err(c)) => c,
        EventView::Resolved(Err(c)) => c,
        _ => Seq::empty(),
    }
}

/// The failure a result carries.
pub open spec fn failure_in(r: Result<(), FailureView>) -> Option<FailureView> {
    match r {
        Ok(()) => None,
        Err(f) => Some(f),
    }
}

/// How a run moves on when the host reports `e`.
pub open spec fn transition(s: RunState, e: EventView) -> (RunState, ActionView) {
    match s.phase {
        Phase::Ready => proceed_from(s),
        Phase::Launched => match e {
            EventView::Exited(Ok(output)) => conclude(
                RunState {
                    context: captured(s.context, current_step(s).capture, output),
                    ..s
                },
            ),
            _ => fail(s, cause_of(e)),
        },
        Phase::ChangingDir => match e {
            EventView::Resolved(Ok(dir)) => conclude(
                RunState { context: s.context.insert(cwd_key(), dir), ..s },
            ),
            _ => fail(s, cause_of(e)),
        },
        Phase::Recovering { index } => {
            let fbs = fallbacks(current_step(s));
            if index + 1 < fbs.len() {
                (
                    RunState { phase: Phase::Recovering { index: (index + 1) as usize }, ..s },
                    ActionView::Run(recovery_invocation(fbs[index + 1], s.context)),
                )
            } else {
                settle(s)
            }
        },
        Phase::Pausing => proceed_from(RunState { next: s.next + 1, phase: Phase::Ready, ..s }),
        Phase::Joining => match e {
            EventView::Joined(results) => {
                let r = outcome(s.failure, results);
                (
                    RunState { phase: Phase::Finished, failure: failure_in(r), ..s },
                    ActionView::Finish(r),
                )
            },
            _ => (s, ActionView::Join),
        },
        Phase::Finished => (s, ActionView::Finish(outcome(s.failure, Seq::empty()))),
    }
}

/// The states a run can be in.
pub open spec fn state_wf(s: RunState) -> bool {
    &&& 0 <= s.next <= s.groups.len()
    &&& s.units <= s.next
    &&& match s.phase {
        Phase::Launched | Phase::ChangingDir | Phase::Pausing => {
            &&& s.next < s.groups.len()
            &&& s.groups[s.next] is Command
        },
        Phase::Recovering { index } => {
            &&& s.next < s.groups.len()
            &&& s.groups[s.next] is Command
            &&& index < fallbacks(current_step(s)).len()
        },
        _ => true,
    }
}

} // verus!
