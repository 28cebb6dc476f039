use vstd::prelude::*;
use crate::context::{cwd_key, substitution};
use crate::engine::{
    captured, cause_of, current_step, first_failure, delay_of, fail, fallbacks, outcome, proceed_from,
    recovery_invocation, settle, skipped, state_wf, step_invocation, step_of, tolerates,
    transition, ActionView, EventView, Phase, RunState,
};
use crate::platform::OperatingSystem;
use crate::preflight::{preflight, FailureView};
use crate::runner::{initial, unit_groups};
use crate::script::{Command, CommandTypes, Script};
use crate::text::trim_of;

verus! {

/// What holds of every move of the main flow from a group on: it keeps the
/// context, the groups and the failure, never forgets a dispatched unit,
/// finishes at once only when no unit was dispatched, and a process it starts
/// is the substituted step of a later group, run in the context's directory.
pub proof fn lemma_proceed(s: RunState)
    requires
        0 <= s.next,
    ensures
        proceed_from(s).0.context == s.context,
        proceed_from(s).0.groups == s.groups,
        proceed_from(s).0.failure == s.failure,
        proceed_from(s).0.units >= s.units,
        proceed_from(s).1 is Finish ==> s.units == 0,
        !(proceed_from(s).1 is Pause),
        proceed_from(s).1 is Run ==> {
            let t = proceed_from(s).0;
            let step = step_of(s.groups[t.next]);
            &&& s.next <= t.next < s.groups.len()
            &&& s.groups[t.next] is Command
            &&& t.phase == Phase::Launched
            &&& proceed_from(s).1 == ActionView::Run(
                step_invocation(step, substitution(step.command@, s.context), s.context),
            )
        },
    decreases s.groups.len() - s.next,
{
    if 0 <= s.next < s.groups.len() {
        match s.groups[s.next] {
            CommandTypes::Command(step) => {
                if skipped(step, s.platform) {
                    lemma_proceed(RunState { next: s.next + 1, ..s });
                }
            },
            CommandTypes::Commands(_) => {},
        }
    }
}

/// Where the parameters a script declares are not matched by as many values,
/// the run fails before any step, naming both counts.
pub proof fn wrong_parameter_count_fails_first(
    script: Script,
    params: Seq<String>,
    values: Seq<Option<String>>,
)
    requires
        script.params is Some,
        script.params.unwrap()@.len() != params.len(),
    ensures
        preflight(script, params, values) == Err::<Map<Seq<char>, Seq<char>>, FailureView>(
            FailureView::ParameterCount {
                expected: script.params.unwrap()@.len(),
                supplied: params.len(),
            },
        ),
{
}

/// A step restricted to another platform is passed over: the run moves as if
/// its group were not there, with the same context; no process, no pause.
pub proof fn filtered_step_is_skipped(s: RunState, e: EventView)
    requires
        state_wf(s),
        s.phase == Phase::Ready,
        s.next < s.groups.len(),
        s.groups[s.next] is Command,
        skipped(step_of(s.groups[s.next]), s.platform),
    ensures
        (transition(s, e) == transition(RunState { next: s.next + 1, ..s }, e)),
{
}

/// A run whose every group is a step restricted to another platform finishes
/// at once, successfully, without starting anything.
pub proof fn filtered_run_succeeds(
    groups: Seq<CommandTypes>,
    context: Map<Seq<char>, Seq<char>>,
    platform: Option<OperatingSystem>,
    e: EventView,
)
    requires
        forall|i: int|
            0 <= i < groups.len() ==> #[trigger] groups[i] is Command && skipped(
                step_of(groups[i]),
                platform,
            ),
    ensures
        transition(initial(groups, context, platform), e).1 == ActionView::Finish(Ok(())),
{
    lemma_filtered_from(initial(groups, context, platform));
}

proof fn lemma_filtered_from(s: RunState)
    requires
        0 <= s.next,
        s.units == 0,
        s.failure is None,
        forall|i: int|
            0 <= i < s.groups.len() ==> #[trigger] s.groups[i] is Command && skipped(
                step_of(s.groups[i]),
                s.platform,
            ),
    ensures
        proceed_from(s).1 == ActionView::Finish(Ok(())),
    decreases s.groups.len() - s.next,
{
    if s.next < s.groups.len() {
        assert(s.groups[s.next] is Command);
        lemma_filtered_from(RunState { next: s.next + 1, ..s });
    }
}

/// From group `next` on, every group is a concurrent group or a step for
/// another platform.
pub open spec fn filtered_or_concurrent(s: RunState) -> bool {
    forall|i: int|
        s.next <= i < s.groups.len() ==> #[trigger] s.groups[i] is Commands || (s.groups[i] is Command
            && skipped(step_of(s.groups[i]), s.platform))
}

proof fn lemma_filtered_proceed(s: RunState)
    requires
        0 <= s.next,
        s.phase == Phase::Ready,
        s.failure is None,
        filtered_or_concurrent(s),
    ensures
        ({
            let (t, a) = proceed_from(s);
            ||| a is Dispatch && t.phase == Phase::Ready && t.failure is None
                && filtered_or_concurrent(t) && t.context == s.context
            ||| a == ActionView::Join && t.phase == Phase::Joining && t.failure is None
            ||| a == ActionView::Finish(Ok(())) && s.units == 0
        }),
    decreases s.groups.len() - s.next,
{
    if s.next < s.groups.len() {
        assert(s.groups[s.next] is Commands || (s.groups[s.next] is Command && skipped(
            step_of(s.groups[s.next]),
            s.platform,
        )));
        if s.groups[s.next] is Command {
            lemma_filtered_proceed(RunState { next: s.next + 1, ..s });
        }
    }
}

/// In a run whose plain steps are all for another platform, the main flow
/// starts no process and makes no pause: each move dispatches a concurrent
/// group (and the rest stays so), or joins the units, or, when none was
/// dispatched, finishes successfully.
pub proof fn filtered_main_flow(s: RunState, e: EventView)
    requires
        state_wf(s),
        s.phase == Phase::Ready,
        s.failure is None,
        filtered_or_concurrent(s),
    ensures
        ({
            let (t, a) = transition(s, e);
            ||| a is Dispatch && t.phase == Phase::Ready && t.failure is None
                && filtered_or_concurrent(t) && t.context == s.context
            ||| a == ActionView::Join && t.phase == Phase::Joining && t.failure is None
            ||| a == ActionView::Finish(Ok(())) && s.units == 0
        }),
{
    lemma_filtered_proceed(s);
}

/// A concurrent unit whose steps are all for another platform finishes
/// successfully at its first move, without starting anything.
pub proof fn filtered_unit_succeeds(
    steps: Seq<Command>,
    context: Map<Seq<char>, Seq<char>>,
    platform: Option<OperatingSystem>,
    e: EventView,
)
    requires
        forall|i: int| 0 <= i < steps.len() ==> skipped(#[trigger] steps[i], platform),
    ensures
        transition(initial(unit_groups(steps), context, platform), e).1 == ActionView::Finish(
            Ok(()),
        ),
{
    let groups = unit_groups(steps);
    assert forall|i: int| 0 <= i < groups.len() implies #[trigger] groups[i] is Command && skipped(
        step_of(groups[i]),
        platform,
    ) by {
        assert(groups[i] == CommandTypes::Command(steps[i]));
    }
    filtered_run_succeeds(groups, context, platform, e);
}

proof fn lemma_no_failure(results: Seq<Result<(), FailureView>>)
    requires
        forall|i: int| 0 <= i < results.len() ==> #[trigger] results[i] is Ok,
    ensures
        first_failure(results) is None,
    decreases results.len(),
{
    if results.len() > 0 {
        assert(results[0] is Ok);
        let rest = results.drop_first();
        assert forall|i: int| 0 <= i < rest.len() implies #[trigger] rest[i] is Ok by {
            assert(rest[i] == results[i + 1]);
        }
        lemma_no_failure(rest);
    }
}

/// When the main flow had no failure and every unit succeeded, the join ends
/// the run successfully.
pub proof fn successful_units_join_successfully(
    s: RunState,
    results: Seq<Result<(), FailureView>>,
)
    requires
        s.phase == Phase::Joining,
        s.failure is None,
        forall|i: int| 0 <= i < results.len() ==> #[trigger] results[i] is Ok,
    ensures
        transition(s, EventView::Joined(results)).1 == ActionView::Finish(Ok(())),
{
    lemma_no_failure(results);
}

/// The launch of the step of group `i`, substituted against `context`.
pub open spec fn launch_of(s: RunState, i: int, context: Map<Seq<char>, Seq<char>>) -> ActionView {
    let step = step_of(s.groups[i]);
    ActionView::Run(step_invocation(step, substitution(step.command@, context), context))
}

/// Every process the main flow starts at a group boundary (at the start,
/// after a pause, after a dispatch) is the step of a group not before
/// `next`, substituted against the context as it stands; the context is kept.
pub proof fn launch_uses_current_context(s: RunState, e: EventView)
    requires
        state_wf(s),
        s.phase == Phase::Ready || s.phase == Phase::Pausing,
    ensures
        ({
            let (t, a) = transition(s, e);
            &&& t.context == s.context
            &&& a is Run ==> s.next <= t.next < s.groups.len() && s.groups[t.next] is Command
                && a == launch_of(s, t.next, s.context)
        }),
{
    if s.phase == Phase::Ready {
        lemma_proceed(s);
    } else {
        lemma_proceed(RunState { next: s.next + 1, phase: Phase::Ready, ..s });
    }
}

/// A successful step with a capture name leaves its trimmed output in the
/// context under that name. The step after it that starts a process is
/// substituted against that context: at once, or after the step's pause
/// (then the pausing state keeps the context, see
/// `launch_uses_current_context`).
pub proof fn capture_is_stored_and_seen(s: RunState, output: Seq<char>)
    requires
        state_wf(s),
        s.phase == Phase::Launched,
        current_step(s).capture is Some,
    ensures
        ({
            let u = s.context.insert(current_step(s).capture.unwrap()@, trim_of(output));
            let (t, a) = transition(s, EventView::Exited(Ok(output)));
            &&& t.context == u
            &&& a is Pause ==> t.phase == Phase::Pausing && t.next == s.next
            &&& a is Run ==> s.next < t.next < s.groups.len() && s.groups[t.next] is Command
                && a == launch_of(s, t.next, u)
        }),
{
    let u = s.context.insert(current_step(s).capture.unwrap()@, trim_of(output));
    let c = RunState { context: u, ..s };
    if delay_of(current_step(s)) is None {
        lemma_proceed(RunState { next: c.next + 1, phase: Phase::Ready, ..c });
    }
}

/// A failed step that does not tolerate failure and has no recovery steps
/// stops the main flow with that failure: the run only awaits the dispatched
/// units, and no later group starts.
pub proof fn untolerated_failure_halts(s: RunState, e: EventView)
    requires
        state_wf(s),
        s.phase == Phase::Launched,
        !(e is Exited && e->Exited_0 is Ok),
        !tolerates(current_step(s)),
        fallbacks(current_step(s)).len() == 0,
    ensures
        ({
            let (t, a) = transition(s, e);
            let f = FailureView::Step { command: s.current, cause: cause_of(e) };
            &&& t.next == s.next
            &&& t.failure == Some(f)
            &&& (t.phase == Phase::Joining && a == ActionView::Join) || (t.phase == Phase::Finished
                && a == ActionView::Finish(Err(f)))
        }),
{
}

/// Once the main flow has stopped, every move keeps it stopped: no group
/// starts; the join waits until the units' results come in, and the run
/// finishes with the failure that stopped it, if any, else with the first
/// failed unit.
pub proof fn stopped_run_stays_stopped(s: RunState, e: EventView)
    requires
        s.phase == Phase::Joining || s.phase == Phase::Finished,
    ensures
        ({
            let (t, a) = transition(s, e);
            &&& t.next == s.next
            &&& t.context == s.context
            &&& (s.phase == Phase::Joining && !(e is Joined)) ==> t == s && a == ActionView::Join
            &&& (s.phase == Phase::Joining && e is Joined) ==> t.phase == Phase::Finished && a
                == ActionView::Finish(outcome(s.failure, e->Joined_0))
            &&& s.phase == Phase::Finished ==> t == s && a == ActionView::Finish(
                outcome(s.failure, Seq::empty()),
            )
        }),
{
}

/// How the run moves on once a step is over and its failure, if any, is
/// tolerated: straight to the groups after it, or after its pause.
pub open spec fn moves_on(s: RunState, t: RunState, a: ActionView) -> bool {
    let after = RunState { next: s.next + 1, phase: Phase::Ready, failure: None, ..s };
    match delay_of(current_step(s)) {
        None => (t, a) == proceed_from(after),
        Some(ms) => {
            &&& t == RunState { phase: Phase::Pausing, failure: None, ..s }
            &&& a == ActionView::Pause { ms }
            &&& forall|e: EventView| #[trigger] transition(t, e) == proceed_from(after)
        },
    }
}

/// A failed step that tolerates failure and has no recovery steps lets the
/// run go on exactly as after a success: the failure is dropped, so it does
/// not make the run fail, and the following groups run.
pub proof fn tolerated_failure_continues(s: RunState, e: EventView)
    requires
        state_wf(s),
        (s.phase == Phase::Launched && !(e is Exited && e->Exited_0 is Ok)) || (s.phase
            == Phase::ChangingDir && !(e is Resolved && e->Resolved_0 is Ok)),
        tolerates(current_step(s)),
        fallbacks(current_step(s)).len() == 0,
    ensures
        moves_on(s, transition(s, e).0, transition(s, e).1),
{
    let t = transition(s, e).0;
    assert forall|e2: EventView| #[trigger] transition(t, e2) == transition(t, e2) by {}
}

/// After the last recovery step of a step that tolerates failure, the run
/// goes on as after a success, whatever the recovery steps did.
pub proof fn tolerated_failure_continues_after_recovery(s: RunState, e: EventView, index: usize)
    requires
        state_wf(s),
        (s.phase == Phase::Recovering { index }),
        index + 1 == fallbacks(current_step(s)).len(),
        tolerates(current_step(s)),
    ensures
        moves_on(s, transition(s, e).0, transition(s, e).1),
{
}

/// A failed step with recovery steps starts the first one at once; the step's
/// failure is kept for when the chain is over.
pub proof fn failure_starts_recovery(s: RunState, e: EventView)
    requires
        state_wf(s),
        s.phase == Phase::Launched,
        !(e is Exited && e->Exited_0 is Ok),
        fallbacks(current_step(s)).len() > 0,
    ensures
        (transition(s, e) == (
            RunState {
                phase: Phase::Recovering { index: 0 },
                failure: Some(FailureView::Step { command: s.current, cause: cause_of(e) }),
                ..s
            },
            ActionView::Run(recovery_invocation(fallbacks(current_step(s))[0], s.context)),
        )),
{
}

/// Recovery steps run in order, each once, whatever the outcome of each: after
/// any report on one, the next one starts; after the last, the step's failure
/// policy applies to the step's own failure.
pub proof fn recovery_runs_in_order(s: RunState, e: EventView, index: usize)
    requires
        state_wf(s),
        (s.phase == Phase::Recovering { index }),
    ensures
        (index + 1 < fallbacks(current_step(s)).len() ==> transition(s, e) == (
            RunState { phase: Phase::Recovering { index: (index + 1) as usize }, ..s },
            ActionView::Run(
                recovery_invocation(fallbacks(current_step(s))[index + 1], s.context),
            ),
        )),
        index + 1 == fallbacks(current_step(s)).len() ==> transition(s, e) == settle(s),
{
}

/// A concurrent group is handed out on a copy of the main context, which the
/// main flow keeps as it was, and the main flow goes on at once.
pub proof fn dispatch_copies_context(s: RunState, e: EventView)
    requires
        state_wf(s),
        s.phase == Phase::Ready,
        s.next < s.groups.len(),
        (s.groups[s.next] is Commands),
    ensures
        (transition(s, e) == (
            RunState { next: s.next + 1, units: s.units + 1, ..s },
            ActionView::Dispatch { group: s.next as nat, context: s.context },
        )),
{
}

/// Once a concurrent unit has been dispatched, the run's result comes only
/// from the join, which awaits every unit: no move before it finishes the
/// run, and the join leaves the main context as it was.
pub proof fn finish_awaits_units(s: RunState, e: EventView)
    requires
        state_wf(s),
        s.units > 0,
        s.phase != Phase::Finished,
        transition(s, e).1 is Finish,
    ensures
        s.phase == Phase::Joining,
        transition(s, e).0.context == s.context,
{
    let c = RunState { next: s.next + 1, phase: Phase::Ready, ..s };
    match s.phase {
        Phase::Ready => {
            lemma_proceed(s);
        },
        Phase::Pausing => {
            lemma_proceed(c);
        },
        _ => {
            lemma_proceed(c);
            lemma_proceed(RunState { failure: None, ..c });
            match e {
                EventView::Exited(Ok(out)) => {
                    lemma_proceed(
                        RunState {
                            context: captured(s.context, current_step(s).capture, out),
                            ..c
                        },
                    );
                },
                EventView::Resolved(Ok(dir)) => {
                    lemma_proceed(RunState { context: s.context.insert(cwd_key(), dir), ..c });
                },
                _ => {},
            }
        },
    }
}

/// The main context changes only through the main flow's own steps: a
/// successful capture or directory change. Dispatching a unit, the unit's own
/// work and the join leave it as it was.
pub proof fn context_changes_only_by_own_steps(s: RunState, e: EventView)
    requires
        state_wf(s),
    ensures
        transition(s, e).0.context == match (s.phase, e) {
            (Phase::Launched, EventView::Exited(Ok(out))) => captured(
                s.context,
                current_step(s).capture,
                out,
            ),
            (Phase::ChangingDir, EventView::Resolved(Ok(dir))) => s.context.insert(cwd_key(), dir),
            _ => s.context,
        },
{
    let c = RunState { next: s.next + 1, phase: Phase::Ready, ..s };
    match s.phase {
        Phase::Ready => {
            lemma_proceed(s);
        },
        Phase::Joining | Phase::Finished => {},
        _ => {
            lemma_proceed(c);
            lemma_proceed(RunState { failure: None, ..c });
            match e {
                EventView::Exited(Ok(out)) => {
                    lemma_proceed(
                        RunState {
                            context: captured(s.context, current_step(s).capture, out),
                            ..c
                        },
                    );
                },
                EventView::Resolved(Ok(dir)) => {
                    lemma_proceed(RunState { context: s.context.insert(cwd_key(), dir), ..c });
                },
                _ => {},
            }
        },
    }
}

/// A directory change that resolves records the directory under `cwd`, and
/// the processes after it start there, beginning with the next step that
/// starts one.
pub proof fn directory_change_sets_cwd(s: RunState, dir: Seq<char>)
    requires
        state_wf(s),
        s.phase == Phase::ChangingDir,
    ensures
        ({
            let u = s.context.insert(cwd_key(), dir);
            let (t, a) = transition(s, EventView::Resolved(Ok(dir)));
            &&& t.context == u
            &&& a is Run ==> a->Run_0.cwd == Some(dir) && s.next < t.next < s.groups.len()
                && s.groups[t.next] is Command && a == launch_of(s, t.next, u)
        }),
{
    let u = s.context.insert(cwd_key(), dir);
    let c = RunState { context: u, ..s };
    if delay_of(current_step(s)) is None {
        lemma_proceed(RunState { next: c.next + 1, phase: Phase::Ready, ..c });
    }
}

/// A directory change that does not resolve fails the step, which then goes
/// the way of any failed step.
pub proof fn failed_directory_change_fails_step(s: RunState, e: EventView)
    requires
        state_wf(s),
        s.phase == Phase::ChangingDir,
        !(e is Resolved && e->Resolved_0 is Ok),
    ensures
        transition(s, e) == fail(s, cause_of(e)),
{
}

} // verus!
