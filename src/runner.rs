use vstd::prelude::*;
use crate::context::{Context, cwd_key, substitute};
use crate::engine::{
    cause_of, conclude, fail, fallbacks, first_failure, launch, options_or_default, outcome,
    proceed_from, recovery_invocation, result_view, results_view, settle, skipped, state_wf, text_of,
    transition, wind_up, Action, Event, Invocation, Phase, RunState,
};
use crate::platform::OperatingSystem;
use crate::preflight::{build_context, preflight, Failure, FailureView};
use crate::script::{Command, CommandTypes, Options, Script};
use crate::text::{directory_target, trimmed};

verus! {

/// The state in which a run over `groups` starts.
pub open spec fn initial(
    groups: Seq<CommandTypes>,
    context: Map<Seq<char>, Seq<char>>,
    platform: Option<OperatingSystem>,
) -> RunState {
    RunState {
        groups,
        context,
        platform,
        next: 0,
        phase: Phase::Ready,
        current: Seq::empty(),
        units: 0,
        failure: None,
    }
}

/// The groups of a concurrent unit: each of its steps, in order.
pub open spec fn unit_groups(steps: Seq<Command>) -> Seq<CommandTypes> {
    steps.map_values(|c: Command| CommandTypes::Command(c))
}

fn options_exec(o: &Option<Options>) -> (r: (bool, Option<u64>, bool, Option<OperatingSystem>))
    ensures
        r == options_or_default(*o),
{
    match o {
        Some(opts) => (opts.proceed_on_failure, opts.delay_ms, opts.interactive, opts.operating_system),
        None => (false, None, false, None),
    }
}

fn is_skipped(step: &Command, platform: Option<OperatingSystem>) -> (r: bool)
    ensures
        r == skipped(*step, platform),
{
    match options_exec(&step.options).3 {
        Some(os) => match platform {
            Some(p) => !os.is_current(p),
            None => true,
        },
        None => false,
    }
}

fn fallback_count(step: &Command) -> (r: usize)
    ensures
        r == fallbacks(*step).len(),
{
    match &step.options {
        Some(opts) => match &opts.fallback {
            Some(f) => f.len(),
            None => 0,
        },
        None => 0,
    }
}

fn recovery(step: &Command, index: usize, context: &Context) -> (r: Invocation)
    requires
        index < fallbacks(*step).len(),
    ensures
        r@ == recovery_invocation(fallbacks(*step)[index as int], context@),
{
    match &step.options {
        Some(opts) => match &opts.fallback {
            Some(f) => {
                let fb = &f[index];
                let cwd = context.cwd();
                let r = Invocation {
                    command: substitute(fb.command.as_str(), context),
                    description: fb.description.clone(),
                    cwd,
                    interactive: match &fb.options {
                        Some(o) => o.interactive,
                        None => false,
                    },
                    capture: false,
                };
                assert(text_of(r.cwd) == crate::context::cwd_of(context@));
                r
            },
            None => vstd::pervasive::unreached(),
        },
        None => vstd::pervasive::unreached(),
    }
}

fn cause_exec(e: Event) -> (r: String)
    ensures
        r@ == cause_of(e@),
{
    match e {
        Event::Exited(Err(c)) => c,
        Event::Resolved(Err(c)) => c,
        _ => String::new(),
    }
}

proof fn lemma_first_failure_from(s: Seq<Result<(), FailureView>>, i: int)
    requires
        0 <= i <= s.len(),
        forall|j: int| 0 <= j < i ==> s[j] is Ok,
    ensures
        first_failure(s) == first_failure(s.subrange(i, s.len() as int)),
    decreases i,
{
    if i > 0 {
        lemma_first_failure_from(s, i - 1);
        let t = s.subrange(i - 1, s.len() as int);
        assert(t.drop_first() =~= s.subrange(i, s.len() as int));
    } else {
        assert(s.subrange(0, s.len() as int) =~= s);
    }
}

fn failure_exec(failure: &Option<Failure>) -> (r: Result<(), Failure>)
    ensures
        result_view(r) == outcome(
            match *failure {
                Some(f) => Some(f@),
                None => None,
            },
            Seq::empty(),
        ),
{
    match failure {
        Some(f) => Err(f.clone()),
        None => Ok(()),
    }
}

fn outcome_exec(failure: &Option<Failure>, results: Vec<Result<(), Failure>>) -> (r: Result<
    (),
    Failure,
>)
    ensures
        result_view(r) == outcome(
            match *failure {
                Some(f) => Some(f@),
                None => None,
            },
            results_view(results@),
        ),
{
    let ghost s = results_view(results@);
    match failure {
        Some(f) => Err(f.clone()),
        None => {
            let mut i: usize = 0;
            while i < results.len()
                invariant
                    s == results_view(results@),
                    failure.is_none(),
                    i <= results@.len(),
                    forall|j: int| 0 <= j < i ==> s[j] is Ok,
                decreases results@.len() - i,
            {
                match &results[i] {
                    Err(f) => {
                        proof {
                            lemma_first_failure_from(s, i as int);
                            let t = s.subrange(i as int, s.len() as int);
                            assert(s[i as int] == result_view(results@[i as int]));
                            assert(t.len() > 0 && t[0] == s[i as int]);
                        }
                        return Err(f.clone());
                    },
                    Ok(()) => {},
                }
                i = i + 1;
            }
            proof {
                lemma_first_failure_from(s, i as int);
                assert(s.subrange(i as int, s.len() as int).len() == 0);
            }
            Ok(())
        },
    }
}

/// The run's state, with its well-formedness carried by each step.
struct Machine {
    groups: Vec<CommandTypes>,
    context: Context,
    platform: Option<OperatingSystem>,
    next: usize,
    phase: Phase,
    current: String,
    units: usize,
    failure: Option<Failure>,
}

impl View for Machine {
    type V = RunState;

    closed spec fn view(&self) -> RunState {
        RunState {
            groups: self.groups@,
            context: self.context@,
            platform: self.platform,
            next: self.next as int,
            phase: self.phase,
            current: self.current@,
            units: self.units as nat,
            failure: match self.failure {
                Some(f) => Some(f@),
                None => None,
            },
        }
    }
}

impl Machine {
    fn wind_up(&mut self) -> (a: Action)
        requires
            state_wf(old(self)@),
        ensures
            state_wf(final(self)@),
            (final(self)@, a@) == wind_up(old(self)@),
    {
        if self.units > 0 {
            self.phase = Phase::Joining;
            Action::Join
        } else {
            self.phase = Phase::Finished;
            Action::Finish(failure_exec(&self.failure))
        }
    }

    fn launch(&mut self) -> (a: Action)
        requires
            state_wf(old(self)@),
            old(self)@.next < old(self)@.groups.len(),
            old(self)@.groups[old(self)@.next] is Command,
        ensures
            state_wf(final(self)@),
            (final(self)@, a@) == launch(old(self)@),
    {
        match &self.groups[self.next] {
            CommandTypes::Command(step) => {
                let command = substitute(step.command.as_str(), &self.context);
                let base = self.context.cwd();
                match directory_target(command.as_str()) {
                    Some(target) => {
                        let description = step.description.clone();
                        self.current = command.clone();
                        self.phase = Phase::ChangingDir;
                        Action::ChangeDir { command, description, target, base }
                    },
                    None => {
                        let inv = Invocation {
                            command: command.clone(),
                            description: step.description.clone(),
                            cwd: base,
                            interactive: options_exec(&step.options).2,
                            capture: step.capture.is_some(),
                        };
                        self.current = command;
                        self.phase = Phase::Launched;
                        Action::Run(inv)
                    },
                }
            },
            CommandTypes::Commands(_) => vstd::pervasive::unreached(),
        }
    }

    fn proceed(&mut self) -> (a: Action)
        requires
            state_wf(old(self)@),
            old(self)@.phase == Phase::Ready,
        ensures
            state_wf(final(self)@),
            (final(self)@, a@) == proceed_from(old(self)@),
    {
        loop
            invariant
                state_wf(self@),
                self@.phase == Phase::Ready,
                proceed_from(self@) == proceed_from(old(self)@),
            decreases self.groups@.len() - self.next,
        {
            if self.next >= self.groups.len() {
                return self.wind_up();
            }
            let (skip, concurrent) = match &self.groups[self.next] {
                CommandTypes::Command(step) => (is_skipped(step, self.platform), false),
                CommandTypes::Commands(_) => (false, true),
            };
            if concurrent {
                let group = self.next;
                self.next = group + 1;
                self.units = self.units + 1;
                return Action::Dispatch { group, context: self.context.snapshot() };
            }
            if !skip {
                return self.launch();
            }
            self.next = self.next + 1;
        }
    }

    fn conclude(&mut self) -> (a: Action)
        requires
            state_wf(old(self)@),
            old(self)@.next < old(self)@.groups.len(),
            old(self)@.groups[old(self)@.next] is Command,
        ensures
            state_wf(final(self)@),
            (final(self)@, a@) == conclude(old(self)@),
    {
        let delay = match &self.groups[self.next] {
            CommandTypes::Command(step) => options_exec(&step.options).1,
            CommandTypes::Commands(_) => vstd::pervasive::unreached(),
        };
        match delay {
            Some(ms) => {
                self.phase = Phase::Pausing;
                Action::Pause { ms }
            },
            None => {
                let n = self.groups.len();
                assert(self.next < n);
                self.next = self.next + 1;
                self.phase = Phase::Ready;
                self.proceed()
            },
        }
    }

    fn settle(&mut self) -> (a: Action)
        requires
            state_wf(old(self)@),
            old(self)@.next < old(self)@.groups.len(),
            old(self)@.groups[old(self)@.next] is Command,
        ensures
            state_wf(final(self)@),
            (final(self)@, a@) == settle(old(self)@),
    {
        let tolerated = match &self.groups[self.next] {
            CommandTypes::Command(step) => options_exec(&step.options).0,
            CommandTypes::Commands(_) => vstd::pervasive::unreached(),
        };
        if tolerated {
            self.failure = None;
            self.conclude()
        } else {
            self.wind_up()
        }
    }

    fn fail(&mut self, cause: String) -> (a: Action)
        requires
            state_wf(old(self)@),
            old(self)@.next < old(self)@.groups.len(),
            old(self)@.groups[old(self)@.next] is Command,
        ensures
            state_wf(final(self)@),
            (final(self)@, a@) == fail(old(self)@, cause@),
    {
        let f = Failure::Step { command: self.current.clone(), cause };
        let first = match &self.groups[self.next] {
            CommandTypes::Command(step) => if fallback_count(step) > 0 {
                Some(recovery(step, 0, &self.context))
            } else {
                None
            },
            CommandTypes::Commands(_) => vstd::pervasive::unreached(),
        };
        self.failure = Some(f);
        match first {
            Some(inv) => {
                self.phase = Phase::Recovering { index: 0 };
                Action::Run(inv)
            },
            None => self.settle(),
        }
    }

    fn step(&mut self, event: Event) -> (a: Action)
        requires
            state_wf(old(self)@),
        ensures
            state_wf(final(self)@),
            (final(self)@, a@) == transition(old(self)@, event@),
    {
        match self.phase {
            Phase::Ready => self.proceed(),
            Phase::Launched => match event {
                Event::Exited(Ok(output)) => {
                    let capture = match &self.groups[self.next] {
                        CommandTypes::Command(step) => step.capture.clone(),
                        CommandTypes::Commands(_) => vstd::pervasive::unreached(),
                    };
                    match capture {
                        Some(name) => {
                            let value = trimmed(output.as_str());
                            self.context.insert(name, value);
                        },
                        None => {},
                    }
                    self.conclude()
                },
                other => {
                    let cause = cause_exec(other);
                    self.fail(cause)
                },
            },
            Phase::ChangingDir => match event {
                Event::Resolved(Ok(dir)) => {
                    proof {
                        reveal_strlit("cwd");
                        assert("cwd"@ =~= cwd_key());
                    }
                    self.context.insert("cwd".to_string(), dir);
                    self.conclude()
                },
                other => {
                    let cause = cause_exec(other);
                    self.fail(cause)
                },
            },
            Phase::Recovering { index } => {
                let following = match &self.groups[self.next] {
                    CommandTypes::Command(step) => {
                        let n = fallback_count(step);
                        if index + 1 < n {
                            Some(recovery(step, index + 1, &self.context))
                        } else {
                            None
                        }
                    },
                    CommandTypes::Commands(_) => vstd::pervasive::unreached(),
                };
                match following {
                    Some(inv) => {
                        self.phase = Phase::Recovering { index: index + 1 };
                        Action::Run(inv)
                    },
                    None => self.settle(),
                }
            },
            Phase::Pausing => {
                let n = self.groups.len();
                assert(self.next < n);
                self.next = self.next + 1;
                self.phase = Phase::Ready;
                self.proceed()
            },
            Phase::Joining => match event {
                Event::Joined(results) => {
                    let r = outcome_exec(&self.failure, results);
                    self.failure = match &r {
                        Ok(()) => None,
                        Err(f) => Some(f.clone()),
                    };
                    self.phase = Phase::Finished;
                    Action::Finish(r)
                },
                _ => Action::Join,
            },
            Phase::Finished => Action::Finish(failure_exec(&self.failure)),
        }
    }
}

/// A script run in progress: the main flow, or a concurrent unit.
///
/// The host starts it with `Event::Resumed`, performs each action it returns,
/// and reports back, until `Action::Finish`.
pub struct Runner {
    machine: Machine,
}

impl View for Runner {
    type V = RunState;

    closed spec fn view(&self) -> RunState {
        self.machine@
    }
}

impl Runner {
    #[verifier::type_invariant]
    closed spec fn well_formed(self) -> bool {
        state_wf(self.machine@)
    }

    /// A run of `groups` on `context`, on `platform`.
    pub fn new(
        groups: Vec<CommandTypes>,
        context: Context,
        platform: Option<OperatingSystem>,
    ) -> (r: Runner)
        ensures
            r@ == initial(groups@, context@, platform),
    {
        let r = Runner {
            machine: Machine {
                groups,
                context,
                platform,
                next: 0,
                phase: Phase::Ready,
                current: String::new(),
                units: 0,
                failure: None,
            },
        };
        r
    }

    /// A concurrent unit: `steps` run in order on `context`, its own copy.
    pub fn unit(steps: Vec<Command>, context: Context, platform: Option<OperatingSystem>) -> (r:
        Runner)
        ensures
            r@ == initial(unit_groups(steps@), context@, platform),
    {
        let ghost all = steps@;
        let mut steps = steps;
        let mut groups: Vec<CommandTypes> = Vec::new();
        while steps.len() > 0
            invariant
                groups@ + unit_groups(steps@) == unit_groups(all),
            decreases steps@.len(),
        {
            let ghost before = steps@;
            let step = steps.remove(0);
            groups.push(CommandTypes::Command(step));
            assert(unit_groups(before) =~= seq![CommandTypes::Command(step)] + unit_groups(
                steps@,
            ));
            assert(groups@ + unit_groups(steps@) =~= unit_groups(all));
        }
        assert(groups@ =~= unit_groups(all));
        Runner::new(groups, context, platform)
    }

    /// Moves the run on with the host's report of the last action.
    pub fn advance(self, event: Event) -> (r: (Runner, Action))
        ensures
            (r.0@, r.1@) == transition(self@, event@),
            state_wf(self@),
            state_wf(r.0@),
    {
        proof {
            use_type_invariant(&self);
        }
        let Runner { machine } = self;
        let mut machine = machine;
        let action = machine.step(event);
        (Runner { machine }, action)
    }

    /// The main context as it stands.
    pub fn context(&self) -> (r: &Context)
        ensures
            r@ == self@.context,
    {
        &self.machine.context
    }

    /// The steps of concurrent group `group`, if it is one.
    pub fn concurrent_steps(&self, group: usize) -> (r: Option<&Vec<Command>>)
        ensures
            match r {
                Some(steps) => group < self@.groups.len() && self@.groups[group as int]
                    == CommandTypes::Commands(*steps),
                None => group >= self@.groups.len() || self@.groups[group as int] is Command,
            },
    {
        if group < self.machine.groups.len() {
            match &self.machine.groups[group] {
                CommandTypes::Commands(steps) => Some(steps),
                CommandTypes::Command(_) => None,
            }
        } else {
            None
        }
    }
}

/// Checks a script's parameters and secrets and, when they pass, starts its
/// run on `platform`. No step runs before the checks pass.
pub fn start(
    script: Script,
    cli_params: &Vec<String>,
    secret_values: &Vec<Option<String>>,
    platform: Option<OperatingSystem>,
) -> (r: Result<Runner, Failure>)
    ensures
        match preflight(script, cli_params@, secret_values@) {
            Ok(m) => r is Ok && r->Ok_0@ == initial(script.commands@, m, platform),
            Err(f) => r is Err && r->Err_0@ == f,
        },
{
    match build_context(&script, cli_params, secret_values) {
        Ok(context) => Ok(Runner::new(script.commands, context, platform)),
        Err(f) => Err(f),
    }
}

} // verus!
