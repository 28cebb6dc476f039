use zirv::context::Context;
use zirv::engine::{Action, Event};
use zirv::platform::OperatingSystem;
use zirv::preflight::{build_context, Failure};
use zirv::runner::{start, Runner};
use zirv::script::{
    Command, CommandTypes, FallbackCommand, FallbackOptions, Options, Script, Secret,
};

const HERE: Option<OperatingSystem> = Some(OperatingSystem::Linux);

/// What a simulated run did, in order.
#[derive(Default)]
struct Trace {
    commands: Vec<String>,
    cwds: Vec<Option<String>>,
    pauses: Vec<u64>,
    dispatched: Vec<usize>,
    contexts: Vec<Context>,
}

/// A stand-in for the shell: `echo <text>` prints its text, a command with
/// `exit 1` in it fails, anything else succeeds silently.
fn shell(command: &str) -> Result<String, String> {
    if command.contains("exit 1") {
        Err(format!("`{}` failed", command))
    } else if let Some(rest) = command.strip_prefix("echo ") {
        Ok(format!("  {}\n", rest))
    } else {
        Ok(String::new())
    }
}

/// A stand-in for directory resolution: every directory exists but `missing`.
fn resolve(target: &str, base: Option<String>) -> Result<String, String> {
    if target.ends_with("missing") {
        Err(format!("no such directory: {}", target))
    } else if target.starts_with('/') {
        Ok(target.to_string())
    } else {
        Ok(format!("{}/{}", base.unwrap_or_else(|| "/work".to_string()), target))
    }
}

/// Runs a runner to its end; concurrent units run at once, when dispatched.
fn drive(runner: Runner, trace: &mut Trace) -> Result<(), Failure> {
    let mut runner = runner;
    let mut event = Event::Resumed;
    let mut units: Vec<Result<(), Failure>> = Vec::new();
    loop {
        let (next, action) = runner.advance(event);
        runner = next;
        event = match action {
            Action::Run(invocation) => {
                trace.commands.push(invocation.command.clone());
                trace.cwds.push(invocation.cwd.clone());
                Event::Exited(shell(&invocation.command))
            }
            Action::ChangeDir { command, target, base, .. } => {
                trace.commands.push(command);
                Event::Resolved(resolve(&target, base))
            }
            Action::Pause { ms } => {
                trace.pauses.push(ms);
                Event::Resumed
            }
            Action::Dispatch { group, context } => {
                trace.dispatched.push(group);
                let steps = runner.concurrent_steps(group).unwrap().clone();
                let mut unit_trace = Trace::default();
                let unit = Runner::unit(steps, context, HERE);
                units.push(drive(unit, &mut unit_trace));
                trace.commands.extend(unit_trace.commands);
                trace.contexts.extend(unit_trace.contexts);
                Event::Resumed
            }
            Action::Join => Event::Joined(std::mem::take(&mut units)),
            Action::Finish(result) => {
                trace.contexts.push(runner.context().snapshot());
                return result;
            }
        };
    }
}

fn step(command: &str) -> Command {
    Command { command: command.to_string(), capture: None, description: None, options: None }
}

fn described(command: &str, description: &str) -> CommandTypes {
    CommandTypes::Command(Command {
        command: command.to_string(),
        capture: None,
        description: Some(description.to_string()),
        options: None,
    })
}

fn options(proceed_on_failure: bool) -> Options {
    Options {
        proceed_on_failure,
        delay_ms: None,
        interactive: false,
        operating_system: None,
        fallback: None,
    }
}

fn with_options(command: &str, options: Options) -> CommandTypes {
    CommandTypes::Command(Command {
        command: command.to_string(),
        capture: None,
        description: None,
        options: Some(options),
    })
}

fn fallback(command: &str) -> FallbackCommand {
    FallbackCommand {
        command: command.to_string(),
        description: None,
        options: Some(FallbackOptions {
            proceed_on_failure: false,
            delay_ms: None,
            interactive: false,
            operating_system: None,
        }),
    }
}

fn script(name: &str, params: Option<Vec<&str>>, secrets: Option<Vec<Secret>>, commands: Vec<CommandTypes>) -> Script {
    Script {
        name: name.to_string(),
        description: None,
        params: params.map(|p| p.iter().map(|s| s.to_string()).collect()),
        secrets,
        commands,
    }
}

fn commit_secret() -> Secret {
    Secret { name: "commit_password".to_string(), env_var: "COMMIT_PASSWORD".to_string() }
}

fn strings(values: &[&str]) -> Vec<String> {
    values.iter().map(|s| s.to_string()).collect()
}

/// Checks a script and runs it, as the command line does.
fn run_script(s: Script, params: &[&str], secrets: Vec<Option<String>>, trace: &mut Trace) -> Result<(), Failure> {
    let runner = start(s, &strings(params), &secrets, HERE)?;
    drive(runner, trace)
}

fn run_on(commands: Vec<CommandTypes>, context: Context) -> (Result<(), Failure>, Trace) {
    let mut trace = Trace::default();
    let result = drive(Runner::new(commands, context, HERE), &mut trace);
    (result, trace)
}

#[test]
fn test_build_context() {
    let s = Script {
        name: "Test Script".to_string(),
        description: Some("A script for testing".to_string()),
        params: Some(strings(&["param1", "param2"])),
        secrets: Some(vec![commit_secret()]),
        commands: vec![described("echo 'Hello World'", "Prints Hello World")],
    };
    let context = build_context(&s, &strings(&["value1", "value2"]), &vec![Some("secret123".to_string())])
        .expect("Failed to build context");
    assert_eq!(context.get("param1"), Some("value1".to_string()));
    assert_eq!(context.get("param2"), Some("value2".to_string()));
    assert_eq!(context.get("commit_password"), Some("secret123".to_string()));
}

#[test]
fn secret_wins_over_parameter_of_same_name() {
    let s = script("s", Some(vec!["commit_password"]), Some(vec![commit_secret()]), vec![]);
    let context = build_context(&s, &strings(&["from cli"]), &vec![Some("from env".to_string())]).unwrap();
    assert_eq!(context.get("commit_password"), Some("from env".to_string()));
}

#[test]
fn later_parameter_name_wins() {
    let s = script("s", Some(vec!["a", "a"]), None, vec![]);
    let context = build_context(&s, &strings(&["x", "y"]), &vec![]).unwrap();
    assert_eq!(context.get("a"), Some("y".to_string()));
}

#[test]
fn undeclared_parameters_are_ignored() {
    let s = script("s", None, None, vec![]);
    let context = build_context(&s, &strings(&["x"]), &vec![]).unwrap();
    assert_eq!(context.get("x"), None);
}

#[test]
fn first_missing_secret_is_reported() {
    let other = Secret { name: "token".to_string(), env_var: "TOKEN".to_string() };
    let s = script("s", None, Some(vec![commit_secret(), other]), vec![]);
    let result = build_context(&s, &vec![], &vec![Some("a".to_string()), None]);
    assert_eq!(
        result.err(),
        Some(Failure::MissingSecret { name: "token".to_string(), env_var: "TOKEN".to_string() })
    );
    let result = build_context(&s, &vec![], &vec![Some("a".to_string())]);
    assert!(matches!(result, Err(Failure::MissingSecret { .. })));
}

#[test]
fn test_script_run() {
    let (result, trace) = run_on(vec![described("echo 'Hello World'", "Prints Hello World")], Context::new());
    assert!(result.is_ok());
    assert_eq!(trace.commands, strings(&["echo 'Hello World'"]));
}

#[test]
fn test_script_run_with_multiple_commands() {
    let (result, trace) = run_on(
        vec![
            described("echo 'First Command'", "Prints First Command"),
            described("echo 'Second Command'", "Prints Second Command"),
        ],
        Context::new(),
    );
    assert!(result.is_ok());
    assert_eq!(trace.commands, strings(&["echo 'First Command'", "echo 'Second Command'"]));
}

#[test]
fn test_script_run_with_secrets() {
    let mut context = Context::new();
    context.insert("COMMIT_PASSWORD".to_string(), "my_secret_password".to_string());
    let (result, trace) = run_on(vec![described("echo $COMMIT_PASSWORD", "Prints the commit password")], context);
    assert!(result.is_ok());
    assert_eq!(trace.commands, strings(&["echo $COMMIT_PASSWORD"]));
}

#[test]
fn test_script_run_with_params() {
    let mut context = Context::new();
    context.insert("param1".to_string(), "value1".to_string());
    context.insert("param2".to_string(), "value2".to_string());
    let (result, _) = run_on(vec![described("echo $param1 $param2", "Prints parameters")], context);
    assert!(result.is_ok());
}

#[test]
fn test_script_run_with_empty_commands() {
    let (result, trace) = run_on(vec![], Context::new());
    assert!(result.is_ok());
    assert!(trace.commands.is_empty());
}

#[test]
fn run_test_run_success() {
    let s = script("Test Script", None, None, vec![with_options("echo hello", options(false))]);
    let res = run_script(s, &[], vec![], &mut Trace::default());
    assert!(res.is_ok(), "Expected script to succeed");
}

#[test]
fn test_run_param_substitution() {
    let s = script(
        "Commit Script",
        Some(vec!["commit_message"]),
        None,
        vec![with_options("echo Commit message: ${commit_message}", options(false))],
    );
    let mut trace = Trace::default();
    let res = run_script(s, &["My test commit"], vec![], &mut trace);
    assert!(res.is_ok(), "Expected script with parameter substitution to succeed");
    assert_eq!(trace.commands, strings(&["echo Commit message: My test commit"]));
}

#[test]
fn test_run_param_mismatch() {
    let s = script(
        "Commit Script",
        Some(vec!["commit_message"]),
        None,
        vec![with_options("echo Commit message: ${commit_message}", options(false))],
    );
    let mut trace = Trace::default();
    let res = run_script(s, &[], vec![], &mut trace);
    assert!(res.is_err(), "Expected script to fail due to parameter mismatch");
    assert_eq!(res.err(), Some(Failure::ParameterCount { expected: 1, supplied: 0 }));
    assert!(trace.commands.is_empty());
}

#[test]
fn too_many_parameters_fail_before_any_step() {
    let s = script("s", Some(vec!["a"]), None, vec![CommandTypes::Command(step("echo ${a}"))]);
    let mut trace = Trace::default();
    let res = run_script(s, &["x", "y"], vec![], &mut trace);
    assert_eq!(res.err(), Some(Failure::ParameterCount { expected: 1, supplied: 2 }));
    assert!(trace.commands.is_empty());
}

fn os_only(command: &str, os: OperatingSystem, delay_ms: Option<u64>) -> CommandTypes {
    let mut o = options(false);
    o.operating_system = Some(os);
    o.delay_ms = delay_ms;
    with_options(command, o)
}

#[test]
fn run_test_run_os_mismatch() {
    let s = script("OS Mismatch Script", None, None, vec![os_only("echo This should not run", OperatingSystem::MacOS, None)]);
    let mut trace = Trace::default();
    let res = run_script(s, &[], vec![], &mut trace);
    assert!(res.is_ok(), "Expected script to succeed by skipping mismatched command");
    assert!(trace.commands.is_empty());
}

#[test]
fn skipped_step_gets_no_pause_and_matching_step_runs() {
    let (result, trace) = run_on(
        vec![
            os_only("echo windows", OperatingSystem::Windows, Some(500)),
            os_only("echo linux", OperatingSystem::Linux, Some(20)),
        ],
        Context::new(),
    );
    assert!(result.is_ok());
    assert_eq!(trace.commands, strings(&["echo linux"]));
    assert_eq!(trace.pauses, vec![20]);
}

#[test]
fn unknown_platform_skips_every_filtered_step() {
    let mut trace = Trace::default();
    let runner = Runner::new(vec![os_only("echo x", OperatingSystem::Linux, None)], Context::new(), None);
    assert!(drive(runner, &mut trace).is_ok());
    assert!(trace.commands.is_empty());
}

#[test]
fn run_test_run_failure_stops() {
    let s = script(
        "Fail Script",
        None,
        None,
        vec![with_options("sh -c 'exit 1'", options(false)), with_options("echo after", options(false))],
    );
    let mut trace = Trace::default();
    let res = run_script(s, &[], vec![], &mut trace);
    assert!(res.is_err(), "Expected script to fail and stop execution");
    assert_eq!(trace.commands, strings(&["sh -c 'exit 1'"]));
    assert_eq!(
        res.err(),
        Some(Failure::Step {
            command: "sh -c 'exit 1'".to_string(),
            cause: "`sh -c 'exit 1'` failed".to_string(),
        })
    );
}

#[test]
fn run_test_run_failure_proceed() {
    let s = script(
        "Proceed Script",
        None,
        None,
        vec![with_options("sh -c 'exit 1'", options(true)), with_options("echo continuing", options(false))],
    );
    let mut trace = Trace::default();
    let res = run_script(s, &[], vec![], &mut trace);
    assert!(res.is_ok(), "Expected script to continue despite a failure");
    assert_eq!(trace.commands, strings(&["sh -c 'exit 1'", "echo continuing"]));
}

#[test]
fn tolerated_failure_still_pauses() {
    let mut o = options(true);
    o.delay_ms = Some(5);
    let (result, trace) = run_on(vec![with_options("exit 1", o), CommandTypes::Command(step("echo next"))], Context::new());
    assert!(result.is_ok());
    assert_eq!(trace.pauses, vec![5]);
    assert_eq!(trace.commands, strings(&["exit 1", "echo next"]));
}

#[test]
fn test_secret_substitution_success() {
    let s = script(
        "Commit Changes",
        Some(vec!["commit_message"]),
        Some(vec![commit_secret()]),
        vec![with_options("echo ${commit_message} ${commit_password} > output.txt", options(false))],
    );
    let mut trace = Trace::default();
    let res = run_script(s, &["My commit message"], vec![Some("secret_value".to_string())], &mut trace);
    assert!(res.is_ok(), "Expected script to succeed");
    assert_eq!(trace.commands, strings(&["echo My commit message secret_value > output.txt"]));
}

#[test]
fn test_secret_missing_failure() {
    let s = script(
        "Commit Changes",
        Some(vec!["commit_message"]),
        Some(vec![commit_secret()]),
        vec![with_options("echo ${commit_message} ${commit_password}", options(false))],
    );
    let mut trace = Trace::default();
    let res = run_script(s, &["My commit message"], vec![None], &mut trace);
    assert!(res.is_err(), "Expected failure due to missing secret");
    assert_eq!(
        res.err(),
        Some(Failure::MissingSecret {
            name: "commit_password".to_string(),
            env_var: "COMMIT_PASSWORD".to_string(),
        })
    );
    assert!(trace.commands.is_empty());
}

fn with_fallbacks(command: &str, proceed: bool, fallbacks: Vec<FallbackCommand>) -> CommandTypes {
    let mut o = options(proceed);
    o.fallback = Some(fallbacks);
    with_options(command, o)
}

#[test]
fn test_on_failure_chain_executes_and_bails() {
    let s = script(
        "OnFailure Bail",
        None,
        None,
        vec![with_fallbacks("sh -c 'exit 1'", false, vec![fallback("echo BAILBACK > fallback2.txt")])],
    );
    let mut trace = Trace::default();
    let res = run_script(s, &[], vec![], &mut trace);
    assert_eq!(trace.commands, strings(&["sh -c 'exit 1'", "echo BAILBACK > fallback2.txt"]));
    assert!(res.is_err(), "Expected run() to Err after retry");
}

#[test]
fn fallback_chain_runs_each_once_in_order_despite_failures() {
    let mut context = Context::new();
    context.insert("who".to_string(), "ops".to_string());
    let (result, trace) = run_on(
        vec![
            with_fallbacks("exit 1", true, vec![fallback("echo a ${who}"), fallback("exit 1 b"), fallback("echo c")]),
            CommandTypes::Command(step("echo after")),
        ],
        context,
    );
    assert!(result.is_ok());
    assert_eq!(trace.commands, strings(&["exit 1", "echo a ops", "exit 1 b", "echo c", "echo after"]));
}

#[test]
fn fallback_success_does_not_clear_the_failure() {
    let (result, trace) = run_on(
        vec![with_fallbacks("exit 1", false, vec![fallback("echo fixed")]), CommandTypes::Command(step("echo after"))],
        Context::new(),
    );
    assert_eq!(trace.commands, strings(&["exit 1", "echo fixed"]));
    assert_eq!(
        result.err(),
        Some(Failure::Step { command: "exit 1".to_string(), cause: "`exit 1` failed".to_string() })
    );
}

fn capturing(command: &str, name: &str) -> CommandTypes {
    CommandTypes::Command(Command {
        command: command.to_string(),
        capture: Some(name.to_string()),
        description: None,
        options: None,
    })
}

#[test]
fn capture_is_trimmed_and_seen_by_later_steps() {
    let (result, trace) = run_on(
        vec![capturing("echo hello", "out"), CommandTypes::Command(step("echo got ${out}"))],
        Context::new(),
    );
    assert!(result.is_ok());
    assert_eq!(trace.commands, strings(&["echo hello", "echo got hello"]));
    assert_eq!(trace.contexts.last().unwrap().get("out"), Some("hello".to_string()));
}

#[test]
fn failed_capture_stores_nothing() {
    let (result, trace) = run_on(vec![capturing("exit 1", "out")], Context::new());
    assert!(result.is_err());
    assert_eq!(trace.contexts.last().unwrap().get("out"), None);
}

#[test]
fn directory_change_sets_working_directory() {
    let (result, trace) = run_on(
        vec![
            CommandTypes::Command(step("cd /srv")),
            CommandTypes::Command(step("echo one")),
            CommandTypes::Command(step("cd app")),
            CommandTypes::Command(step("echo two")),
        ],
        Context::new(),
    );
    assert!(result.is_ok());
    assert_eq!(trace.commands, strings(&["cd /srv", "echo one", "cd app", "echo two"]));
    assert_eq!(trace.cwds, vec![Some("/srv".to_string()), Some("/srv/app".to_string())]);
    assert_eq!(trace.contexts.last().unwrap().cwd(), Some("/srv/app".to_string()));
}

#[test]
fn invalid_directory_fails_the_step() {
    let (result, trace) = run_on(
        vec![CommandTypes::Command(step("cd missing")), CommandTypes::Command(step("echo never"))],
        Context::new(),
    );
    assert_eq!(trace.commands, strings(&["cd missing"]));
    assert_eq!(
        result.err(),
        Some(Failure::Step {
            command: "cd missing".to_string(),
            cause: "no such directory: missing".to_string(),
        })
    );
}

#[test]
fn directory_from_context_is_substituted() {
    let mut context = Context::new();
    context.insert("dir".to_string(), "/data".to_string());
    let (result, trace) = run_on(
        vec![CommandTypes::Command(step("cd ${dir}")), CommandTypes::Command(step("echo in"))],
        context,
    );
    assert!(result.is_ok());
    assert_eq!(trace.cwds, vec![Some("/data".to_string())]);
}

#[test]
fn concurrent_units_are_isolated_and_joined() {
    let (result, trace) = run_on(
        vec![
            CommandTypes::Commands(vec![
                Command { command: "echo unit".to_string(), capture: Some("x".to_string()), description: None, options: None },
                step("echo first ${x}"),
            ]),
            CommandTypes::Commands(vec![step("echo second ${x}")]),
            CommandTypes::Command(step("echo main ${x}")),
        ],
        Context::new(),
    );
    assert!(result.is_ok());
    assert_eq!(trace.dispatched, vec![0, 1]);
    assert_eq!(
        trace.commands,
        strings(&["echo unit", "echo first unit", "echo second ${x}", "echo main ${x}"])
    );
    let main = trace.contexts.last().unwrap();
    assert_eq!(main.get("x"), None);
}

#[test]
fn unit_failure_is_reported_after_the_main_flow() {
    let (result, trace) = run_on(
        vec![
            CommandTypes::Commands(vec![step("exit 1 first"), step("echo skipped")]),
            CommandTypes::Commands(vec![step("exit 1 second")]),
            CommandTypes::Command(step("echo main")),
        ],
        Context::new(),
    );
    assert_eq!(trace.commands, strings(&["exit 1 first", "exit 1 second", "echo main"]));
    assert_eq!(
        result.err(),
        Some(Failure::Step { command: "exit 1 first".to_string(), cause: "`exit 1 first` failed".to_string() })
    );
}

#[test]
fn main_failure_still_awaits_units() {
    let mut runner = Runner::new(
        vec![CommandTypes::Commands(vec![step("echo unit")]), CommandTypes::Command(step("exit 1"))],
        Context::new(),
        HERE,
    );
    let (next, action) = runner.advance(Event::Resumed);
    runner = next;
    assert!(matches!(action, Action::Dispatch { group: 0, .. }));
    let (next, action) = runner.advance(Event::Resumed);
    runner = next;
    assert!(matches!(action, Action::Run(_)));
    let (next, action) = runner.advance(Event::Exited(Err("boom".to_string())));
    runner = next;
    assert!(matches!(action, Action::Join));
    let (next, action) = runner.advance(Event::Joined(vec![Ok(())]));
    runner = next;
    let expected = Failure::Step { command: "exit 1".to_string(), cause: "boom".to_string() };
    match action {
        Action::Finish(Err(f)) => assert_eq!(f, expected),
        _ => panic!("expected the run to finish"),
    }
    let (_, action) = runner.advance(Event::Resumed);
    assert!(matches!(action, Action::Finish(Err(_))));
}

#[test]
fn invocation_carries_step_settings() {
    let mut o = options(false);
    o.interactive = true;
    let runner = Runner::new(
        vec![CommandTypes::Command(Command {
            command: "echo ${a}".to_string(),
            capture: Some("v".to_string()),
            description: Some("says a".to_string()),
            options: Some(o),
        })],
        {
            let mut c = Context::new();
            c.insert("a".to_string(), "1".to_string());
            c.insert("cwd".to_string(), "/tmp".to_string());
            c
        },
        HERE,
    );
    let (_, action) = runner.advance(Event::Resumed);
    match action {
        Action::Run(i) => {
            assert_eq!(i.command, "echo 1");
            assert_eq!(i.description, Some("says a".to_string()));
            assert_eq!(i.cwd, Some("/tmp".to_string()));
            assert!(i.interactive);
            assert!(i.capture);
        }
        _ => panic!("expected a process launch"),
    }
}

#[test]
fn yaml_test_run_success() {
    let (result, _) = run_on(vec![with_options("echo hello", options(false))], Context::new());
    assert!(result.is_ok(), "Expected script to succeed");
}

#[test]
fn yaml_test_run_os_mismatch() {
    let (result, trace) = run_on(
        vec![os_only("echo This should not run", OperatingSystem::MacOS, None)],
        Context::new(),
    );
    assert!(result.is_ok(), "Expected script to succeed by skipping mismatched commands");
    assert!(trace.commands.is_empty());
}

#[test]
fn yaml_test_run_failure_stops() {
    let (result, trace) = run_on(
        vec![with_options("sh -c 'exit 1'", options(false)), with_options("echo after", options(false))],
        Context::new(),
    );
    assert!(result.is_err(), "Expected script to fail and stop execution");
    assert_eq!(trace.commands.len(), 1);
}

#[test]
fn yaml_test_run_failure_proceed() {
    let (result, _) = run_on(
        vec![with_options("sh -c 'exit 1'", options(true)), with_options("echo continuing", options(false))],
        Context::new(),
    );
    assert!(result.is_ok(), "Expected script to continue despite a failure");
}

#[test]
fn directory_change_carries_command_and_description() {
    let runner = Runner::new(
        vec![CommandTypes::Command(Command {
            command: "  cd ${d} ".to_string(),
            capture: None,
            description: Some("enter".to_string()),
            options: None,
        })],
        {
            let mut c = Context::new();
            c.insert("d".to_string(), "build".to_string());
            c
        },
        HERE,
    );
    let (_, action) = runner.advance(Event::Resumed);
    match action {
        Action::ChangeDir { command, description, target, base } => {
            assert_eq!(command, "  cd build ");
            assert_eq!(description, Some("enter".to_string()));
            assert_eq!(target, "build");
            assert_eq!(base, None);
        }
        _ => panic!("expected a directory change"),
    }
}

#[test]
fn join_waits_for_the_results() {
    let runner = Runner::new(vec![CommandTypes::Commands(vec![step("echo unit")])], Context::new(), HERE);
    let (runner, action) = runner.advance(Event::Resumed);
    assert!(matches!(action, Action::Dispatch { group: 0, .. }));
    let (runner, action) = runner.advance(Event::Resumed);
    assert!(matches!(action, Action::Join));
    let (runner, action) = runner.advance(Event::Resumed);
    assert!(matches!(action, Action::Join));
    let failed = Failure::Step { command: "x".to_string(), cause: "y".to_string() };
    let (_, action) = runner.advance(Event::Joined(vec![Err(failed.clone())]));
    match action {
        Action::Finish(Err(f)) => assert_eq!(f, failed),
        _ => panic!("expected the run to finish with the unit's failure"),
    }
}

#[test]
fn capture_trims_unicode_whitespace() {
    let runner = Runner::new(vec![capturing("produce", "out")], Context::new(), HERE);
    let (runner, _) = runner.advance(Event::Resumed);
    let (runner, action) = runner.advance(Event::Exited(Ok("\u{3000}\t hello\n\u{a0}".to_string())));
    assert!(matches!(action, Action::Finish(Ok(()))));
    assert_eq!(runner.context().get("out"), Some("hello".to_string()));
}
