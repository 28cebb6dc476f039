use vstd::prelude::*;
use crate::context::{substitute, substitution, Context};
use crate::platform::OperatingSystem;

verus! {

/// A secret: a placeholder name and the environment variable it is read from.
#[derive(Debug, Clone)]
pub struct Secret {
    /// The placeholder name to be substituted (e.g. "commit_password").
    pub name: String,
    /// The environment variable holding the value (e.g. "COMMIT_PASSWORD").
    pub env_var: String,
}

/// How a step is executed.
#[derive(Debug, Clone)]
pub struct Options {
    /// If true, the script goes on when this step fails.
    pub proceed_on_failure: bool,
    /// A pause in milliseconds after the step, if any.
    pub delay_ms: Option<u64>,
    /// If true, the process shares the terminal's standard streams.
    pub interactive: bool,
    /// If set, the step runs only on this platform.
    pub operating_system: Option<OperatingSystem>,
    /// Recovery steps run, in order, when the step fails.
    pub fallback: Option<Vec<FallbackCommand>>,
}

/// How a recovery step is executed: the options of a step, without a
/// recovery chain of its own.
#[derive(Debug, Clone)]
pub struct FallbackOptions {
    pub proceed_on_failure: bool,
    pub delay_ms: Option<u64>,
    /// If true, the process shares the terminal's standard streams.
    pub interactive: bool,
    pub operating_system: Option<OperatingSystem>,
}

/// A best-effort recovery step. Only `interactive` of its options is read: a
/// recovery step always runs once, whatever its platform or outcome.
#[derive(Debug, Clone)]
pub struct FallbackCommand {
    /// The command template.
    pub command: String,
    /// What the step does.
    pub description: Option<String>,
    pub options: Option<FallbackOptions>,
}

/// A single step of a script.
#[derive(Debug, Clone)]
pub struct Command {
    /// The command template, with `${name}` placeholders.
    pub command: String,
    /// If set, the trimmed standard output is stored under this name.
    pub capture: Option<String>,
    /// What the step does.
    pub description: Option<String>,
    /// How the step is executed.
    pub options: Option<Options>,
}

impl Command {
    /// Fills the variables of `params` into the command template.
    pub fn substitute_params(&mut self, params: &Context)
        ensures
            final(self).command@ == substitution(old(self).command@, params@),
            final(self).capture == old(self).capture,
            final(self).description == old(self).description,
            final(self).options == old(self).options,
    {
        let command = substitute(self.command.as_str(), params);
        self.command = command;
    }
}

/// A step group: one step in the main flow, or steps run as a concurrent unit.
#[derive(Debug, Clone)]
pub enum CommandTypes {
    /// A step of the main flow.
    Command(Command),
    /// Steps run in order, on a copy of the context, beside the main flow.
    Commands(Vec<Command>),
}

/// A named script: parameters, secrets and step groups in execution order.
#[derive(Debug, Clone)]
pub struct Script {
    /// A descriptive name.
    pub name: String,
    /// What the script does.
    pub description: Option<String>,
    /// The parameter names, in the order in which values are supplied.
    pub params: Option<Vec<String>>,
    /// The secrets the script reads.
    pub secrets: Option<Vec<Secret>>,
    /// The step groups.
    pub commands: Vec<CommandTypes>,
}

} // verus!
