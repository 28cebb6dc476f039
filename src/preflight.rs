use vstd::prelude::*;
use crate::context::Context;
use crate::script::{Script, Secret};

verus! {

/// Why a run did not succeed.
#[derive(Debug, PartialEq, Eq)]
pub enum Failure {
    /// The script declares `expected` parameters and `supplied` were given.
    ParameterCount { expected: usize, supplied: usize },
    /// The environment variable `env_var` of the secret `name` is not set.
    MissingSecret { name: String, env_var: String },
    /// A step failed: its substituted command and the underlying cause.
    Step { command: String, cause: String },
}

/// A failure, over text as sequences of characters.
pub enum FailureView {
    ParameterCount { expected: nat, supplied: nat },
    MissingSecret { name: Seq<char>, env_var: Seq<char> },
    Step { command: Seq<char>, cause: Seq<char> },
}

impl View for Failure {
    type V = FailureView;

    open spec fn view(&self) -> FailureView {
        match self {
            Failure::ParameterCount { expected, supplied } => FailureView::ParameterCount {
                expected: *expected as nat,
                supplied: *supplied as nat,
            },
            Failure::MissingSecret { name, env_var } => FailureView::MissingSecret {
                name: name@,
                env_var: env_var@,
            },
            Failure::Step { command, cause } => FailureView::Step {
                command: command@,
                cause: cause@,
            },
        }
    }
}

impl Clone for Failure {
    fn clone(&self) -> (r: Failure)
        ensures
            r == *self,
    {
        match self {
            Failure::ParameterCount { expected, supplied } => Failure::ParameterCount {
                expected: *expected,
                supplied: *supplied,
            },
            Failure::MissingSecret { name, env_var } => Failure::MissingSecret {
                name: name.clone(),
                env_var: env_var.clone(),
            },
            Failure::Step { command, cause } => Failure::Step {
                command: command.clone(),
                cause: cause.clone(),
            },
        }
    }
}

/// The parameter names a script declares (none when it declares no list).
pub open spec fn declared_params(script: Script) -> Seq<String> {
    match script.params {
        Some(names) => names@,
        None => Seq::empty(),
    }
}

/// The secrets a script declares.
pub open spec fn declared_secrets(script: Script) -> Seq<Secret> {
    match script.secrets {
        Some(defs) => defs@,
        None => Seq::empty(),
    }
}

/// The entries made by binding the first `n` names to the first `n` values,
/// in order: a later name overwrites an equal earlier one.
pub open spec fn bind_params(names: Seq<String>, values: Seq<String>, n: int) -> Map<
    Seq<char>,
    Seq<char>,
>
    decreases n,
{
    if n <= 0 {
        Map::empty()
    } else {
        bind_params(names, values, n - 1).insert(names[n - 1]@, values[n - 1]@)
    }
}

/// The value found for secret `i`, if one was found.
pub open spec fn secret_value(values: Seq<Option<String>>, i: int) -> Option<String> {
    if 0 <= i < values.len() {
        values[i]
    } else {
        None
    }
}

/// `m` with the first `n` secrets bound, in order, to their values.
pub open spec fn bind_secrets(
    m: Map<Seq<char>, Seq<char>>,
    secrets: Seq<Secret>,
    values: Seq<Option<String>>,
    n: int,
) -> Map<Seq<char>, Seq<char>>
    decreases n,
{
    if n <= 0 {
        m
    } else {
        bind_secrets(m, secrets, values, n - 1).insert(
            secrets[n - 1].name@,
            secret_value(values, n - 1).unwrap()@,
        )
    }
}

/// The first secret, from position `i` on, for which no value was found.
pub open spec fn first_missing(secrets: Seq<Secret>, values: Seq<Option<String>>, i: int) -> Option<
    int,
>
    decreases secrets.len() - i,
{
    if i < 0 || i >= secrets.len() {
        None
    } else if secret_value(values, i).is_none() {
        Some(i)
    } else {
        first_missing(secrets, values, i + 1)
    }
}

/// The outcome of the checks before any step runs: a wrong number of
/// parameters fails first, then the first secret without a value; otherwise
/// the initial context binds the parameters in order, then the secrets, which
/// win over a parameter of the same name.
pub open spec fn preflight(
    script: Script,
    params: Seq<String>,
    values: Seq<Option<String>>,
) -> Result<Map<Seq<char>, Seq<char>>, FailureView> {
    let names = declared_params(script);
    let secrets = declared_secrets(script);
    if script.params.is_some() && names.len() != params.len() {
        Err(FailureView::ParameterCount { expected: names.len(), supplied: params.len() })
    } else {
        match first_missing(secrets, values, 0) {
            Some(i) => Err(
                FailureView::MissingSecret { name: secrets[i].name@, env_var: secrets[i].env_var@ },
            ),
            None => Ok(
                bind_secrets(
                    bind_params(names, params, names.len() as int),
                    secrets,
                    values,
                    secrets.len() as int,
                ),
            ),
        }
    }
}

proof fn lemma_first_missing(secrets: Seq<Secret>, values: Seq<Option<String>>, k: int, i: int)
    requires
        0 <= k <= i <= secrets.len(),
        forall|j: int| k <= j < i ==> secret_value(values, j).is_some(),
    ensures
        first_missing(secrets, values, k) == first_missing(secrets, values, i),
    decreases i - k,
{
    if k < i {
        lemma_first_missing(secrets, values, k + 1, i);
    }
}

/// Builds the initial context of a run from the script's declarations, the
/// parameter values given on the command line, and the value found for each
/// declared secret, in declaration order (`None` where its variable is unset).
pub fn build_context(
    script: &Script,
    cli_params: &Vec<String>,
    secret_values: &Vec<Option<String>>,
) -> (r: Result<Context, Failure>)
    ensures
        match r {
            Ok(c) => preflight(*script, cli_params@, secret_values@) == Ok::<
                Map<Seq<char>, Seq<char>>,
                FailureView,
            >(c@),
            Err(f) => preflight(*script, cli_params@, secret_values@) == Err::<
                Map<Seq<char>, Seq<char>>,
                FailureView,
            >(f@),
        },
{
    let mut context = Context::new();
    match &script.params {
        Some(names) => {
            if names.len() != cli_params.len() {
                return Err(
                    Failure::ParameterCount { expected: names.len(), supplied: cli_params.len() },
                );
            }
            let mut i: usize = 0;
            while i < names.len()
                invariant
                    names@ == declared_params(*script),
                    names@.len() == cli_params@.len(),
                    i <= names@.len(),
                    context@ == bind_params(names@, cli_params@, i as int),
                decreases names@.len() - i,
            {
                context.insert(names[i].clone(), cli_params[i].clone());
                i = i + 1;
            }
        },
        None => {
            assert(context@ =~= bind_params(declared_params(*script), cli_params@, 0));
        },
    }
    let ghost base = context@;
    assert(!(script.params.is_some() && declared_params(*script).len() != cli_params@.len()));
    assert(base == bind_params(
        declared_params(*script),
        cli_params@,
        declared_params(*script).len() as int,
    ));
    match &script.secrets {
        Some(defs) => {
            let mut i: usize = 0;
            while i < defs.len()
                invariant
                    defs@ == declared_secrets(*script),
                    !(script.params.is_some() && declared_params(*script).len()
                        != cli_params@.len()),
                    base == bind_params(
                        declared_params(*script),
                        cli_params@,
                        declared_params(*script).len() as int,
                    ),
                    i <= defs@.len(),
                    forall|j: int| 0 <= j < i ==> secret_value(secret_values@, j).is_some(),
                    context@ == bind_secrets(base, defs@, secret_values@, i as int),
                decreases defs@.len() - i,
            {
                let found = if i < secret_values.len() {
                    &secret_values[i]
                } else {
                    &None
                };
                match found {
                    Some(v) => {
                        context.insert(defs[i].name.clone(), v.clone());
                    },
                    None => {
                        proof {
                            lemma_first_missing(defs@, secret_values@, 0, i as int);
                        }
                        return Err(
                            Failure::MissingSecret {
                                name: defs[i].name.clone(),
                                env_var: defs[i].env_var.clone(),
                            },
                        );
                    },
                }
                i = i + 1;
            }
            proof {
                lemma_first_missing(defs@, secret_values@, 0, defs@.len() as int);
            }
        },
        None => {},
    }
    Ok(context)
}

} // verus!
