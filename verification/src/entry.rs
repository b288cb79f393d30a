//! The entry-point builder: configuration resolution for a `main`-style
//! routine wrapper.
//!
//! A wrapped routine is described by its [`SignatureShape`]; the named options
//! that configure the wrapper are a sequence of [`MainArg`] values. Resolution
//! walks the options in order, rejecting the first offending one (an
//! unrecognized name, a value where none is allowed, a malformed or duplicate
//! value, or a second exit-strategy flag), and produces a [`ResolvedConfig`]:
//! which exit strategy governs the routine's return value, which asynchronous
//! runtime (if any) to bootstrap, an optional diagnostics port, and an
//! optional blocking-thread budget. [`generate_plan`] combines that with
//! signature validation into the full [`EntryPlan`] a generated entry point
//! follows.

use vstd::prelude::*;

verus! {

/// How the routine's return value maps to process exit behavior.
///
/// The variants are pairwise exclusive; resolution rejects a configuration
/// that selects more than one of the flags that choose them.
#[derive(Clone, Copy, Debug, PartialEq, Eq, Structural)]
pub enum ExitStrategy {
    /// Exit through the standard output mapping, with a fixed choice of
    /// whether a failure's debug representation is also printed.
    Standard { debug: bool },
    /// Exit through a caller-supplied custom mapping from the failure value
    /// to an exit status.
    Custom,
    /// Exit through the standard mapping, printing the debug representation
    /// exactly when the parsed command-line arguments request verbosity.
    DebugOnVerboseFlag,
}

/// Which asynchronous execution context the wrapper bootstraps.
#[derive(Clone, Copy, Debug, PartialEq, Eq, Structural)]
pub enum RuntimeChoice {
    /// The routine is synchronous and is called directly.
    Direct,
    /// A multi-threaded runtime is built, configured with the blocking-thread
    /// budget if one was given, and runs the routine to completion.
    DefaultRuntime,
    /// Runtime bootstrap is delegated entirely to the alternate runtime's own
    /// entry-point convention.
    AlternateRuntime,
}

/// The name of one configuration option, as written in the wrapper's
/// attribute-like option list.
#[derive(Clone, Copy, Debug, PartialEq, Eq, Structural)]
pub enum ArgName {
    /// Request a diagnostics listener on the given port.
    Console,
    /// Select [`ExitStrategy::Custom`].
    CustomExit,
    /// Select [`ExitStrategy::Standard`] with debug output.
    Debug,
    /// Configure the blocking-thread budget of the default runtime.
    MaxBlockingThreads,
    /// Select [`ExitStrategy::Standard`] without debug output.
    NoDebug,
    /// Select [`RuntimeChoice::AlternateRuntime`] for an asynchronous routine.
    Rocket,
    /// Select [`ExitStrategy::DebugOnVerboseFlag`].
    VerboseDebug,
    /// Any name other than the seven above.
    Unrecognized,
}

/// The literal value given for an option, if any.
#[derive(Clone, Copy, Debug, PartialEq, Eq, Structural)]
pub enum ArgValue {
    /// An integer literal, carried wide enough for any supported option.
    IntLit(i128),
    /// A literal of any other kind.
    OtherLit,
}

/// One configuration option: a name, optionally with a value.
#[derive(Clone, Copy, Debug, PartialEq, Eq)]
pub struct MainArg {
    /// The option's name.
    pub name: ArgName,
    /// The option's value, for options written as `name = value`.
    pub value: Option<ArgValue>,
}

/// A configuration or signature error, detected at resolution time.
#[derive(Clone, Copy, Debug, PartialEq, Eq, Structural)]
pub enum ConfigError {
    /// An option name that the wrapper does not know.
    UnexpectedArgument,
    /// Two or more of the mutually exclusive exit-strategy flags.
    ExclusiveExitFlags,
    /// The diagnostics-port option was given more than once.
    DuplicateConsole,
    /// The blocking-thread-budget option was given more than once.
    DuplicateMaxBlockingThreads,
    /// The alternate-runtime flag was given more than once.
    DuplicateRocket,
    /// The diagnostics-port option was missing its value, or the value was
    /// not an integer literal in port range.
    ConsoleValueNotPort,
    /// The blocking-thread-budget option was missing its value, or the value
    /// was not an integer literal in budget range.
    BudgetValueNotInt,
    /// A flag option was given a value.
    FlagTakesNoValue,
    /// A diagnostics port was requested but the build does not support the
    /// diagnostics listener.
    DiagnosticsUnsupported,
    /// The routine takes a self-receiver.
    SelfReceiver,
    /// The routine takes two or more parameters.
    TooManyParameters,
}

/// The state accumulated while walking the option list.
#[derive(Clone, Copy, Debug, PartialEq, Eq)]
pub struct ResolveState {
    /// The exit strategy selected so far, if any flag chose one.
    pub strategy: Option<ExitStrategy>,
    /// The diagnostics port seen so far.
    pub console: Option<u16>,
    /// The blocking-thread budget seen so far.
    pub budget: Option<i16>,
    /// Whether the alternate-runtime flag was seen.
    pub rocket: bool,
}

/// The configuration a valid option list resolves to.
#[derive(Clone, Copy, Debug, PartialEq, Eq)]
pub struct ResolvedConfig {
    /// How the routine's return value maps to process exit behavior.
    pub exit_strategy: ExitStrategy,
    /// Which asynchronous execution context to bootstrap.
    pub runtime: RuntimeChoice,
    /// The port for the diagnostics listener, if one was requested.
    pub diagnostics_port: Option<u16>,
    /// The blocking-thread budget, if one was given; positive values are
    /// absolute, non-positive values offsets from the available parallelism.
    pub blocking_thread_budget: Option<i16>,
}

/// The state before any option has been seen.
pub open spec fn init_state() -> ResolveState {
    ResolveState { strategy: None, console: None, budget: None, rocket: false }
}

/// Whether this option is one of the four mutually exclusive exit-strategy
/// flags.
pub open spec fn is_exit_flag(arg: MainArg) -> bool {
    ||| arg.name is CustomExit
    ||| arg.name is Debug
    ||| arg.name is NoDebug
    ||| arg.name is VerboseDebug
}

/// The exit strategy a single exit-strategy flag selects.
pub open spec fn flag_strategy(name: ArgName) -> ExitStrategy {
    match name {
        ArgName::CustomExit => ExitStrategy::Custom,
        ArgName::NoDebug => ExitStrategy::Standard { debug: false },
        ArgName::VerboseDebug => ExitStrategy::DebugOnVerboseFlag,
        _ => ExitStrategy::Standard { debug: true },
    }
}

/// The effect of one option on the resolution state: the next state, or the
/// error that rejects the option.
pub open spec fn spec_resolve_step(state: ResolveState, arg: MainArg) -> Result<
    ResolveState,
    ConfigError,
> {
    match arg.name {
        ArgName::Console => match arg.value {
            Some(ArgValue::IntLit(v)) => if state.console is Some {
                Err(ConfigError::DuplicateConsole)
            } else if 0 <= v <= u16::MAX as i128 {
                Ok(ResolveState { console: Some(v as u16), ..state })
            } else {
                Err(ConfigError::ConsoleValueNotPort)
            },
            _ => Err(ConfigError::ConsoleValueNotPort),
        },
        ArgName::MaxBlockingThreads => match arg.value {
            Some(ArgValue::IntLit(v)) => if state.budget is Some {
                Err(ConfigError::DuplicateMaxBlockingThreads)
            } else if i16::MIN as i128 <= v <= i16::MAX as i128 {
                Ok(ResolveState { budget: Some(v as i16), ..state })
            } else {
                Err(ConfigError::BudgetValueNotInt)
            },
            _ => Err(ConfigError::BudgetValueNotInt),
        },
        ArgName::Rocket => if arg.value is Some {
            Err(ConfigError::FlagTakesNoValue)
        } else if state.rocket {
            Err(ConfigError::DuplicateRocket)
        } else {
            Ok(ResolveState { rocket: true, ..state })
        },
        ArgName::Unrecognized => Err(ConfigError::UnexpectedArgument),
        _ => if arg.value is Some {
            Err(ConfigError::FlagTakesNoValue)
        } else if state.strategy is Some {
            Err(ConfigError::ExclusiveExitFlags)
        } else {
            Ok(ResolveState { strategy: Some(flag_strategy(arg.name)), ..state })
        },
    }
}

/// Folds [`spec_resolve_step`] over an option list, stopping at the first
/// error.
pub open spec fn spec_resolve_seq(args: Seq<MainArg>, state: ResolveState) -> Result<
    ResolveState,
    ConfigError,
>
    decreases args.len(),
{
    if args.len() == 0 {
        Ok(state)
    } else {
        match spec_resolve_step(state, args[0]) {
            Ok(next) => spec_resolve_seq(args.drop_first(), next),
            Err(e) => Err(e),
        }
    }
}

/// The configuration a fully-walked state stands for: absent any exit flag
/// the standard strategy with debug output is the default, and the runtime
/// choice follows the routine's asynchrony (the alternate-runtime flag is
/// meaningful only for an asynchronous routine).
pub open spec fn spec_config_from_state(state: ResolveState, is_async: bool) -> ResolvedConfig {
    ResolvedConfig {
        exit_strategy: match state.strategy {
            Some(s) => s,
            None => ExitStrategy::Standard { debug: true },
        },
        runtime: if !is_async {
            RuntimeChoice::Direct
        } else if state.rocket {
            RuntimeChoice::AlternateRuntime
        } else {
            RuntimeChoice::DefaultRuntime
        },
        diagnostics_port: state.console,
        blocking_thread_budget: state.budget,
    }
}

/// What an option list resolves to, for a routine of the given asynchrony.
pub open spec fn spec_resolve_config(args: Seq<MainArg>, is_async: bool) -> Result<
    ResolvedConfig,
    ConfigError,
> {
    match spec_resolve_seq(args, init_state()) {
        Ok(state) => Ok(spec_config_from_state(state, is_async)),
        Err(e) => Err(e),
    }
}

/// Applies one option to the resolution state.
fn resolve_step(state: ResolveState, arg: &MainArg) -> (r: Result<ResolveState, ConfigError>)
    ensures
        r == spec_resolve_step(state, *arg),
{
    match arg.name {
        ArgName::Console => match &arg.value {
            Some(ArgValue::IntLit(v)) => {
                let v = *v;
                if state.console.is_some() {
                    Err(ConfigError::DuplicateConsole)
                } else if 0 <= v && v <= u16::MAX as i128 {
                    Ok(ResolveState { console: Some(v as u16), ..state })
                } else {
                    Err(ConfigError::ConsoleValueNotPort)
                }
            },
            _ => Err(ConfigError::ConsoleValueNotPort),
        },
        ArgName::MaxBlockingThreads => match &arg.value {
            Some(ArgValue::IntLit(v)) => {
                let v = *v;
                if state.budget.is_some() {
                    Err(ConfigError::DuplicateMaxBlockingThreads)
                } else if i16::MIN as i128 <= v && v <= i16::MAX as i128 {
                    Ok(ResolveState { budget: Some(v as i16), ..state })
                } else {
                    Err(ConfigError::BudgetValueNotInt)
                }
            },
            _ => Err(ConfigError::BudgetValueNotInt),
        },
        ArgName::Rocket => {
            if arg.value.is_some() {
                Err(ConfigError::FlagTakesNoValue)
            } else if state.rocket {
                Err(ConfigError::DuplicateRocket)
            } else {
                Ok(ResolveState { rocket: true, ..state })
            }
        },
        ArgName::Unrecognized => Err(ConfigError::UnexpectedArgument),
        _ => {
            if arg.value.is_some() {
                Err(ConfigError::FlagTakesNoValue)
            } else if state.strategy.is_some() {
                Err(ConfigError::ExclusiveExitFlags)
            } else {
                let strategy = match arg.name {
                    ArgName::CustomExit => ExitStrategy::Custom,
                    ArgName::NoDebug => ExitStrategy::Standard { debug: false },
                    ArgName::VerboseDebug => ExitStrategy::DebugOnVerboseFlag,
                    _ => ExitStrategy::Standard { debug: true },
                };
                Ok(ResolveState { strategy: Some(strategy), ..state })
            }
        },
    }
}

/// Resolves an option list into a configuration, rejecting the first
/// offending option.
pub fn resolve_config(args: &Vec<MainArg>, is_async: bool) -> (r: Result<
    ResolvedConfig,
    ConfigError,
>)
    ensures
        r == spec_resolve_config(args@, is_async),
{
    let mut state = ResolveState { strategy: None, console: None, budget: None, rocket: false };
    let mut i: usize = 0;
    proof {
        assert(args@.subrange(0, args@.len() as int) =~= args@);
    }
    while i < args.len()
        invariant
            0 <= i <= args@.len(),
            spec_resolve_seq(args@, init_state()) == spec_resolve_seq(
                args@.subrange(i as int, args@.len() as int),
                state,
            ),
        decreases args@.len() - i,
    {
        proof {
            let rest = args@.subrange(i as int, args@.len() as int);
            assert(rest[0] == args@[i as int]);
            assert(rest.drop_first() =~= args@.subrange(i as int + 1, args@.len() as int));
        }
        match resolve_step(state, &args[i]) {
            Ok(next) => {
                state = next;
            },
            Err(e) => {
                return Err(e);
            },
        }
        i += 1;
    }
    proof {
        assert(args@.subrange(args@.len() as int, args@.len() as int) =~= Seq::<
            MainArg,
        >::empty());
    }
    Ok(
        ResolvedConfig {
            exit_strategy: match state.strategy {
                Some(s) => s,
                None => ExitStrategy::Standard { debug: true },
            },
            runtime: if !is_async {
                RuntimeChoice::Direct
            } else if state.rocket {
                RuntimeChoice::AlternateRuntime
            } else {
                RuntimeChoice::DefaultRuntime
            },
            diagnostics_port: state.console,
            blocking_thread_budget: state.budget,
        },
    )
}

/// How many of the options in the list are exit-strategy flags.
pub open spec fn exit_flag_count(args: Seq<MainArg>) -> int
    decreases args.len(),
{
    if args.len() == 0 {
        0
    } else {
        (if is_exit_flag(args[0]) {
            1int
        } else {
            0int
        }) + exit_flag_count(args.drop_first())
    }
}

proof fn lemma_exit_flags_conflict_from(args: Seq<MainArg>, state: ResolveState)
    requires
        exit_flag_count(args) + (if state.strategy is Some {
            1int
        } else {
            0int
        }) >= 2,
    ensures
        spec_resolve_seq(args, state) is Err,
    decreases args.len(),
{
    if args.len() == 0 {
        assert(exit_flag_count(args) == 0);
    } else {
        match spec_resolve_step(state, args[0]) {
            Ok(next) => {
                lemma_exit_flags_conflict_from(args.drop_first(), next);
            },
            Err(_) => {},
        }
    }
}

/// Mutual exclusivity of the exit-strategy flags: any option list that
/// selects two or more of them fails to resolve; none is silently picked.
pub proof fn lemma_exclusive_flags_rejected(args: Seq<MainArg>, is_async: bool)
    requires
        exit_flag_count(args) >= 2,
    ensures
        spec_resolve_config(args, is_async) is Err,
{
    lemma_exit_flags_conflict_from(args, init_state());
}

proof fn lemma_pure_flags_exclusive_from(args: Seq<MainArg>, state: ResolveState)
    requires
        forall|i: int| 0 <= i < args.len() ==> is_exit_flag(#[trigger] args[i]),
        forall|i: int| 0 <= i < args.len() ==> (#[trigger] args[i]).value is None,
        state.strategy is Some ==> args.len() >= 1,
        state.strategy is None ==> args.len() >= 2,
    ensures
        spec_resolve_seq(args, state) == Err::<ResolveState, ConfigError>(
            ConfigError::ExclusiveExitFlags,
        ),
    decreases args.len(),
{
    let next = spec_resolve_step(state, args[0]);
    if state.strategy is Some {
        assert(next == Err::<ResolveState, ConfigError>(ConfigError::ExclusiveExitFlags));
    } else {
        lemma_pure_flags_exclusive_from(args.drop_first(), next->Ok_0);
    }
}

/// When every option in the list is an exit-strategy flag given without a
/// value and there are at least two of them, resolution fails with the
/// mutual-exclusivity error itself.
pub proof fn lemma_exclusive_flags_error(args: Seq<MainArg>, is_async: bool)
    requires
        args.len() >= 2,
        forall|i: int| 0 <= i < args.len() ==> is_exit_flag(#[trigger] args[i]),
        forall|i: int| 0 <= i < args.len() ==> (#[trigger] args[i]).value is None,
    ensures
        spec_resolve_config(args, is_async) == Err::<ResolvedConfig, ConfigError>(
            ConfigError::ExclusiveExitFlags,
        ),
{
    lemma_pure_flags_exclusive_from(args, init_state());
}

/// One input of the wrapped routine.
#[derive(Clone, Copy, Debug, PartialEq, Eq, Structural)]
pub enum ParamKind {
    /// A self-receiver.
    Receiver,
    /// An ordinary typed parameter.
    Typed,
}

/// The shape of the wrapped routine's signature, as far as the wrapper reads
/// it: whether it is asynchronous, and what inputs it declares.
#[derive(Clone, Debug, PartialEq, Eq)]
pub struct SignatureShape {
    /// Whether the routine is asynchronous.
    pub is_async: bool,
    /// The routine's inputs, in order.
    pub inputs: Vec<ParamKind>,
}

/// Which command-line parser the generated entry point builds.
#[derive(Clone, Copy, Debug, PartialEq, Eq, Structural)]
pub enum ParserPlan {
    /// The routine's single parameter type parses the command line itself.
    UserType,
    /// A minimal parser exposing only help and version requests, plus a
    /// verbose flag when the exit strategy needs one.
    Minimal { include_verbose: bool },
}

/// The full plan a generated entry point follows.
#[derive(Clone, Copy, Debug, PartialEq, Eq)]
pub struct EntryPlan {
    /// The resolved configuration.
    pub config: ResolvedConfig,
    /// Which command-line parser to build.
    pub parser: ParserPlan,
}

/// What signature validation returns: whether the routine takes its single
/// typed parameter, or the error that rejects the signature.
pub open spec fn spec_validate_signature(sig: SignatureShape) -> Result<bool, ConfigError> {
    if sig.inputs.len() >= 2 {
        Err(ConfigError::TooManyParameters)
    } else if sig.inputs.len() == 1 && sig.inputs[0] is Receiver {
        Err(ConfigError::SelfReceiver)
    } else {
        Ok(sig.inputs.len() == 1)
    }
}

/// Validates the routine's signature: at most one input, and not a
/// self-receiver. Returns whether the routine takes a parameter.
pub fn validate_signature(sig: &SignatureShape) -> (r: Result<bool, ConfigError>)
    ensures
        r == spec_validate_signature(*sig),
{
    if sig.inputs.len() >= 2 {
        Err(ConfigError::TooManyParameters)
    } else if sig.inputs.len() == 1 && matches!(sig.inputs[0], ParamKind::Receiver) {
        Err(ConfigError::SelfReceiver)
    } else {
        Ok(sig.inputs.len() == 1)
    }
}

/// The plan an option list and a routine signature generate: options are
/// checked first, then the signature, then whether a requested diagnostics
/// port is supported by the build.
pub open spec fn spec_generate_plan(
    args: Seq<MainArg>,
    sig: SignatureShape,
    supports_diagnostics: bool,
) -> Result<EntryPlan, ConfigError> {
    match spec_resolve_config(args, sig.is_async) {
        Err(e) => Err(e),
        Ok(config) => match spec_validate_signature(sig) {
            Err(e) => Err(e),
            Ok(has_param) => if config.diagnostics_port is Some && !supports_diagnostics {
                Err(ConfigError::DiagnosticsUnsupported)
            } else {
                Ok(
                    EntryPlan {
                        config,
                        parser: if has_param {
                            ParserPlan::UserType
                        } else {
                            ParserPlan::Minimal {
                                include_verbose: config.exit_strategy is DebugOnVerboseFlag,
                            }
                        },
                    },
                )
            },
        },
    }
}

/// Generates the entry-point plan for a routine and its option list, or the
/// first configuration or signature error.
pub fn generate_plan(args: &Vec<MainArg>, sig: &SignatureShape, supports_diagnostics: bool) -> (r:
    Result<EntryPlan, ConfigError>)
    ensures
        r == spec_generate_plan(args@, *sig, supports_diagnostics),
{
    let config = match resolve_config(args, sig.is_async) {
        Ok(config) => config,
        Err(e) => {
            return Err(e);
        },
    };
    let has_param = match validate_signature(sig) {
        Ok(has_param) => has_param,
        Err(e) => {
            return Err(e);
        },
    };
    if config.diagnostics_port.is_some() && !supports_diagnostics {
        return Err(ConfigError::DiagnosticsUnsupported);
    }
    Ok(
        EntryPlan {
            config,
            parser: if has_param {
                ParserPlan::UserType
            } else {
                ParserPlan::Minimal {
                    include_verbose: matches!(
                        config.exit_strategy,
                        ExitStrategy::DebugOnVerboseFlag
                    ),
                }
            },
        },
    )
}

/// A routine signature with two or more parameters, or with a self-receiver,
/// never generates a plan; and whenever the option list itself resolves, the
/// failure is the corresponding signature error.
pub proof fn lemma_bad_signature_rejected(
    args: Seq<MainArg>,
    sig: SignatureShape,
    supports_diagnostics: bool,
)
    requires
        sig.inputs.len() >= 2 || (sig.inputs.len() == 1 && sig.inputs[0] is Receiver),
    ensures
        spec_generate_plan(args, sig, supports_diagnostics) is Err,
        spec_resolve_config(args, sig.is_async) is Ok ==> spec_generate_plan(
            args,
            sig,
            supports_diagnostics,
        ) == Err::<EntryPlan, ConfigError>(
            if sig.inputs.len() >= 2 {
                ConfigError::TooManyParameters
            } else {
                ConfigError::SelfReceiver
            },
        ),
{
}

/// Resolves a blocking-thread budget against the detected available
/// parallelism: a positive budget is an absolute thread count, a non-positive
/// budget an offset from `parallelism`, floored at one thread.
pub open spec fn spec_resolved_budget(budget: int, parallelism: int) -> int {
    if budget > 0 {
        budget
    } else if parallelism + budget >= 1 {
        parallelism + budget
    } else {
        1
    }
}

/// Applies a blocking-thread budget to the available parallelism detected at
/// startup: positive budgets are absolute, non-positive budgets are offsets
/// floored at one thread.
pub fn resolve_blocking_threads(budget: i16, parallelism: usize) -> (r: usize)
    ensures
        r == spec_resolved_budget(budget as int, parallelism as int),
{
    if budget > 0 {
        budget as usize
    } else {
        let offset = (-(budget as i32)) as usize;
        if parallelism > offset {
            parallelism - offset
        } else {
            1
        }
    }
}

} // verus!
