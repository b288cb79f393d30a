use wheel::entry::{
    ArgName, ArgValue, ConfigError, EntryPlan, ExitStrategy, MainArg, ParamKind, ParserPlan,
    ResolvedConfig, RuntimeChoice, SignatureShape, generate_plan, resolve_blocking_threads,
    resolve_config, validate_signature,
};

fn flag(name: ArgName) -> MainArg {
    MainArg { name, value: None }
}

fn valued(name: ArgName, value: i128) -> MainArg {
    MainArg { name, value: Some(ArgValue::IntLit(value)) }
}

#[test]
fn empty_options_default_to_standard_debug() {
    let config = resolve_config(&vec![], false).unwrap();
    assert_eq!(
        config,
        ResolvedConfig {
            exit_strategy: ExitStrategy::Standard { debug: true },
            runtime: RuntimeChoice::Direct,
            diagnostics_port: None,
            blocking_thread_budget: None,
        },
    );
}

#[test]
fn each_exit_flag_selects_its_strategy() {
    let custom = resolve_config(&vec![flag(ArgName::CustomExit)], false).unwrap();
    assert_eq!(custom.exit_strategy, ExitStrategy::Custom);
    let debug = resolve_config(&vec![flag(ArgName::Debug)], false).unwrap();
    assert_eq!(debug.exit_strategy, ExitStrategy::Standard { debug: true });
    let no_debug = resolve_config(&vec![flag(ArgName::NoDebug)], false).unwrap();
    assert_eq!(no_debug.exit_strategy, ExitStrategy::Standard { debug: false });
    let verbose = resolve_config(&vec![flag(ArgName::VerboseDebug)], false).unwrap();
    assert_eq!(verbose.exit_strategy, ExitStrategy::DebugOnVerboseFlag);
}

#[test]
fn two_exit_flags_are_mutually_exclusive() {
    let r = resolve_config(&vec![flag(ArgName::CustomExit), flag(ArgName::Debug)], false);
    assert_eq!(r, Err(ConfigError::ExclusiveExitFlags));
    let r = resolve_config(&vec![flag(ArgName::Debug), flag(ArgName::VerboseDebug)], false);
    assert_eq!(r, Err(ConfigError::ExclusiveExitFlags));
    let r = resolve_config(&vec![flag(ArgName::NoDebug), flag(ArgName::NoDebug)], false);
    assert_eq!(r, Err(ConfigError::ExclusiveExitFlags));
    let r = resolve_config(
        &vec![flag(ArgName::CustomExit), flag(ArgName::Debug), flag(ArgName::VerboseDebug)],
        false,
    );
    assert_eq!(r, Err(ConfigError::ExclusiveExitFlags));
}

#[test]
fn unrecognized_option_is_rejected() {
    let r = resolve_config(&vec![flag(ArgName::Unrecognized)], false);
    assert_eq!(r, Err(ConfigError::UnexpectedArgument));
}

#[test]
fn console_takes_a_port() {
    let config = resolve_config(&vec![valued(ArgName::Console, 6669)], true).unwrap();
    assert_eq!(config.diagnostics_port, Some(6669));
    assert_eq!(config.runtime, RuntimeChoice::DefaultRuntime);
}

#[test]
fn console_rejects_missing_and_malformed_values() {
    let r = resolve_config(&vec![flag(ArgName::Console)], false);
    assert_eq!(r, Err(ConfigError::ConsoleValueNotPort));
    let not_int = MainArg { name: ArgName::Console, value: Some(ArgValue::OtherLit) };
    let r = resolve_config(&vec![not_int], false);
    assert_eq!(r, Err(ConfigError::ConsoleValueNotPort));
    let r = resolve_config(&vec![valued(ArgName::Console, 65536)], false);
    assert_eq!(r, Err(ConfigError::ConsoleValueNotPort));
    let r = resolve_config(&vec![valued(ArgName::Console, -1)], false);
    assert_eq!(r, Err(ConfigError::ConsoleValueNotPort));
}

#[test]
fn console_rejects_duplicates() {
    let r = resolve_config(
        &vec![valued(ArgName::Console, 6669), valued(ArgName::Console, 6670)],
        false,
    );
    assert_eq!(r, Err(ConfigError::DuplicateConsole));
}

#[test]
fn blocking_thread_budget_takes_a_signed_count() {
    let config = resolve_config(&vec![valued(ArgName::MaxBlockingThreads, -1)], true).unwrap();
    assert_eq!(config.blocking_thread_budget, Some(-1));
    let r = resolve_config(&vec![flag(ArgName::MaxBlockingThreads)], false);
    assert_eq!(r, Err(ConfigError::BudgetValueNotInt));
    let r = resolve_config(&vec![valued(ArgName::MaxBlockingThreads, 40000)], false);
    assert_eq!(r, Err(ConfigError::BudgetValueNotInt));
    let r = resolve_config(
        &vec![valued(ArgName::MaxBlockingThreads, 1), valued(ArgName::MaxBlockingThreads, 2)],
        false,
    );
    assert_eq!(r, Err(ConfigError::DuplicateMaxBlockingThreads));
}

#[test]
fn rocket_selects_the_alternate_runtime_for_async_routines() {
    let config = resolve_config(&vec![flag(ArgName::Rocket)], true).unwrap();
    assert_eq!(config.runtime, RuntimeChoice::AlternateRuntime);
    let sync_config = resolve_config(&vec![flag(ArgName::Rocket)], false).unwrap();
    assert_eq!(sync_config.runtime, RuntimeChoice::Direct);
    let r = resolve_config(&vec![flag(ArgName::Rocket), flag(ArgName::Rocket)], false);
    assert_eq!(r, Err(ConfigError::DuplicateRocket));
}

#[test]
fn flags_reject_values() {
    let r = resolve_config(&vec![valued(ArgName::CustomExit, 1)], false);
    assert_eq!(r, Err(ConfigError::FlagTakesNoValue));
    let r = resolve_config(&vec![valued(ArgName::Rocket, 1)], false);
    assert_eq!(r, Err(ConfigError::FlagTakesNoValue));
}

#[test]
fn first_offending_option_wins() {
    let r = resolve_config(
        &vec![flag(ArgName::Unrecognized), flag(ArgName::Debug), flag(ArgName::NoDebug)],
        false,
    );
    assert_eq!(r, Err(ConfigError::UnexpectedArgument));
}

#[test]
fn signatures_with_two_parameters_are_rejected() {
    let sig = SignatureShape { is_async: false, inputs: vec![ParamKind::Typed, ParamKind::Typed] };
    assert_eq!(validate_signature(&sig), Err(ConfigError::TooManyParameters));
    let sig = SignatureShape {
        is_async: false,
        inputs: vec![ParamKind::Receiver, ParamKind::Typed],
    };
    assert_eq!(validate_signature(&sig), Err(ConfigError::TooManyParameters));
}

#[test]
fn signatures_with_a_self_receiver_are_rejected() {
    let sig = SignatureShape { is_async: false, inputs: vec![ParamKind::Receiver] };
    assert_eq!(validate_signature(&sig), Err(ConfigError::SelfReceiver));
}

#[test]
fn signatures_with_zero_or_one_parameter_are_accepted() {
    let sig = SignatureShape { is_async: false, inputs: vec![] };
    assert_eq!(validate_signature(&sig), Ok(false));
    let sig = SignatureShape { is_async: false, inputs: vec![ParamKind::Typed] };
    assert_eq!(validate_signature(&sig), Ok(true));
}

#[test]
fn plan_for_parameterless_verbose_routine_adds_verbose_flag() {
    let sig = SignatureShape { is_async: false, inputs: vec![] };
    let plan = generate_plan(&vec![flag(ArgName::VerboseDebug)], &sig, false).unwrap();
    assert_eq!(plan.parser, ParserPlan::Minimal { include_verbose: true });
    assert_eq!(plan.config.exit_strategy, ExitStrategy::DebugOnVerboseFlag);
}

#[test]
fn plan_for_parameterless_default_routine_uses_minimal_parser() {
    let sig = SignatureShape { is_async: false, inputs: vec![] };
    let plan = generate_plan(&vec![], &sig, false).unwrap();
    assert_eq!(
        plan,
        EntryPlan {
            config: ResolvedConfig {
                exit_strategy: ExitStrategy::Standard { debug: true },
                runtime: RuntimeChoice::Direct,
                diagnostics_port: None,
                blocking_thread_budget: None,
            },
            parser: ParserPlan::Minimal { include_verbose: false },
        },
    );
}

#[test]
fn plan_for_parameterized_routine_uses_user_parser() {
    let sig = SignatureShape { is_async: true, inputs: vec![ParamKind::Typed] };
    let plan = generate_plan(&vec![], &sig, false).unwrap();
    assert_eq!(plan.parser, ParserPlan::UserType);
    assert_eq!(plan.config.runtime, RuntimeChoice::DefaultRuntime);
}

#[test]
fn diagnostics_port_requires_build_support() {
    let sig = SignatureShape { is_async: true, inputs: vec![] };
    let args = vec![valued(ArgName::Console, 6669)];
    assert_eq!(generate_plan(&args, &sig, false), Err(ConfigError::DiagnosticsUnsupported));
    let plan = generate_plan(&args, &sig, true).unwrap();
    assert_eq!(plan.config.diagnostics_port, Some(6669));
}

#[test]
fn signature_errors_follow_option_errors() {
    let sig = SignatureShape { is_async: false, inputs: vec![ParamKind::Receiver] };
    let r = generate_plan(&vec![flag(ArgName::Unrecognized)], &sig, false);
    assert_eq!(r, Err(ConfigError::UnexpectedArgument));
    let r = generate_plan(&vec![], &sig, false);
    assert_eq!(r, Err(ConfigError::SelfReceiver));
}

#[test]
fn negative_budget_offsets_available_parallelism() {
    assert_eq!(resolve_blocking_threads(-1, 8), 7);
}

#[test]
fn budget_resolution_edge_cases() {
    assert_eq!(resolve_blocking_threads(4, 8), 4);
    assert_eq!(resolve_blocking_threads(0, 8), 8);
    assert_eq!(resolve_blocking_threads(-8, 8), 1);
    assert_eq!(resolve_blocking_threads(-100, 8), 1);
    assert_eq!(resolve_blocking_threads(-15, 16), 1);
    assert_eq!(resolve_blocking_threads(1, 1), 1);
}
