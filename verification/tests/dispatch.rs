use vshell::test_wrapper_get_prompt as get_prompt;
use vshell::{
    classify_line, handle_args, is_builtin, run_builtin, BuiltinAction, LineKind, RelayAction,
    RelaySignal, SignalHandler, StartupAction,
};

#[test]
fn test_get_prompt_default() {
    let exp = "shell> ";
    let res = get_prompt(None);
    assert_eq!(res, exp);
}

#[test]
fn test_get_prompt_custom() {
    let prompt = "test>>";
    let exp = "test>> ";
    let res = get_prompt(Some(prompt.to_string()));
    assert_eq!(res, exp);
}

#[test]
fn test_is_builtin() {
    assert!(is_builtin("pwd"));
    assert!(is_builtin("cd"));
    assert!(is_builtin("history"));
    assert!(is_builtin("exit"));
    assert!(!is_builtin("ls"));
    assert!(!is_builtin("PWD"));
    assert!(!is_builtin(""));
}

#[test]
fn test_pwd_dispatch() {
    assert_eq!(run_builtin("pwd", &Vec::new()), BuiltinAction::QueryCwd);
    assert_eq!(
        run_builtin("pwd", &vec!["x".to_string()]),
        BuiltinAction::UsagePwd
    );
}

#[test]
fn test_cd_dispatch() {
    assert_eq!(run_builtin("cd", &Vec::new()), BuiltinAction::ChdirHome);
    assert_eq!(
        run_builtin("cd", &vec!["~".to_string()]),
        BuiltinAction::ChdirHome
    );
    assert_eq!(
        run_builtin("cd", &vec!["/tmp".to_string()]),
        BuiltinAction::ChdirArg
    );
    assert_eq!(
        run_builtin("cd", &vec!["a".to_string(), "b".to_string()]),
        BuiltinAction::UsageCd
    );
}

#[test]
fn test_exit_and_history_dispatch() {
    assert_eq!(run_builtin("exit", &Vec::new()), BuiltinAction::ExitShell);
    assert_eq!(
        run_builtin("exit", &vec!["0".to_string()]),
        BuiltinAction::UsageExit
    );
    assert_eq!(run_builtin("history", &Vec::new()), BuiltinAction::UsageHistory);
    assert_eq!(run_builtin("ls", &Vec::new()), BuiltinAction::NotBuiltin);
}

#[test]
fn test_classify_line() {
    assert_eq!(classify_line("history"), LineKind::HistoryRequest);
    assert_eq!(classify_line(" history "), LineKind::BuiltinCmd);
    assert_eq!(classify_line(""), LineKind::Empty);
    assert_eq!(classify_line("   "), LineKind::Empty);
    assert_eq!(classify_line("pwd"), LineKind::BuiltinCmd);
    assert_eq!(classify_line("cd /tmp"), LineKind::BuiltinCmd);
    assert_eq!(classify_line("ls -l"), LineKind::External);
}

#[test]
fn test_handle_args() {
    assert_eq!(handle_args(None, None), StartupAction::RunShell);
    assert_eq!(handle_args(Some("-v".to_string()), None), StartupAction::ShowVersion);
    assert_eq!(handle_args(Some("-x".to_string()), None), StartupAction::RejectArgs);
    assert_eq!(
        handle_args(Some("-v".to_string()), Some("extra".to_string())),
        StartupAction::RejectArgs
    );
}

#[test]
fn test_relay_suppresses_while_child_runs() {
    let mut h = SignalHandler::new();
    h.ignore_signals(true);
    assert_eq!(h.on_signal(RelaySignal::Interrupt), RelayAction::Suppress);
    assert_eq!(h.on_signal(RelaySignal::Quit), RelayAction::Suppress);
    h.ignore_signals(false);
    assert_eq!(
        h.on_signal(RelaySignal::Interrupt),
        RelayAction::Reraise(RelaySignal::Interrupt)
    );
    assert_eq!(h.on_signal(RelaySignal::Quit), RelayAction::Idle);
}

#[test]
fn test_relay_forwards_without_child() {
    let mut h = SignalHandler::new();
    assert_eq!(
        h.on_signal(RelaySignal::TerminalStop),
        RelayAction::Reraise(RelaySignal::TerminalStop)
    );
    assert_eq!(h.on_signal(RelaySignal::Terminate), RelayAction::Idle);
}

#[test]
fn test_classify_line_unicode_whitespace() {
    assert_eq!(classify_line("history\u{a0}x"), LineKind::BuiltinCmd);
    assert_eq!(classify_line("\u{a0}"), LineKind::Empty);
    assert_eq!(
        run_builtin("history", &vec!["x".to_string()]),
        BuiltinAction::UsageHistory
    );
}
