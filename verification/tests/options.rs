use fake_codex_app_server::decimal::DecimalError;
use fake_codex_app_server::options::{argument, has_switch, Config, StartError, Switches};

fn strings(words: &[&str]) -> Vec<String> {
    words.iter().map(|word| word.to_string()).collect()
}

#[test]
fn an_argument_is_what_follows_the_first_occurrence() {
    let args = strings(&["--a", "1", "--b", "2", "--a", "3"]);
    assert_eq!(argument(&args, "--a"), Some("1".to_string()));
    assert_eq!(argument(&args, "--b"), Some("2".to_string()));
    assert_eq!(argument(&args, "--c"), None);
    assert_eq!(argument(&strings(&["--a"]), "--a"), None);
    assert_eq!(argument(&strings(&["--a", "--b"]), "--a"), Some("--b".to_string()));
    assert_eq!(argument(&[], "--a"), None);
}

#[test]
fn a_last_argument_has_no_value_even_if_its_name_comes_twice() {
    let args = strings(&["--a", "--a"]);
    assert_eq!(argument(&args, "--a"), Some("--a".to_string()));
    let args = strings(&["x", "--a"]);
    assert_eq!(argument(&args, "--a"), None);
}

#[test]
fn a_switch_is_set_wherever_it_stands() {
    let args = strings(&["--state-file", "--hold-turn"]);
    assert!(has_switch(&args, "--hold-turn"));
    assert!(!has_switch(&args, "--emit-question"));
}

#[test]
fn a_state_file_is_required() {
    let error = Config::from_args(&strings(&["--hold-turn"])).unwrap_err();
    assert_eq!(error, StartError::MissingStateFile);
    assert_eq!(error.message(), "--state-file is required");
    // The state file is asked for before the delay is read.
    let args = strings(&["--fail-after-turn-completion-delay-ms", "soon"]);
    assert_eq!(Config::from_args(&args), Err(StartError::MissingStateFile));
}

#[test]
fn a_delay_must_be_a_number() {
    let args = strings(&["--state-file", "s", "--fail-after-turn-completion-delay-ms", "soon"]);
    let error = Config::from_args(&args).unwrap_err();
    assert_eq!(error, StartError::InvalidDelay(DecimalError::InvalidDigit));
    assert_eq!(error.message(), "invalid digit found in string");
    // A delay without a value is no delay.
    let args = strings(&["--state-file", "s", "--fail-after-turn-completion-delay-ms"]);
    let config = Config::from_args(&args).unwrap();
    assert_eq!(config.switches.fail_after_turn_completion_delay_ms, None);
}

fn none() -> Switches {
    Config::from_args(&strings(&["--state-file", "s"])).unwrap().switches
}

#[test]
fn a_full_command_line_is_read() {
    let args = strings(&[
        "--state-file", "state.json", "--call-log", "calls.log", "--emit-tool-call",
        "--fail-after-turn-completion-delay-ms", "250",
    ]);
    let config = Config::from_args(&args).unwrap();
    assert_eq!(config.state_file, "state.json");
    assert_eq!(config.call_log, Some("calls.log".to_string()));
    assert_eq!(
        config.switches,
        Switches {
            emit_tool_call: true,
            fail_after_turn_completion_delay_ms: Some(250),
            ..none()
        }
    );
}

#[test]
fn each_switch_sets_its_own_field() {
    let base = none();
    let table: Vec<(&str, Switches)> = vec![
        ("--emit-question", Switches { emit_question: true, ..base }),
        ("--emit-tool-call", Switches { emit_tool_call: true, ..base }),
        ("--replay-completed-tool-call", Switches { replay_completed_tool_call: true, ..base }),
        ("--complete-after-tool-call", Switches { complete_after_tool_call: true, ..base }),
        ("--exit-after-tool-call-completion", Switches { exit_after_tool_call_completion: true, ..base }),
        ("--require-dynamic-tool", Switches { require_dynamic_tool: true, ..base }),
        ("--hold-turn", Switches { hold_turn: true, ..base }),
        ("--exit-after-turn-start", Switches { exit_after_turn_start: true, ..base }),
        ("--exit-after-turn-completion", Switches { exit_after_turn_completion: true, ..base }),
        ("--emit-post-completion-warning", Switches { emit_post_completion_warning: true, ..base }),
        ("--fail-after-turn-completion", Switches { fail_after_turn_completion: true, ..base }),
        ("--fail-after-second-turn-start", Switches { fail_after_second_turn_start: true, ..base }),
        ("--reject-second-turn-start", Switches { reject_second_turn_start: true, ..base }),
        ("--emit-turn-before-rejected-second-start", Switches { emit_turn_before_rejected_second_start: true, ..base }),
        ("--malformed-error-second-turn-start", Switches { malformed_error_second_turn_start: true, ..base }),
        ("--missing-id-second-turn-start", Switches { missing_id_second_turn_start: true, ..base }),
        ("--fail-after-accepting-second-turn-before-response", Switches { fail_after_accepting_second_turn_before_response: true, ..base }),
        ("--exit-after-accepting-second-turn-before-response", Switches { exit_after_accepting_second_turn_before_response: true, ..base }),
        ("--complete-ambiguous-second-turn", Switches { complete_ambiguous_second_turn: true, ..base }),
        ("--retain-ambiguous-second-turn-active", Switches { retain_ambiguous_second_turn_active: true, ..base }),
        ("--hold-ambiguous-second-turn-after-item", Switches { hold_ambiguous_second_turn_after_item: true, ..base }),
        ("--complete-ambiguous-second-turn-before-response", Switches { complete_ambiguous_second_turn_before_response: true, ..base }),
        ("--conflicting-ambiguous-second-turn", Switches { conflicting_ambiguous_second_turn: true, ..base }),
        ("--omit-ambiguous-turn-started", Switches { omit_ambiguous_turn_started: true, ..base }),
        ("--fail-after-thread-read", Switches { fail_after_thread_read: true, ..base }),
        ("--exit-after-thread-read", Switches { exit_after_thread_read: true, ..base }),
        ("--notification-before-response", Switches { pre_response_notification: true, ..base }),
    ];
    assert_eq!(table.len(), 27);
    for (name, expected) in table {
        let config = Config::from_args(&strings(&["--state-file", "s", name])).unwrap();
        assert_eq!(config.switches, expected, "{name}");
        assert_ne!(config.switches, base, "{name}");
        assert_eq!(config.call_log, None);
    }
}
