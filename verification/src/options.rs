//! The command line of the server.

use crate::decimal::{parse_u64, parsed_u64, DecimalError};
use vstd::prelude::*;

verus! {

/// The texts of a row of strings.
pub open spec fn texts(strings: Seq<String>) -> Seq<Seq<char>> {
    Seq::new(strings.len(), |i: int| strings[i]@)
}

/// The text of a string that may be absent.
pub open spec fn optional_text(string: Option<String>) -> Option<Seq<char>> {
    match string {
        Some(present) => Some(present@),
        None => None,
    }
}

/// The argument behind the first occurrence of `name`.
pub open spec fn argument_value(args: Seq<Seq<char>>, name: Seq<char>) -> Option<Seq<char>> {
    match args.index_of_first(name) {
        Some(index) if index + 1 < args.len() => Some(args[index + 1]),
        _ => None,
    }
}

/// The argument behind the first occurrence of `name`, if there is one.
pub fn argument(args: &[String], name: &str) -> (value: Option<String>)
    ensures
        optional_text(value) == argument_value(texts(args@), name@),
{
    proof {
        texts(args@).index_of_first_ensures(name@);
    }
    let mut index: usize = 0;
    while index < args.len()
        invariant
            index <= args@.len(),
            forall|i: int| 0 <= i < index ==> #[trigger] texts(args@)[i] != name@,
        decreases args@.len() - index,
    {
        if args[index].as_str().eq(name) {
            proof {
                texts(args@).index_of_first_ensures(name@);
                assert(texts(args@)[index as int] == name@);
            }
            if index + 1 < args.len() {
                return Some(args[index + 1].clone());
            }
            return None;
        }
        index = index + 1;
    }
    proof {
        texts(args@).index_of_first_ensures(name@);
    }
    None
}

/// Whether `name` is one of the arguments.
pub fn has_switch(args: &[String], name: &str) -> (present: bool)
    ensures
        present == texts(args@).contains(name@),
{
    let mut index: usize = 0;
    while index < args.len()
        invariant
            index <= args@.len(),
            forall|i: int| 0 <= i < index ==> #[trigger] texts(args@)[i] != name@,
        decreases args@.len() - index,
    {
        if args[index].as_str().eq(name) {
            assert(texts(args@)[index as int] == name@);
            return true;
        }
        index = index + 1;
    }
    false
}

/// The faults that the server is asked to play, each a switch of its own.
#[derive(Clone, Copy, Debug, PartialEq, Eq, Structural)]
pub struct Switches {
    /// `--emit-question`: ask the client a question in each turn.
    pub emit_question: bool,
    /// `--emit-tool-call`: call the client's task context tool in each turn.
    pub emit_tool_call: bool,
    /// `--replay-completed-tool-call`: repeat a tool call that the client has answered.
    pub replay_completed_tool_call: bool,
    /// `--complete-after-tool-call`: complete the turn without waiting for the tool's result.
    pub complete_after_tool_call: bool,
    /// `--exit-after-tool-call-completion`: exit once such a turn is complete.
    pub exit_after_tool_call_completion: bool,
    /// `--require-dynamic-tool`: refuse a thread whose client does not offer the task context tool.
    pub require_dynamic_tool: bool,
    /// `--hold-turn`: leave each turn in progress.
    pub hold_turn: bool,
    /// `--exit-after-turn-start`: exit once a turn has started.
    pub exit_after_turn_start: bool,
    /// `--exit-after-turn-completion`: exit once a turn is complete.
    pub exit_after_turn_completion: bool,
    /// `--emit-post-completion-warning`: warn the client once a turn is complete.
    pub emit_post_completion_warning: bool,
    /// `--fail-after-turn-completion`: fail once a turn is complete.
    pub fail_after_turn_completion: bool,
    /// `--fail-after-second-turn-start`: fail once the second turn has started.
    pub fail_after_second_turn_start: bool,
    /// `--reject-second-turn-start`: reject the second turn and fail.
    pub reject_second_turn_start: bool,
    /// `--emit-turn-before-rejected-second-start`: announce a turn before rejecting the second one.
    pub emit_turn_before_rejected_second_start: bool,
    /// `--malformed-error-second-turn-start`: answer the second turn with an error that says nothing.
    pub malformed_error_second_turn_start: bool,
    /// `--missing-id-second-turn-start`: answer the second turn without naming it.
    pub missing_id_second_turn_start: bool,
    /// `--fail-after-accepting-second-turn-before-response`: fail on the second turn before answering.
    pub fail_after_accepting_second_turn_before_response: bool,
    /// `--exit-after-accepting-second-turn-before-response`: exit on the second turn before answering.
    pub exit_after_accepting_second_turn_before_response: bool,
    /// `--complete-ambiguous-second-turn`: complete the second turn although it was not answered properly.
    pub complete_ambiguous_second_turn: bool,
    /// `--retain-ambiguous-second-turn-active`: give the second turn an identity of its own and keep it active.
    pub retain_ambiguous_second_turn_active: bool,
    /// `--hold-ambiguous-second-turn-after-item`: send output of an unnamed second turn and leave it in progress.
    pub hold_ambiguous_second_turn_after_item: bool,
    /// `--complete-ambiguous-second-turn-before-response`: complete the second turn before answering it.
    pub complete_ambiguous_second_turn_before_response: bool,
    /// `--conflicting-ambiguous-second-turn`: complete a turn that is not the second one in its place.
    pub conflicting_ambiguous_second_turn: bool,
    /// `--omit-ambiguous-turn-started`: do not announce such a second turn.
    pub omit_ambiguous_turn_started: bool,
    /// `--fail-after-thread-read`: fail once the thread has been read.
    pub fail_after_thread_read: bool,
    /// `--exit-after-thread-read`: exit once the thread has been read.
    pub exit_after_thread_read: bool,
    /// `--notification-before-response`: warn the client before answering a thread start.
    pub pre_response_notification: bool,
    /// `--fail-after-turn-completion-delay-ms`: how long to stay up before
    /// failing once a turn is complete.
    pub fail_after_turn_completion_delay_ms: Option<u64>,
}

/// What the command line asks for.
#[derive(Debug, PartialEq, Eq)]
pub struct Config {
    /// `--state-file`: where the server keeps its state.
    pub state_file: String,
    /// `--call-log`: where the server records the calls that it receives.
    pub call_log: Option<String>,
    /// The faults to play.
    pub switches: Switches,
}

/// Why a command line cannot be used.
#[derive(Clone, Copy, Debug, PartialEq, Eq, Structural)]
pub enum StartError {
    /// No state file is named.
    MissingStateFile,
    /// The delay is not a number of milliseconds.
    InvalidDelay(DecimalError),
}

impl StartError {
    /// The sentence that reports the error.
    pub open spec fn spec_message(self) -> Seq<char> {
        match self {
            StartError::MissingStateFile => "--state-file is required"@,
            StartError::InvalidDelay(error) => error.spec_message(),
        }
    }

    /// The sentence that reports the error.
    pub fn message(&self) -> (text: String)
        ensures
            text@ == self.spec_message(),
    {
        match self {
            StartError::MissingStateFile => "--state-file is required".to_owned(),
            StartError::InvalidDelay(error) => error.message(),
        }
    }
}

/// The delay that a command line asks for, if it asks for one.
pub open spec fn requested_delay(args: Seq<Seq<char>>) -> Result<Option<u64>, DecimalError> {
    match argument_value(args, "--fail-after-turn-completion-delay-ms"@) {
        None => Ok(None),
        Some(text) => match parsed_u64(text) {
            Ok(delay) => Ok(Some(delay)),
            Err(error) => Err(error),
        },
    }
}

/// The switches that a command line sets.
pub open spec fn requested_switches(args: Seq<Seq<char>>, delay: Option<u64>) -> Switches {
    Switches {
        emit_question: args.contains("--emit-question"@),
        emit_tool_call: args.contains("--emit-tool-call"@),
        replay_completed_tool_call: args.contains("--replay-completed-tool-call"@),
        complete_after_tool_call: args.contains("--complete-after-tool-call"@),
        exit_after_tool_call_completion: args.contains("--exit-after-tool-call-completion"@),
        require_dynamic_tool: args.contains("--require-dynamic-tool"@),
        hold_turn: args.contains("--hold-turn"@),
        exit_after_turn_start: args.contains("--exit-after-turn-start"@),
        exit_after_turn_completion: args.contains("--exit-after-turn-completion"@),
        emit_post_completion_warning: args.contains("--emit-post-completion-warning"@),
        fail_after_turn_completion: args.contains("--fail-after-turn-completion"@),
        fail_after_second_turn_start: args.contains("--fail-after-second-turn-start"@),
        reject_second_turn_start: args.contains("--reject-second-turn-start"@),
        emit_turn_before_rejected_second_start: args.contains("--emit-turn-before-rejected-second-start"@),
        malformed_error_second_turn_start: args.contains("--malformed-error-second-turn-start"@),
        missing_id_second_turn_start: args.contains("--missing-id-second-turn-start"@),
        fail_after_accepting_second_turn_before_response: args.contains("--fail-after-accepting-second-turn-before-response"@),
        exit_after_accepting_second_turn_before_response: args.contains("--exit-after-accepting-second-turn-before-response"@),
        complete_ambiguous_second_turn: args.contains("--complete-ambiguous-second-turn"@),
        retain_ambiguous_second_turn_active: args.contains("--retain-ambiguous-second-turn-active"@),
        hold_ambiguous_second_turn_after_item: args.contains("--hold-ambiguous-second-turn-after-item"@),
        complete_ambiguous_second_turn_before_response: args.contains("--complete-ambiguous-second-turn-before-response"@),
        conflicting_ambiguous_second_turn: args.contains("--conflicting-ambiguous-second-turn"@),
        omit_ambiguous_turn_started: args.contains("--omit-ambiguous-turn-started"@),
        fail_after_thread_read: args.contains("--fail-after-thread-read"@),
        exit_after_thread_read: args.contains("--exit-after-thread-read"@),
        pre_response_notification: args.contains("--notification-before-response"@),
        fail_after_turn_completion_delay_ms: delay,
    }
}

/// Reads the switches of a command line, with a delay that is already read.
fn read_switches(args: &[String], delay: Option<u64>) -> (switches: Switches)
    ensures
        switches == requested_switches(texts(args@), delay),
{
    Switches {
        emit_question: has_switch(args, "--emit-question"),
        emit_tool_call: has_switch(args, "--emit-tool-call"),
        replay_completed_tool_call: has_switch(args, "--replay-completed-tool-call"),
        complete_after_tool_call: has_switch(args, "--complete-after-tool-call"),
        exit_after_tool_call_completion: has_switch(args, "--exit-after-tool-call-completion"),
        require_dynamic_tool: has_switch(args, "--require-dynamic-tool"),
        hold_turn: has_switch(args, "--hold-turn"),
        exit_after_turn_start: has_switch(args, "--exit-after-turn-start"),
        exit_after_turn_completion: has_switch(args, "--exit-after-turn-completion"),
        emit_post_completion_warning: has_switch(args, "--emit-post-completion-warning"),
        fail_after_turn_completion: has_switch(args, "--fail-after-turn-completion"),
        fail_after_second_turn_start: has_switch(args, "--fail-after-second-turn-start"),
        reject_second_turn_start: has_switch(args, "--reject-second-turn-start"),
        emit_turn_before_rejected_second_start: has_switch(args, "--emit-turn-before-rejected-second-start"),
        malformed_error_second_turn_start: has_switch(args, "--malformed-error-second-turn-start"),
        missing_id_second_turn_start: has_switch(args, "--missing-id-second-turn-start"),
        fail_after_accepting_second_turn_before_response: has_switch(args, "--fail-after-accepting-second-turn-before-response"),
        exit_after_accepting_second_turn_before_response: has_switch(args, "--exit-after-accepting-second-turn-before-response"),
        complete_ambiguous_second_turn: has_switch(args, "--complete-ambiguous-second-turn"),
        retain_ambiguous_second_turn_active: has_switch(args, "--retain-ambiguous-second-turn-active"),
        hold_ambiguous_second_turn_after_item: has_switch(args, "--hold-ambiguous-second-turn-after-item"),
        complete_ambiguous_second_turn_before_response: has_switch(args, "--complete-ambiguous-second-turn-before-response"),
        conflicting_ambiguous_second_turn: has_switch(args, "--conflicting-ambiguous-second-turn"),
        omit_ambiguous_turn_started: has_switch(args, "--omit-ambiguous-turn-started"),
        fail_after_thread_read: has_switch(args, "--fail-after-thread-read"),
        exit_after_thread_read: has_switch(args, "--exit-after-thread-read"),
        pre_response_notification: has_switch(args, "--notification-before-response"),
        fail_after_turn_completion_delay_ms: delay,
    }
}

impl Config {
    /// Reads a command line, without the program's own name.
    ///
    /// A state file must be named, and a delay, if there is one, must be a
    /// number. What follows a name is its value even where it is itself the
    /// name of a switch, and then counts as both.
    pub fn from_args(args: &[String]) -> (result: Result<Config, StartError>)
        ensures
            match result {
                Ok(config) => {
                    &&& argument_value(texts(args@), "--state-file"@) == Some(config.state_file@)
                    &&& argument_value(texts(args@), "--call-log"@) == optional_text(config.call_log)
                    &&& requested_delay(texts(args@)) matches Ok(delay)
                        && config.switches == requested_switches(texts(args@), delay)
                },
                Err(StartError::MissingStateFile) => {
                    argument_value(texts(args@), "--state-file"@) is None
                },
                Err(StartError::InvalidDelay(error)) => {
                    &&& argument_value(texts(args@), "--state-file"@) is Some
                    &&& requested_delay(texts(args@)) == Err::<Option<u64>, DecimalError>(error)
                },
            },
    {
        let state_file = match argument(args, "--state-file") {
            Some(path) => path,
            None => return Err(StartError::MissingStateFile),
        };
        let call_log = argument(args, "--call-log");
        let delay: Option<u64> = match argument(args, "--fail-after-turn-completion-delay-ms") {
            Some(text) => match parse_u64(text.as_str()) {
                Ok(delay) => Some(delay),
                Err(error) => return Err(StartError::InvalidDelay(error)),
            },
            None => None,
        };
        Ok(Config { state_file, call_log, switches: read_switches(args, delay) })
    }
}

} // verus!
