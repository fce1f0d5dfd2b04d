//! How the command line is read.

use crate::decimal::{parsed_u64, DecimalError};
use crate::options::{argument_value, requested_delay, requested_switches};
use vstd::prelude::*;

verus! {

/// What stands right behind the first occurrence of a name is its value,
/// whatever it is and whatever follows.
pub proof fn law_first_value_counts(
    before: Seq<Seq<char>>,
    name: Seq<char>,
    given: Seq<char>,
    after: Seq<Seq<char>>,
)
    requires
        !before.contains(name),
    ensures
        argument_value(before + seq![name, given] + after, name) == Some(given),
{
    let args = before + seq![name, given] + after;
    args.index_of_first_ensures(name);
    assert(args[before.len() as int] == name);
    assert(args[(before.len() + 1) as int] == given);
    assert(args.contains(name));
    let first = args.index_of_first(name)->0;
    if first < before.len() {
        assert(before[first] == name);
    }
}

/// A name that ends the command line has no value.
pub proof fn law_last_name_has_no_value(before: Seq<Seq<char>>, name: Seq<char>)
    requires
        !before.contains(name),
    ensures
        argument_value(before.push(name), name) is None,
{
    let args = before.push(name);
    args.index_of_first_ensures(name);
    assert(args[before.len() as int] == name);
    assert(args.contains(name));
    let first = args.index_of_first(name)->0;
    if first < before.len() {
        assert(before[first] == name);
    }
}

/// A name that is not given has no value.
pub proof fn law_absent_name_has_no_value(args: Seq<Seq<char>>, name: Seq<char>)
    requires
        !args.contains(name),
    ensures
        argument_value(args, name) is None,
{
    args.index_of_first_ensures(name);
}

/// A command line that does not name a delay asks for none, and neither does one
/// that names it last.
pub proof fn law_no_delay(args: Seq<Seq<char>>)
    requires
        !args.contains("--fail-after-turn-completion-delay-ms"@),
    ensures
        requested_delay(args) == Ok::<Option<u64>, DecimalError>(None),
        requested_delay(args.push("--fail-after-turn-completion-delay-ms"@)) == Ok::<
            Option<u64>,
            DecimalError,
        >(None),
{
    law_absent_name_has_no_value(args, "--fail-after-turn-completion-delay-ms"@);
    law_last_name_has_no_value(args, "--fail-after-turn-completion-delay-ms"@);
}

/// A delay is the number that stands behind the first occurrence of its name,
/// and what is wrong with the number is wrong with the command line.
pub proof fn law_delay_is_its_number(
    before: Seq<Seq<char>>,
    given: Seq<char>,
    after: Seq<Seq<char>>,
)
    requires
        !before.contains("--fail-after-turn-completion-delay-ms"@),
    ensures
        ({
            let args = before + seq!["--fail-after-turn-completion-delay-ms"@, given] + after;
            &&& parsed_u64(given) matches Ok(number) ==> requested_delay(args) == Ok::<
                Option<u64>,
                DecimalError,
            >(Some(number))
            &&& parsed_u64(given) matches Err(error) ==> requested_delay(args) == Err::<
                Option<u64>,
                DecimalError,
            >(error)
        }),
{
    law_first_value_counts(before, "--fail-after-turn-completion-delay-ms"@, given, after);
}

/// A switch is set exactly where its name is one of the arguments, wherever it
/// stands, and no argument sets another switch.
pub proof fn law_switches_are_set_by_name(args: Seq<Seq<char>>, delay: Option<u64>)
    ensures
        ({
            let switches = requested_switches(args, delay);
            &&& switches.emit_question <==> exists|i: int|
                0 <= i < args.len() && #[trigger] args[i] == "--emit-question"@
            &&& switches.emit_tool_call <==> exists|i: int|
                0 <= i < args.len() && #[trigger] args[i] == "--emit-tool-call"@
            &&& switches.replay_completed_tool_call <==> exists|i: int|
                0 <= i < args.len() && #[trigger] args[i] == "--replay-completed-tool-call"@
            &&& switches.complete_after_tool_call <==> exists|i: int|
                0 <= i < args.len() && #[trigger] args[i] == "--complete-after-tool-call"@
            &&& switches.exit_after_tool_call_completion <==> exists|i: int|
                0 <= i < args.len() && #[trigger] args[i] == "--exit-after-tool-call-completion"@
            &&& switches.require_dynamic_tool <==> exists|i: int|
                0 <= i < args.len() && #[trigger] args[i] == "--require-dynamic-tool"@
            &&& switches.hold_turn <==> exists|i: int|
                0 <= i < args.len() && #[trigger] args[i] == "--hold-turn"@
            &&& switches.exit_after_turn_start <==> exists|i: int|
                0 <= i < args.len() && #[trigger] args[i] == "--exit-after-turn-start"@
            &&& switches.exit_after_turn_completion <==> exists|i: int|
                0 <= i < args.len() && #[trigger] args[i] == "--exit-after-turn-completion"@
            &&& switches.emit_post_completion_warning <==> exists|i: int|
                0 <= i < args.len() && #[trigger] args[i] == "--emit-post-completion-warning"@
            &&& switches.fail_after_turn_completion <==> exists|i: int|
                0 <= i < args.len() && #[trigger] args[i] == "--fail-after-turn-completion"@
            &&& switches.fail_after_second_turn_start <==> exists|i: int|
                0 <= i < args.len() && #[trigger] args[i] == "--fail-after-second-turn-start"@
            &&& switches.reject_second_turn_start <==> exists|i: int|
                0 <= i < args.len() && #[trigger] args[i] == "--reject-second-turn-start"@
            &&& switches.emit_turn_before_rejected_second_start <==> exists|i: int|
                0 <= i < args.len() && #[trigger] args[i] == "--emit-turn-before-rejected-second-start"@
            &&& switches.malformed_error_second_turn_start <==> exists|i: int|
                0 <= i < args.len() && #[trigger] args[i] == "--malformed-error-second-turn-start"@
            &&& switches.missing_id_second_turn_start <==> exists|i: int|
                0 <= i < args.len() && #[trigger] args[i] == "--missing-id-second-turn-start"@
            &&& switches.fail_after_accepting_second_turn_before_response <==> exists|i: int|
                0 <= i < args.len() && #[trigger] args[i] == "--fail-after-accepting-second-turn-before-response"@
            &&& switches.exit_after_accepting_second_turn_before_response <==> exists|i: int|
                0 <= i < args.len() && #[trigger] args[i] == "--exit-after-accepting-second-turn-before-response"@
            &&& switches.complete_ambiguous_second_turn <==> exists|i: int|
                0 <= i < args.len() && #[trigger] args[i] == "--complete-ambiguous-second-turn"@
            &&& switches.retain_ambiguous_second_turn_active <==> exists|i: int|
                0 <= i < args.len() && #[trigger] args[i] == "--retain-ambiguous-second-turn-active"@
            &&& switches.hold_ambiguous_second_turn_after_item <==> exists|i: int|
                0 <= i < args.len() && #[trigger] args[i] == "--hold-ambiguous-second-turn-after-item"@
            &&& switches.complete_ambiguous_second_turn_before_response <==> exists|i: int|
                0 <= i < args.len() && #[trigger] args[i] == "--complete-ambiguous-second-turn-before-response"@
            &&& switches.conflicting_ambiguous_second_turn <==> exists|i: int|
                0 <= i < args.len() && #[trigger] args[i] == "--conflicting-ambiguous-second-turn"@
            &&& switches.omit_ambiguous_turn_started <==> exists|i: int|
                0 <= i < args.len() && #[trigger] args[i] == "--omit-ambiguous-turn-started"@
            &&& switches.fail_after_thread_read <==> exists|i: int|
                0 <= i < args.len() && #[trigger] args[i] == "--fail-after-thread-read"@
            &&& switches.exit_after_thread_read <==> exists|i: int|
                0 <= i < args.len() && #[trigger] args[i] == "--exit-after-thread-read"@
            &&& switches.pre_response_notification <==> exists|i: int|
                0 <= i < args.len() && #[trigger] args[i] == "--notification-before-response"@
            &&& switches.fail_after_turn_completion_delay_ms == delay
        }),
{
}

} // verus!
