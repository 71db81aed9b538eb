//! Decisions of the subprocess harness: the argument vector handed to the
//! child, how stderr lines are tagged, and the status texts while it runs
//! and once it has exited. Spawning, reading and waiting stay with the caller.
use vstd::prelude::*;
use crate::dashboard::{spinner_frame, spinner_frame_exec};
use crate::state::{lines_view, SessionState, UiState};
use crate::text::{dec_int, i32_text};

verus! {

pub open spec fn args_view(v: Seq<String>) -> Seq<Seq<char>> {
    v.map_values(|s: String| s@)
}

/// The child's arguments: the policy flag and its value, then the plan's arguments.
pub fn subcommand_args(policy: &str, args: &Vec<String>) -> (r: Vec<String>)
    ensures
        args_view(r@) == seq!["--policy"@, policy@] + args_view(args@),
{
    let mut r: Vec<String> = vec![String::from_str("--policy"), String::from_str(policy)];
    let ghost head = args_view(r@);
    assert(head =~= seq!["--policy"@, policy@]);
    let mut i: usize = 0;
    while i < args.len()
        invariant
            i <= args@.len(),
            args_view(r@) == head + args_view(args@).take(i as int),
        decreases args@.len() - i,
    {
        let ghost before = args_view(r@);
        r.push(args[i].clone());
        assert(args_view(args@).take(i as int + 1) =~= args_view(args@).take(i as int).push(args@[i as int]@));
        assert(args_view(r@) =~= before.push(args@[i as int]@));
        i = i + 1;
    }
    assert(args_view(args@).take(args@.len() as int) =~= args_view(args@));
    r
}

/// A line read from the child's standard error, as it enters the buffer.
pub fn stderr_line(line: &str) -> (r: String)
    ensures
        r@ == "[stderr] "@ + line@,
{
    let mut r = String::from_str("[stderr] ");
    r.append(line);
    r
}

pub open spec fn running_text(step: nat) -> Seq<char> {
    "running "@ + spinner_frame(step)
}

/// The status shown while the child runs, at spinner step `step`.
pub fn set_running_status(session: &mut SessionState, step: u64)
    ensures
        final(session).last_status is Some,
        final(session).last_status->0@ == running_text(step as nat),
        final(session).last_output_lines == old(session).last_output_lines,
        final(session).last_command == old(session).last_command,
{
    let mut s = String::from_str("running ");
    s.append(spinner_frame_exec(step));
    session.last_status = Some(s);
}

/// Status text once the child has exited: "success", or "failed (exit N)"
/// with its exit code, or "failed (exit signal)" when it has none.
pub open spec fn exit_text(success: bool, code: Option<i32>) -> Seq<char> {
    if success {
        "success"@
    } else {
        "failed (exit "@ + match code {
            Some(c) => dec_int(c as int),
            None => "signal"@,
        } + ")"@
    }
}

pub fn exit_status_text(success: bool, code: Option<i32>) -> (r: String)
    ensures
        r@ == exit_text(success, code),
{
    if success {
        return String::from_str("success");
    }
    let mut r = String::from_str("failed (exit ");
    match code {
        Some(c) => {
            let t = i32_text(c);
            r.append(t.as_str());
        },
        None => r.append("signal"),
    }
    r.append(")");
    r
}

/// A run has started: the output buffer is emptied and scrolled to the end.
pub fn begin_run(session: &mut SessionState, ui_state: &mut UiState)
    ensures
        final(session).last_output_lines@.len() == 0,
        final(session).last_status == old(session).last_status,
        final(session).last_command == old(session).last_command,
        final(ui_state).output_offset == 0,
        final(ui_state).tab == old(ui_state).tab,
        final(ui_state).active_index == old(ui_state).active_index,
        final(ui_state).output_search == old(ui_state).output_search,
        final(ui_state).inline_prompt_label == old(ui_state).inline_prompt_label,
{
    session.last_output_lines = Vec::new();
    ui_state.output_offset = 0;
}

/// A run has ended: the status reports how the child exited.
pub fn finish_run(session: &mut SessionState, success: bool, code: Option<i32>)
    ensures
        final(session).last_status is Some,
        final(session).last_status->0@ == exit_text(success, code),
        lines_view(final(session).last_output_lines@) == lines_view(old(session).last_output_lines@),
        final(session).last_command == old(session).last_command,
{
    session.last_status = Some(exit_status_text(success, code));
}

} // verus!
