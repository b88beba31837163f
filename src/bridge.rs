//! The command bridge: what to launch, and what a finished launch yields.
use vstd::prelude::*;
use crate::text::decode_lossy;
use crate::text::lossy_text;

verus! {

/// The companion executable, relative to the host's working directory.
pub const COMPANION_PATH: &'static str = "./src-tauri/bin/video-compare";

/// What a failure text starts with when the process could not be launched;
/// the operating system's description of the error follows it.
pub const LAUNCH_FAILED_PREFIX: &'static str = "启动失败：";

/// What the host captured from a process that ran to completion.
pub struct ProcessOutput {
    /// The exit code, or `None` where the process was ended without one
    /// (by a signal).
    pub exit_code: Option<i32>,
    /// Everything the process wrote to standard output.
    pub stdout: Vec<u8>,
    /// Everything the process wrote to standard error.
    pub stderr: Vec<u8>,
}

/// The argument vector of one invocation: the companion executable, then
/// the two arguments in order.
pub open spec fn command_argv(arg1: Seq<char>, arg2: Seq<char>) -> Seq<Seq<char>> {
    seq![COMPANION_PATH@, arg1, arg2]
}

/// Only an exit code of zero counts as success.
pub open spec fn exit_is_success(exit_code: Option<i32>) -> bool {
    exit_code == Some(0i32)
}

/// The failure text for a launch that the operating system refused with
/// the description `desc`.
pub open spec fn launch_failure_text(desc: Seq<char>) -> Seq<char> {
    LAUNCH_FAILED_PREFIX@ + desc
}

/// The outcome of a process that ran: its standard output on success, its
/// standard error otherwise, each decoded lossily.
pub open spec fn output_outcome(out: ProcessOutput) -> Result<Seq<char>, Seq<char>> {
    if exit_is_success(out.exit_code) {
        Ok(lossy_text(out.stdout@))
    } else {
        Err(lossy_text(out.stderr@))
    }
}

/// The outcome of one invocation, given what the launch produced: either
/// the captured output or the description of the launch error.
pub open spec fn bridge_outcome(launch: Result<ProcessOutput, String>) -> Result<Seq<char>, Seq<char>> {
    match launch {
        Ok(out) => output_outcome(out),
        Err(desc) => Err(launch_failure_text(desc@)),
    }
}

/// A result of two strings seen as a result of two character sequences.
pub open spec fn result_text(r: Result<String, String>) -> Result<Seq<char>, Seq<char>> {
    match r {
        Ok(s) => Ok(s@),
        Err(e) => Err(e@),
    }
}

/// The argument vector to launch for `arg1` and `arg2`: the program first,
/// then the arguments, neither checked nor altered.
pub fn command_for(arg1: String, arg2: String) -> (argv: Vec<String>)
    ensures
        argv@.len() == 3,
        forall|i: int| 0 <= i < 3 ==> #[trigger] argv@[i]@ == command_argv(arg1@, arg2@)[i],
{
    let mut argv: Vec<String> = Vec::new();
    argv.push(COMPANION_PATH.to_string());
    argv.push(arg1);
    argv.push(arg2);
    argv
}

/// Whether an exit code counts as success.
pub fn exit_succeeded(exit_code: Option<i32>) -> (r: bool)
    ensures
        r == exit_is_success(exit_code),
{
    match exit_code {
        Some(code) => code == 0,
        None => false,
    }
}

/// The failure text for a launch error described by `desc`.
pub fn launch_failure_message(desc: &str) -> (r: String)
    ensures
        r@ == launch_failure_text(desc@),
{
    let mut msg = LAUNCH_FAILED_PREFIX.to_string();
    msg.append(desc);
    msg
}

/// The result of a process that ran to completion: `Ok` with its decoded
/// standard output when it exited with code zero, else `Err` with its
/// decoded standard error.
pub fn output_result(out: &ProcessOutput) -> (r: Result<String, String>)
    ensures
        result_text(r) == output_outcome(*out),
{
    if exit_succeeded(out.exit_code) {
        Ok(decode_lossy(&out.stdout))
    } else {
        Err(decode_lossy(&out.stderr))
    }
}

/// The result that the bridge hands to its caller, given what the launch
/// produced: a failure naming the launch error, or the result of the
/// process that ran.
pub fn bridge_result(launch: Result<ProcessOutput, String>) -> (r: Result<String, String>)
    ensures
        result_text(r) == bridge_outcome(launch),
{
    match launch {
        Ok(out) => output_result(&out),
        Err(desc) => Err(launch_failure_message(desc.as_str())),
    }
}

} // verus!
