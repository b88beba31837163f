//! Laws of the bridge, stated over the outcome that `bridge_result`
//! and `command_for` are proved to produce.
use vstd::prelude::*;
use crate::bridge::bridge_outcome;
use crate::bridge::command_argv;
use crate::bridge::launch_failure_text;
use crate::bridge::ProcessOutput;
use crate::text::lossy_text;

verus! {

/// Two launches that reported the same thing: the same launch error, or
/// the same exit code and the same bytes on both streams.
pub open spec fn same_report(a: Result<ProcessOutput, String>, b: Result<ProcessOutput, String>) -> bool {
    match (a, b) {
        (Ok(x), Ok(y)) => x.exit_code == y.exit_code && x.stdout@ == y.stdout@ && x.stderr@ == y.stderr@,
        (Err(x), Err(y)) => x@ == y@,
        _ => false,
    }
}

/// A process that exits with code zero yields success, and the payload is
/// exactly its standard output, decoded.
pub proof fn lemma_zero_exit_yields_stdout(out: ProcessOutput)
    requires
        out.exit_code == Some(0i32),
    ensures
        bridge_outcome(Ok(out)) == Ok::<Seq<char>, Seq<char>>(lossy_text(out.stdout@)),
{
}

/// A process that ends with any status but exit code zero (a non-zero
/// code, or none at all) yields failure, and the payload is exactly its
/// standard error, decoded.
pub proof fn lemma_nonzero_exit_yields_stderr(out: ProcessOutput)
    requires
        out.exit_code != Some(0i32),
    ensures
        bridge_outcome(Ok(out)) == Err::<Seq<char>, Seq<char>>(lossy_text(out.stderr@)),
{
}

/// A launch that the operating system refuses (a missing executable, say)
/// yields failure, with a text that carries the error's description.
pub proof fn lemma_launch_error_is_failure(desc: String)
    ensures
        bridge_outcome(Err(desc)) is Err,
        bridge_outcome(Err(desc)) == Err::<Seq<char>, Seq<char>>(launch_failure_text(desc@)),
{
}

/// Invoking the bridge twice, where the executable reports the same thing
/// both times, gives the same result both times.
pub proof fn lemma_repeat_gives_same_result(
    first: Result<ProcessOutput, String>,
    second: Result<ProcessOutput, String>,
)
    requires
        same_report(first, second),
    ensures
        bridge_outcome(first) == bridge_outcome(second),
{
}

/// Invocations with distinct arguments launch distinct command lines, each
/// carrying its own arguments in order. (What each then yields is
/// `bridge_outcome` of its own launch alone.)
pub proof fn lemma_invocations_independent(
    a1: Seq<char>,
    a2: Seq<char>,
    b1: Seq<char>,
    b2: Seq<char>,
)
    requires
        a1 != b1 || a2 != b2,
    ensures
        command_argv(a1, a2) != command_argv(b1, b2),
        command_argv(a1, a2)[1] == a1,
        command_argv(a1, a2)[2] == a2,
        command_argv(b1, b2)[1] == b1,
        command_argv(b1, b2)[2] == b2,
{
    assert(command_argv(a1, a2)[1] == a1);
    assert(command_argv(b1, b2)[1] == b1);
}

} // verus!
