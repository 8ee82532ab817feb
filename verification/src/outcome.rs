//! From the outcome of the exchange to what the program prints and how it
//! exits.

use vstd::prelude::*;
use crate::error::Failure;

verus! {

/// What the server sent back.
#[derive(Debug, Clone)]
pub struct Reply {
    pub status: u16,
    pub body: String,
}

/// What a run leaves behind: the text for standard output, the text for
/// standard error and the exit status.
#[derive(Debug, Clone)]
pub struct Report {
    pub stdout: String,
    pub stderr: String,
    pub exit_code: i32,
}

/// Standard output of a run: the reply's body and one line feed, or nothing
/// where the run failed.
pub open spec fn stdout_of(outcome: Result<Reply, Failure>) -> Seq<char> {
    match outcome {
        Ok(reply) => reply.body@ + seq!['\n'],
        Err(_) => Seq::empty(),
    }
}

/// Standard error of a run: nothing, or one line that names the failure.
pub open spec fn stderr_of(outcome: Result<Reply, Failure>) -> Seq<char> {
    match outcome {
        Ok(_) => Seq::empty(),
        Err(e) => seq!['E', 'r', 'r', 'o', 'r', ':', ' '] + e.detail() + seq!['\n'],
    }
}

/// The exit status of a run: 0 for a completed exchange, 1 for a failure.
pub open spec fn exit_code_of(outcome: Result<Reply, Failure>) -> i32 {
    match outcome {
        Ok(_) => 0i32,
        Err(_) => 1i32,
    }
}

/// Reports a run. A completed exchange prints the body as it came, whatever
/// the status, and exits with 0; a failure prints nothing to standard output,
/// one line to standard error, and exits with 1.
pub fn report(outcome: Result<Reply, Failure>) -> (r: Report)
    ensures
        r.stdout@ == stdout_of(outcome),
        r.stderr@ == stderr_of(outcome),
        r.exit_code == exit_code_of(outcome),
{
    proof {
        reveal_strlit("\n");
        reveal_strlit("Error: ");
    }
    match outcome {
        Ok(reply) => {
            let mut stdout = reply.body;
            stdout.append("\n");
            Report { stdout, stderr: String::new(), exit_code: 0i32 }
        },
        Err(e) => {
            let mut stderr = String::from_str("Error: ");
            stderr.append(e.message());
            stderr.append("\n");
            assert(stderr@ =~= stderr_of(outcome));
            Report { stdout: String::new(), stderr, exit_code: 1i32 }
        },
    }
}

/// The status of a reply is not looked at: two replies with the same body
/// are reported alike.
pub proof fn lemma_status_is_ignored(a: Reply, b: Reply)
    requires
        a.body@ == b.body@,
    ensures
        stdout_of(Ok(a)) == stdout_of(Ok(b)),
        stderr_of(Ok(a)) == stderr_of(Ok(b)),
        exit_code_of(Ok(a)) == exit_code_of(Ok(b)) == 0,
{
}

/// A completed exchange puts the body and exactly one line feed on standard
/// output, and nothing on standard error.
pub proof fn lemma_success_prints_body(reply: Reply)
    ensures
        stdout_of(Ok(reply)).len() == reply.body@.len() + 1,
        stdout_of(Ok(reply)).subrange(0, reply.body@.len() as int) == reply.body@,
        stdout_of(Ok(reply)).last() == '\n',
        stderr_of(Ok(reply)).len() == 0,
        exit_code_of(Ok(reply)) == 0,
{
    assert(stdout_of(Ok(reply)).subrange(0, reply.body@.len() as int) =~= reply.body@);
}

/// A failure puts nothing on standard output, something on standard error,
/// and exits with a status other than 0.
pub proof fn lemma_failure_is_silent_on_stdout(e: Failure)
    ensures
        stdout_of(Err(e)).len() == 0,
        stderr_of(Err(e)).len() > 0,
        exit_code_of(Err(e)) != 0,
{
}

} // verus!
