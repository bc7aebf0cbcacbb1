//! The merged output of a running child, and its folding into one final
//! result: stdout bytes, stderr bytes, and an exit code.

use vstd::prelude::*;

verus! {

/// One tagged event from the child's merged output: a chunk of one of the
/// two byte channels, or the terminal exit event. Events keep their order
/// within each channel; cross-channel interleaving carries no meaning.
#[derive(Debug, Clone, PartialEq, Eq)]
pub enum ChildOutput {
    Stdout(Vec<u8>),
    Stderr(Vec<u8>),
    Exit(i32),
}

/// The stdout bytes of an event sequence: its `Stdout` chunks, concatenated
/// in order.
pub open spec fn stdout_bytes(events: Seq<ChildOutput>) -> Seq<u8>
    decreases events.len(),
{
    if events.len() == 0 {
        Seq::empty()
    } else {
        stdout_bytes(events.drop_last()) + match events.last() {
            ChildOutput::Stdout(chunk) => chunk@,
            _ => Seq::empty(),
        }
    }
}

/// The stderr bytes of an event sequence: its `Stderr` chunks, concatenated
/// in order.
pub open spec fn stderr_bytes(events: Seq<ChildOutput>) -> Seq<u8>
    decreases events.len(),
{
    if events.len() == 0 {
        Seq::empty()
    } else {
        stderr_bytes(events.drop_last()) + match events.last() {
            ChildOutput::Stderr(chunk) => chunk@,
            _ => Seq::empty(),
        }
    }
}

/// The exit code an event sequence reports: the code of its last `Exit`
/// event, or 0 where none was ever observed — an edge case that must not
/// crash the fold.
pub open spec fn final_exit_code(events: Seq<ChildOutput>) -> i32
    decreases events.len(),
{
    if events.len() == 0 {
        0
    } else {
        match events.last() {
            ChildOutput::Exit(code) => code,
            _ => final_exit_code(events.drop_last()),
        }
    }
}

/// The exit code a wait on the child reports, as a single signed value:
/// the process's own exit code where it exited normally, or the negated
/// number of the signal that terminated it.
///
/// On the platforms this executor supports, a wait reports exactly one of
/// the two, and signal numbers are small positives; inputs outside that are
/// excluded rather than guessed at.
pub fn exit_code_of_status(code: Option<i32>, signal: Option<i32>) -> (r: i32)
    requires
        code is Some || signal is Some,
        signal matches Some(s) ==> 0 < s,
    ensures
        code matches Some(c) ==> r == c,
        code is None ==> (signal matches Some(s) ==> r == -s),
{
    match code {
        Some(c) => c,
        None => {
            match signal {
                Some(s) => -s,
                None => 0,
            }
        },
    }
}

/// The fully collected outputs of a completed child process.
#[derive(Debug, Clone, PartialEq, Eq)]
pub struct ChildResults {
    pub stdout: Vec<u8>,
    pub stderr: Vec<u8>,
    pub exit_code: i32,
}

impl ChildResults {
    /// Folds a completed event sequence into its final outputs: per-channel
    /// bytes appended in arrival order, and the last reported exit code.
    pub fn collect_from(events: &Vec<ChildOutput>) -> (r: ChildResults)
        ensures
            r.stdout@ == stdout_bytes(events@),
            r.stderr@ == stderr_bytes(events@),
            r.exit_code == final_exit_code(events@),
    {
        let mut stdout: Vec<u8> = Vec::new();
        let mut stderr: Vec<u8> = Vec::new();
        let mut exit_code: i32 = 0;
        let n = events.len();
        let mut i: usize = 0;
        while i < n
            invariant
                n == events@.len(),
                i <= n,
                stdout@ == stdout_bytes(events@.take(i as int)),
                stderr@ == stderr_bytes(events@.take(i as int)),
                exit_code == final_exit_code(events@.take(i as int)),
            decreases n - i,
        {
            proof {
                assert(events@.take(i + 1).drop_last() =~= events@.take(i as int));
                assert(events@.take(i + 1).last() == events@[i as int]);
            }
            match &events[i] {
                ChildOutput::Stdout(chunk) => {
                    stdout.extend_from_slice(chunk.as_slice());
                },
                ChildOutput::Stderr(chunk) => {
                    stderr.extend_from_slice(chunk.as_slice());
                },
                ChildOutput::Exit(code) => {
                    exit_code = *code;
                },
            }
            i += 1;
        }
        proof {
            assert(events@.take(n as int) =~= events@);
        }
        ChildResults { stdout, stderr, exit_code }
    }
}

} // verus!
