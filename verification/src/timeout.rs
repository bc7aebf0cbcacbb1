//! The deadline race's aftermath: converting an elapsed deadline into a
//! well-formed result instead of an error, with a message naming the
//! configured timeout and the request's description, the conventional
//! terminated-by-signal exit code, and the canonical empty output digest.

use vstd::prelude::*;
use vstd::string::StringSliceAdditionalSpecFns;

use crate::request::{
    is_empty_digest, Digest, ExecutionError, FallibleExecuteProcessResultWithPlatform, Platform,
};
use crate::SIGTERM_EXIT_CODE;

verus! {

/// The decimal digit characters of `n`, as ASCII bytes, most significant
/// first, with no leading zeros (`0` itself is the single digit `0`).
pub open spec fn dec_digits(n: nat) -> Seq<u8>
    decreases n,
{
    if n < 10 {
        seq![(48 + n) as u8]
    } else {
        dec_digits(n / 10).push((48 + n % 10) as u8)
    }
}

/// `n` written in decimal, as ASCII bytes.
pub fn decimal_bytes(n: u64) -> (r: Vec<u8>)
    ensures
        r@ == dec_digits(n as nat),
    decreases n,
{
    if n < 10 {
        let mut r: Vec<u8> = Vec::new();
        r.push(48u8 + (n as u8));
        proof {
            assert(r@ =~= dec_digits(n as nat));
        }
        r
    } else {
        let mut r = decimal_bytes(n / 10);
        r.push(48u8 + ((n % 10) as u8));
        proof {
            assert(r@ =~= dec_digits(n as nat));
        }
        r
    }
}

/// The bytes a timed-out run reports on stdout: the configured timeout in
/// milliseconds and the request's description, in one sentence.
pub open spec fn timeout_message_bytes(millis: nat, description: Seq<u8>) -> Seq<u8> {
    "Exceeded timeout of ".spec_bytes() + dec_digits(millis)
        + "ms for local process execution, ".spec_bytes() + description
}

/// The stdout message for a run that exceeded `timeout_millis`, naming the
/// configured duration and the request's description.
pub fn timeout_message(timeout_millis: u64, description: &str) -> (r: Vec<u8>)
    ensures
        r@ == timeout_message_bytes(timeout_millis as nat, description.spec_bytes()),
{
    let mut out: Vec<u8> = Vec::new();
    out.extend_from_slice("Exceeded timeout of ".as_bytes());
    let mut digits = decimal_bytes(timeout_millis);
    out.append(&mut digits);
    out.extend_from_slice("ms for local process execution, ".as_bytes());
    out.extend_from_slice(description.as_bytes());
    proof {
        assert(out@ =~= timeout_message_bytes(timeout_millis as nat, description.spec_bytes()));
    }
    out
}

/// Whether `r` is exactly the result that stands in for a run whose
/// deadline elapsed: the explanatory stdout, nothing on stderr, the
/// conventional terminated-by-signal exit code, and the canonical empty
/// output digest.
pub open spec fn is_timeout_result(
    r: FallibleExecuteProcessResultWithPlatform,
    timeout_millis: u64,
    description: Seq<u8>,
    platform: Platform,
) -> bool {
    &&& r.stdout@ == timeout_message_bytes(timeout_millis as nat, description)
    &&& r.stdout@.len() >= 1
    &&& r.stderr@.len() == 0
    &&& r.exit_code == SIGTERM_EXIT_CODE
    &&& is_empty_digest(r.output_directory)
    &&& r.execution_attempts@.len() == 0
    &&& r.platform == platform
}

/// The substitute result for a run whose deadline elapsed.
pub fn timeout_result(timeout_millis: u64, description: &str, platform: Platform) -> (r:
    FallibleExecuteProcessResultWithPlatform)
    ensures
        is_timeout_result(r, timeout_millis, description.spec_bytes(), platform),
{
    let stdout = timeout_message(timeout_millis, description);
    proof {
        assert(dec_digits(timeout_millis as nat).len() >= 1) by {
            lemma_dec_digits_len(timeout_millis as nat);
        }
    }
    FallibleExecuteProcessResultWithPlatform {
        stdout,
        stderr: Vec::new(),
        exit_code: SIGTERM_EXIT_CODE,
        output_directory: Digest::empty(),
        execution_attempts: Vec::new(),
        platform,
    }
}

/// A decimal rendering always holds at least one digit.
pub proof fn lemma_dec_digits_len(n: nat)
    ensures
        dec_digits(n).len() >= 1,
    decreases n,
{
    if n >= 10 {
        lemma_dec_digits_len(n / 10);
    }
}

/// The sole absorption in the error taxonomy: an elapsed deadline — and
/// nothing else — is converted into a normal-shaped result, recognized by
/// its distinct kind rather than by message text; every other error, and
/// every completed result, passes through unchanged.
pub fn finalize_result(
    outcome: Result<FallibleExecuteProcessResultWithPlatform, ExecutionError>,
    timeout_millis: u64,
    description: &str,
    platform: Platform,
) -> (r: Result<FallibleExecuteProcessResultWithPlatform, ExecutionError>)
    ensures
        match outcome {
            Ok(res) => r == Ok::<_, ExecutionError>(res),
            Err(e) => {
                if e == (ExecutionError::TimeoutElapsed {}) {
                    r matches Ok(res) && is_timeout_result(
                        res,
                        timeout_millis,
                        description.spec_bytes(),
                        platform,
                    )
                } else {
                    r == Err::<FallibleExecuteProcessResultWithPlatform, _>(e)
                }
            },
        },
{
    match outcome {
        Ok(res) => Ok(res),
        Err(e) => {
            match e {
                ExecutionError::TimeoutElapsed => Ok(
                    timeout_result(timeout_millis, description, platform),
                ),
                _ => Err(e),
            }
        },
    }
}

} // verus!
