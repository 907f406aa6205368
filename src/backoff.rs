//! The backoff executor's decisions: which failures are rate-limit signals, how
//! long to wait before the next try, and what error the caller finally sees.
//! The caller runs the operation and sleeps; every network call shares these rules.
use vstd::prelude::*;
use vstd::arithmetic::power2::{pow2, lemma2_to64, lemma2_to64_rest, lemma_pow2_unfold, lemma_pow2_strictly_increases};
use crate::text::{contains, contains_str, decimal, decimal_string};

verus! {

/// How many times a rate-limited network call is tried again.
pub const DEFAULT_MAX_RETRIES: u32 = 3;

/// Whether a failure message carries the rate-limit tag.
pub open spec fn is_rate_limit_message(message: Seq<char>) -> bool {
    contains(message, "rate_limit:"@)
}

/// A failure message with a leading rate-limit prefix taken off.
pub open spec fn untagged(message: Seq<char>) -> Seq<char> {
    let p = "rate_limit: "@;
    if p.len() <= message.len() && message.subrange(0, p.len() as int) == p {
        message.subrange(p.len() as int, message.len() as int)
    } else {
        message
    }
}

/// The wait before the retry that follows failed try `attempt` (counted from 0):
/// one second, doubled for each earlier retry.
pub open spec fn backoff_secs(attempt: nat) -> nat {
    pow2(attempt)
}

/// What to do after a try of a network call failed.
#[derive(Debug)]
pub enum BackoffStep {
    /// Sleep this many seconds, then try again.
    Retry { delay_secs: u64 },
    /// Give up and hand this error message to the caller.
    Fail { message: String },
}

/// Whether a failure message carries the rate-limit tag.
pub fn is_rate_limit_error(message: &str) -> (r: bool)
    ensures
        r == is_rate_limit_message(message@),
{
    contains_str(message, "rate_limit:")
}

/// Marks a failure message as a rate-limit signal.
pub fn tag_rate_limited(message: &str) -> (r: String)
    ensures
        r@ == "rate_limit: "@ + message@,
{
    let mut r = String::from_str("rate_limit: ");
    r.append(message);
    r
}

/// Takes a leading rate-limit prefix off a failure message.
pub fn strip_rate_limit_tag(message: &str) -> (r: String)
    ensures
        r@ == untagged(message@),
{
    let p = "rate_limit: ";
    proof {
        reveal_strlit("rate_limit: ");
    }
    let n = message.unicode_len();
    let m = p.unicode_len();
    if m <= n && crate::text::matches_at(message, p, 0) {
        assert(message@.subrange(0, m as int) == p@);
        String::from_str(message.substring_char(m, n))
    } else {
        String::from_str(message)
    }
}

/// The wait, in seconds, after failed try `attempt` (counted from 0).
pub fn backoff_delay_secs(attempt: u32) -> (r: u64)
    requires
        attempt < 64,
    ensures
        r == backoff_secs(attempt as nat),
{
    let mut d: u64 = 1;
    let mut i: u32 = 0;
    proof {
        lemma2_to64();
        lemma2_to64_rest();
    }
    while i < attempt
        invariant
            i <= attempt < 64,
            d == pow2(i as nat),
            pow2(63) == 0x8000_0000_0000_0000,
        decreases attempt - i,
    {
        proof {
            lemma_pow2_unfold((i + 1) as nat);
            if i + 1 < 63 {
                lemma_pow2_strictly_increases((i + 1) as nat, 63);
            }
        }
        d = d * 2;
        i += 1;
    }
    d
}

/// Decides what follows a failed try `attempt` (counted from 0) of a call that
/// may be tried `max_retries` more times: a rate-limit failure with retries left
/// waits and tries again; any other failure, or the last one, ends the call with
/// its message untagged.
pub fn after_failure(attempt: u32, max_retries: u32, message: &str) -> (r: BackoffStep)
    requires
        max_retries < 64,
    ensures
        is_rate_limit_message(message@) && attempt < max_retries ==> r == (BackoffStep::Retry {
            delay_secs: backoff_secs(attempt as nat) as u64,
        }),
        !(is_rate_limit_message(message@) && attempt < max_retries) ==> (r matches BackoffStep::Fail { message: m } && m@ == untagged(message@)),
{
    if is_rate_limit_error(message) && attempt < max_retries {
        BackoffStep::Retry { delay_secs: backoff_delay_secs(attempt) }
    } else {
        BackoffStep::Fail { message: strip_rate_limit_tag(message) }
    }
}

/// The notice shown before a backoff sleep.
pub fn retry_notice(delay_secs: u64) -> (r: String)
    ensures
        r@ == "Rate limited, retrying in "@ + decimal(delay_secs as nat) + "s..."@,
{
    let mut r = String::from_str("Rate limited, retrying in ");
    let d = decimal_string(delay_secs);
    r.append(d.as_str());
    r.append("s...");
    r
}

} // verus!
