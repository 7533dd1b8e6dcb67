//! The retry policy main's drone connection sends commands with: up to
//! `MAX_RETRIES` attempts, with an exponential backoff between them and
//! none after the last.

use vstd::prelude::*;

verus! {

/// How many send attempts a command gets.
pub const MAX_RETRIES: u32 = 5;

/// The backoff before the second attempt, in milliseconds; it doubles
/// with every further attempt.
pub const BASE_BACKOFF_MS: u64 = 200;

/// How one send attempt went.
#[derive(Clone, Copy, Debug, PartialEq, Eq, Structural)]
pub enum SendOutcome {
    /// The line was written.
    Sent,
    /// The transport failed (no writer, I/O or framing error).
    TransportFailed,
}

/// What the connection does after an attempt.
#[derive(Clone, Copy, Debug, PartialEq, Eq, Structural)]
pub enum RetryAction {
    /// The command was delivered.
    Done,
    /// Sleep for `delay_ms`, reconnect, and try again.
    BackoffAndRetry {
        /// The backoff in milliseconds.
        delay_ms: u64,
    },
    /// Give up: the connection is reported disconnected after `retries`
    /// attempts.
    GiveUp {
        /// How many attempts failed.
        retries: u32,
    },
}

/// `2` to the power `n`.
pub open spec fn pow2(n: nat) -> nat
    decreases n,
{
    if n == 0 {
        1
    } else {
        2 * pow2((n - 1) as nat)
    }
}

/// The backoff after failed attempt number `attempt` (counting from 0):
/// `BASE_BACKOFF_MS * 2^attempt`.
pub open spec fn backoff_ms(attempt: nat) -> nat {
    (BASE_BACKOFF_MS as nat) * pow2(attempt)
}

/// The backoff after failed attempt number `attempt`.
pub fn backoff_after(attempt: u32) -> (r: u64)
    requires
        attempt < MAX_RETRIES,
    ensures
        r == backoff_ms(attempt as nat),
{
    let mut delay: u64 = BASE_BACKOFF_MS;
    let mut i: u32 = 0;
    while i < attempt
        invariant
            i <= attempt,
            attempt < MAX_RETRIES,
            delay == BASE_BACKOFF_MS * pow2(i as nat),
            delay <= BASE_BACKOFF_MS * 16,
        decreases attempt - i,
    {
        proof {
            assert(pow2((i + 1) as nat) == 2 * pow2(i as nat));
            assert(pow2(4) == 16) by {
                reveal_with_fuel(pow2, 5);
            }
            if i + 1 < 4 {
                lemma_pow2_grows((i + 1) as nat, 4);
            }
        }
        delay = delay * 2;
        i = i + 1;
    }
    delay
}

proof fn lemma_pow2_grows(a: nat, b: nat)
    requires
        a <= b,
    ensures
        pow2(a) <= pow2(b),
    decreases b,
{
    if a < b {
        lemma_pow2_grows(a, (b - 1) as nat);
    }
}

/// The step after attempt number `attempt` (counting from 0) went as
/// `outcome`: done when sent; after a failure, back off and retry unless
/// this was the last attempt, in which case give up.
pub open spec fn next_action(attempt: nat, outcome: SendOutcome) -> RetryAction {
    match outcome {
        SendOutcome::Sent => RetryAction::Done,
        SendOutcome::TransportFailed => if attempt + 1 >= MAX_RETRIES {
            RetryAction::GiveUp { retries: MAX_RETRIES }
        } else {
            RetryAction::BackoffAndRetry { delay_ms: backoff_ms(attempt) as u64 }
        },
    }
}

/// Decides what follows send attempt number `attempt`.
pub fn retry_step(attempt: u32, outcome: SendOutcome) -> (r: RetryAction)
    requires
        attempt < MAX_RETRIES,
    ensures
        r == next_action(attempt as nat, outcome),
{
    match outcome {
        SendOutcome::Sent => RetryAction::Done,
        SendOutcome::TransportFailed => {
            if attempt == MAX_RETRIES - 1 {
                RetryAction::GiveUp { retries: MAX_RETRIES }
            } else {
                RetryAction::BackoffAndRetry { delay_ms: backoff_after(attempt) }
            }
        },
    }
}

/// A command whose every attempt fails is tried exactly `MAX_RETRIES`
/// times: each attempt before the last backs off and retries, the last
/// gives up, and the backoffs double from `BASE_BACKOFF_MS`.
pub proof fn lemma_retry_budget(attempt: nat)
    requires
        attempt < MAX_RETRIES,
    ensures
        attempt + 1 < MAX_RETRIES ==> next_action(attempt, SendOutcome::TransportFailed) == (
        RetryAction::BackoffAndRetry { delay_ms: backoff_ms(attempt) as u64 }),
        attempt + 1 == MAX_RETRIES ==> next_action(attempt, SendOutcome::TransportFailed) == (
        RetryAction::GiveUp { retries: MAX_RETRIES }),
        attempt > 0 ==> backoff_ms(attempt) == 2 * backoff_ms((attempt - 1) as nat),
{
}

/// The first backoff is 200 ms and each later one doubles it, so the
/// four backoffs before the last attempt are 200, 400, 800 and 1600 ms.
pub proof fn lemma_backoff_schedule()
    ensures
        backoff_ms(0) == 200,
        backoff_ms(1) == 400,
        backoff_ms(2) == 800,
        backoff_ms(3) == 1600,
{
    reveal_with_fuel(pow2, 4);
}

} // verus!
