//! When a failed request to the model is tried again, and after how long.

use vstd::prelude::*;
use vstd::string::StringExecFns;
use crate::text::concat;

verus! {

/// How many times a failed request is tried again.
pub const MAX_RETRIES: u32 = 2;

/// The longest wait before a new attempt, in seconds.
pub const MAX_BACKOFF_SECS: u64 = 3600;

/// What came of one attempt.
#[derive(Debug)]
pub enum AttemptOutcome {
    /// The request did not get through.
    Network(String),
    /// The provider answered. `status` is the status line as it is shown,
    /// `body` what came with it.
    Status { code: u16, status: String, body: String },
}

/// An `AttemptOutcome`, as the contracts speak of it.
pub enum Attempt {
    Network(Seq<char>),
    Status { code: u16, status: Seq<char>, body: Seq<char> },
}

impl View for AttemptOutcome {
    type V = Attempt;

    open spec fn view(&self) -> Attempt {
        match self {
            AttemptOutcome::Network(e) => Attempt::Network(e@),
            AttemptOutcome::Status { code, status, body } => Attempt::Status {
                code: *code,
                status: status@,
                body: body@,
            },
        }
    }
}

/// What is next after an attempt.
#[derive(Debug)]
pub enum RetryStep {
    /// The answer is good: read it.
    Accept,
    /// Wait for so many seconds, then try again.
    Retry { delay_secs: u64 },
    /// Give up, with the last error.
    Fail(String),
}

/// A `RetryStep`, as the contracts speak of it.
pub enum Verdict {
    Accept,
    Retry { delay_secs: u64 },
    Fail(Seq<char>),
}

impl View for RetryStep {
    type V = Verdict;

    open spec fn view(&self) -> Verdict {
        match self {
            RetryStep::Accept => Verdict::Accept,
            RetryStep::Retry { delay_secs } => Verdict::Retry { delay_secs: *delay_secs },
            RetryStep::Fail(e) => Verdict::Fail(e@),
        }
    }
}

/// Whether a status says that the request went well.
pub open spec fn is_success(code: u16) -> bool {
    200 <= code <= 299
}

/// Whether a status is worth another attempt: too many requests, or a
/// failure on the provider's side.
pub open spec fn is_transient(code: u16) -> bool {
    code == 429 || 500 <= code <= 599
}

/// How an attempt that failed is reported.
pub open spec fn attempt_error(a: Attempt) -> Seq<char> {
    match a {
        Attempt::Network(e) => "Failed to call LLM API: "@ + e,
        Attempt::Status { status, body, .. } => "LLM API error ("@ + status + "): "@ + body,
    }
}

/// Whether an attempt failed in a way that is worth another attempt.
pub open spec fn worth_retrying(a: Attempt) -> bool {
    match a {
        Attempt::Network(_) => true,
        Attempt::Status { code, .. } => is_transient(code),
    }
}

/// Whether an attempt got a good answer.
pub open spec fn accepted(a: Attempt) -> bool {
    a matches Attempt::Status { code, .. } && is_success(code)
}

/// How long to wait before the attempt that follows `failed` failed
/// attempts: one second after the first, and twice as long after each
/// further one, up to the longest wait.
pub open spec fn backoff(failed: nat) -> nat
    decreases failed,
{
    if failed <= 1 {
        1
    } else if 2 * backoff((failed - 1) as nat) > MAX_BACKOFF_SECS {
        MAX_BACKOFF_SECS as nat
    } else {
        2 * backoff((failed - 1) as nat)
    }
}

/// What is next after the attempt `a`, when `failed` attempts failed
/// before it and `max_retries` further attempts are allowed in all.
pub open spec fn verdict(failed: nat, max_retries: nat, a: Attempt) -> Verdict {
    if accepted(a) {
        Verdict::Accept
    } else if worth_retrying(a) && failed < max_retries {
        Verdict::Retry { delay_secs: backoff(failed + 1) as u64 }
    } else {
        Verdict::Fail(attempt_error(a))
    }
}

/// The attempts of one request.
#[derive(Debug)]
pub struct RetryPolicy {
    failed: u32,
    max_retries: u32,
}

impl RetryPolicy {
    #[verifier::type_invariant]
    spec fn inv(self) -> bool {
        self.failed <= self.max_retries
    }

    /// How many attempts have failed and were followed by another.
    pub closed spec fn failed(&self) -> nat {
        self.failed as nat
    }

    /// How many further attempts are allowed in all.
    pub closed spec fn max_retries(&self) -> nat {
        self.max_retries as nat
    }

    /// The policy before the first attempt.
    pub fn new(max_retries: u32) -> (p: Self)
        ensures
            p.failed() == 0,
            p.max_retries() == max_retries,
    {
        RetryPolicy { failed: 0, max_retries }
    }

    fn delay_after(failed: u32) -> (d: u64)
        requires
            failed >= 1,
        ensures
            d == backoff(failed as nat),
            1 <= d <= MAX_BACKOFF_SECS,
    {
        let mut d: u64 = 1;
        let mut i: u32 = 1;
        while i < failed
            invariant
                1 <= i <= failed,
                d == backoff(i as nat),
                1 <= d <= MAX_BACKOFF_SECS,
            decreases failed - i,
        {
            if 2 * d > MAX_BACKOFF_SECS {
                d = MAX_BACKOFF_SECS;
            } else {
                d = 2 * d;
            }
            i += 1;
        }
        d
    }

    /// Takes what came of an attempt and says what is next. An attempt is
    /// tried again only after a failure that may pass, and no more often
    /// than allowed; giving up hands out the last error.
    pub fn on_outcome(self, outcome: AttemptOutcome) -> (r: (Self, RetryStep))
        ensures
            r.1@ == verdict(self.failed(), self.max_retries(), outcome@),
            r.0.max_retries() == self.max_retries(),
            r.0.failed() <= r.0.max_retries(),
            r.0.failed() == if r.1 is Retry {
                self.failed() + 1
            } else {
                self.failed()
            },
    {
        proof {
            use_type_invariant(&self);
        }
        let transient = match &outcome {
            AttemptOutcome::Network(_) => true,
            AttemptOutcome::Status { code, .. } => *code == 429 || (500 <= *code && *code <= 599),
        };
        let good = match &outcome {
            AttemptOutcome::Network(_) => false,
            AttemptOutcome::Status { code, .. } => 200 <= *code && *code <= 299,
        };
        if good {
            (self, RetryStep::Accept)
        } else if transient && self.failed < self.max_retries {
            let failed = self.failed + 1;
            let delay_secs = Self::delay_after(failed);
            (RetryPolicy { failed, max_retries: self.max_retries }, RetryStep::Retry { delay_secs })
        } else {
            let error = match outcome {
                AttemptOutcome::Network(e) => concat("Failed to call LLM API: ", e.as_str()),
                AttemptOutcome::Status { code: _, status, body } => {
                    let mut m = String::from_str("LLM API error (");
                    m.append(status.as_str());
                    m.append("): ");
                    m.append(body.as_str());
                    m
                },
            };
            (self, RetryStep::Fail(error))
        }
    }
}

/// The first waits are of one second and of two.
pub proof fn backoff_doubles()
    ensures
        backoff(1) == 1,
        backoff(2) == 2,
        backoff(3) == 4,
        forall|n: nat| n >= 1 && 2 * backoff(n) <= MAX_BACKOFF_SECS ==> #[trigger] backoff(n + 1)
            == 2 * backoff(n),
{
    reveal_with_fuel(backoff, 4);
    assert forall|n: nat| n >= 1 && 2 * backoff(n) <= MAX_BACKOFF_SECS implies #[trigger] backoff(
        n + 1,
    ) == 2 * backoff(n) by {
        assert((n + 1 - 1) as nat == n);
    }
}

} // verus!
