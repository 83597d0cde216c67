//! Retry engine.
//!
//! Executes an operation under a backoff policy: transient outcomes (HTTP
//! 429, HTTP 5xx, transport failures) are retried with an exponentially
//! growing delay bounded by the configured window, honoring a server's
//! `Retry-After` verbatim on 429, up to `max_retries` additional attempts.
//! A 401 is *not* transient here; the pipeline one layer up handles it.
//!
//! The engine itself is a state machine over attempt outcomes; the caller
//! performs each attempt and the sleeps, and feeds every outcome back in.

use vstd::prelude::*;

verus! {

/// Governs the retry engine's backoff window and budget.
#[derive(Debug, Clone, Copy, PartialEq, Eq, Structural)]
pub struct RetryConfig {
    /// Smallest backoff delay, in milliseconds.
    pub min_delay_ms: u64,
    /// Largest backoff delay, in milliseconds.
    pub max_delay_ms: u64,
    /// How many additional attempts may follow the first one.
    pub max_retries: u32,
}

impl Default for RetryConfig {
    /// The stock policy: half a second to ten seconds, three retries.
    fn default() -> (c: Self)
        ensures
            c == (RetryConfig { min_delay_ms: 500u64, max_delay_ms: 10000u64, max_retries: 3u32 }),
    {
        RetryConfig { min_delay_ms: 500, max_delay_ms: 10000, max_retries: 3 }
    }
}

impl RetryConfig {
    pub fn with_min_delay(self, min_delay_ms: u64) -> (c: Self)
        ensures
            c == (RetryConfig { min_delay_ms, ..self }),
    {
        RetryConfig { min_delay_ms, ..self }
    }

    pub fn with_max_delay(self, max_delay_ms: u64) -> (c: Self)
        ensures
            c == (RetryConfig { max_delay_ms, ..self }),
    {
        RetryConfig { max_delay_ms, ..self }
    }

    pub fn with_max_retries(self, max_retries: u32) -> (c: Self)
        ensures
            c == (RetryConfig { max_retries, ..self }),
    {
        RetryConfig { max_retries, ..self }
    }
}

/// What one attempt produced: a response with a status (and, for 429, any
/// `Retry-After` delay the server named), or a transport-level failure.
pub enum AttemptOutcome {
    Response { status: u16, retry_after_ms: Option<u64>, body: String },
    Transport(String),
}

/// Transient outcomes: transport failures, 429, and 5xx responses.
pub open spec fn is_retryable(o: &AttemptOutcome) -> bool {
    match o {
        AttemptOutcome::Transport(_) => true,
        AttemptOutcome::Response { status, .. } => *status == 429 || (500 <= *status <= 599),
    }
}

/// Exec mirror of `is_retryable`.
pub fn outcome_is_retryable(o: &AttemptOutcome) -> (r: bool)
    ensures
        r == is_retryable(o),
{
    match o {
        AttemptOutcome::Transport(_) => true,
        AttemptOutcome::Response { status, .. } => *status == 429 || (500 <= *status && *status
            <= 599),
    }
}

/// The backoff delay before retry number `retries_done + 1`: the minimum
/// delay doubled once per completed retry, capped by the maximum delay.
pub open spec fn backoff_delay_spec(cfg: RetryConfig, retries_done: nat) -> u64
    decreases retries_done,
{
    if retries_done == 0 {
        if cfg.min_delay_ms <= cfg.max_delay_ms {
            cfg.min_delay_ms
        } else {
            cfg.max_delay_ms
        }
    } else {
        let p = backoff_delay_spec(cfg, (retries_done - 1) as nat);
        if p > cfg.max_delay_ms / 2 {
            cfg.max_delay_ms
        } else {
            (2 * p) as u64
        }
    }
}

/// The delay the engine waits before the next attempt: the server's
/// `Retry-After`, verbatim, when a 429 carried one; the backoff otherwise.
pub open spec fn retry_delay_spec(cfg: RetryConfig, retries_done: nat, o: &AttemptOutcome) -> u64 {
    match o {
        AttemptOutcome::Response { status, retry_after_ms: Some(ra), .. } if *status == 429 => *ra,
        _ => backoff_delay_spec(cfg, retries_done),
    }
}

/// What the engine tells its driver after seeing one outcome.
#[derive(Debug, Clone, Copy, PartialEq, Eq, Structural)]
pub enum RetryDirective {
    /// Hand the outcome to the caller; the engine is done.
    Finish,
    /// Sleep this many milliseconds, then attempt again.
    RetryAfter(u64),
}

/// Compute the capped exponential backoff delay.
pub fn backoff_delay(cfg: &RetryConfig, retries_done: u32) -> (d: u64)
    ensures
        d == backoff_delay_spec(*cfg, retries_done as nat),
{
    let mut d: u64 = if cfg.min_delay_ms <= cfg.max_delay_ms {
        cfg.min_delay_ms
    } else {
        cfg.max_delay_ms
    };
    let mut i: u32 = 0;
    while i < retries_done
        invariant
            i <= retries_done,
            d == backoff_delay_spec(*cfg, i as nat),
        decreases retries_done - i,
    {
        if d > cfg.max_delay_ms / 2 {
            d = cfg.max_delay_ms;
        } else {
            d = 2 * d;
        }
        i += 1;
    }
    d
}

/// The retry engine: how many retries the current call has used so far,
/// under which policy.
#[derive(Debug, Clone, Copy)]
pub struct Retryer {
    pub config: RetryConfig,
    pub retries_used: u32,
}

impl Retryer {
    pub fn new(config: RetryConfig) -> (r: Self)
        ensures
            r.config == config,
            r.retries_used == 0,
    {
        Retryer { config, retries_used: 0 }
    }

    /// Decide what to do with one attempt's outcome: finish on anything
    /// non-transient or once the retry budget is spent; otherwise name the
    /// delay and count the retry.
    pub fn on_outcome(&mut self, o: &AttemptOutcome) -> (d: RetryDirective)
        ensures
            final(self).config == old(self).config,
            !is_retryable(o) ==> d == RetryDirective::Finish && *final(self) == *old(self),
            (is_retryable(o) && old(self).retries_used >= old(self).config.max_retries) ==> d
                == RetryDirective::Finish && *final(self) == *old(self),
            (is_retryable(o) && old(self).retries_used < old(self).config.max_retries) ==> d
                == RetryDirective::RetryAfter(
                retry_delay_spec(old(self).config, old(self).retries_used as nat, o),
            ) && final(self).retries_used == old(self).retries_used + 1,
    {
        if !outcome_is_retryable(o) {
            return RetryDirective::Finish;
        }
        if self.retries_used >= self.config.max_retries {
            return RetryDirective::Finish;
        }
        let delay: u64 = match o {
            AttemptOutcome::Response { status, retry_after_ms: Some(ra), .. } if *status
                == 429 => *ra,
            _ => backoff_delay(&self.config, self.retries_used),
        };
        self.retries_used = self.retries_used + 1;
        RetryDirective::RetryAfter(delay)
    }
}

/// How many attempts the engine makes on this outcome sequence, starting at
/// attempt `i` with `retries_done` retries already spent: it stops at the
/// first non-transient outcome, when the budget is exhausted, or when no
/// further outcome exists.
pub open spec fn attempts_from_spec(
    cfg: RetryConfig,
    outcomes: Seq<AttemptOutcome>,
    i: nat,
    retries_done: nat,
) -> int
    decreases outcomes.len() - i,
{
    if i + 1 >= outcomes.len() || !is_retryable(&outcomes[i as int]) || retries_done
        >= cfg.max_retries {
        i + 1 as int
    } else {
        attempts_from_spec(cfg, outcomes, i + 1, retries_done + 1)
    }
}

/// How many attempts the engine makes on this outcome sequence.
pub open spec fn attempts_spec(cfg: RetryConfig, outcomes: Seq<AttemptOutcome>) -> int {
    attempts_from_spec(cfg, outcomes, 0, 0)
}

/// Run the engine against a sequence of attempt outcomes, one per attempt
/// made.  Returns the number of attempts; `outcomes[attempts - 1]` is the
/// outcome the call surfaces, unchanged.
pub fn run_with_retry(cfg: &RetryConfig, outcomes: &Vec<AttemptOutcome>) -> (attempts: usize)
    requires
        outcomes@.len() > 0,
    ensures
        1 <= attempts <= outcomes@.len(),
        attempts == attempts_spec(*cfg, outcomes@),
        attempts <= cfg.max_retries + 1,
        forall|k: int| 0 <= k < attempts - 1 ==> is_retryable(&outcomes@[k]),
        is_retryable(&outcomes@[attempts - 1]) ==> (attempts == cfg.max_retries + 1 || attempts
            == outcomes@.len()),
    {
    let n = outcomes.len();
    let mut engine = Retryer::new(*cfg);
    let mut i: usize = 0;
    loop
        invariant
            n == outcomes@.len(),
            0 <= i < outcomes@.len(),
            engine.config == *cfg,
            engine.retries_used == i,
            i <= cfg.max_retries,
            forall|k: int| 0 <= k < i ==> is_retryable(&outcomes@[k]),
            attempts_spec(*cfg, outcomes@) == attempts_from_spec(
                *cfg,
                outcomes@,
                i as nat,
                i as nat,
            ),
        decreases outcomes@.len() - i,
    {
        let o = &outcomes[i];
        let d = engine.on_outcome(o);
        match d {
            RetryDirective::Finish => {
                return i + 1;
            },
            RetryDirective::RetryAfter(_delay) => {
                if i + 1 == outcomes.len() {
                    // The simulation provides no further outcome; the last
                    // one seen is what the engine would retry from.
                    return i + 1;
                }
                i += 1;
            },
        }
    }
}

/// With two transient 429 responses followed by a success and a budget of at
/// least two retries, the engine makes exactly three attempts and surfaces
/// the successful outcome.
pub proof fn lemma_retry_429_twice_then_success(
    cfg: RetryConfig,
    o1: AttemptOutcome,
    o2: AttemptOutcome,
    o3: AttemptOutcome,
)
    requires
        cfg.max_retries >= 2,
        o1 matches AttemptOutcome::Response { status, .. } && status == 429,
        o2 matches AttemptOutcome::Response { status, .. } && status == 429,
        o3 matches AttemptOutcome::Response { status, .. } && status == 200,
    ensures
        attempts_spec(cfg, seq![o1, o2, o3]) == 3,
        !is_retryable(&seq![o1, o2, o3][attempts_spec(cfg, seq![o1, o2, o3]) - 1]),
{
    let s = seq![o1, o2, o3];
    assert(is_retryable(&s[0]));
    assert(is_retryable(&s[1]));
    assert(!is_retryable(&s[2]));
    reveal_with_fuel(attempts_from_spec, 4);
    assert(attempts_from_spec(cfg, s, 0, 0) == 3);
}

/// With nothing but 429 responses and a budget of two retries, the engine
/// makes exactly three attempts and surfaces the third 429 unchanged.
pub proof fn lemma_retry_exhausted_on_429(cfg: RetryConfig, outcomes: Seq<AttemptOutcome>)
    requires
        cfg.max_retries == 2,
        outcomes.len() >= 3,
        forall|k: int| 0 <= k < outcomes.len() ==> ((#[trigger] outcomes[k]) matches
            AttemptOutcome::Response { status, .. } && status == 429),
    ensures
        attempts_spec(cfg, outcomes) == 3,
        is_retryable(&outcomes[2]),
        outcomes[2] matches AttemptOutcome::Response { status, .. } && status == 429,
{
    assert(outcomes[0] matches AttemptOutcome::Response { status, .. } && status == 429);
    assert(outcomes[1] matches AttemptOutcome::Response { status, .. } && status == 429);
    assert(outcomes[2] matches AttemptOutcome::Response { status, .. } && status == 429);
    reveal_with_fuel(attempts_from_spec, 4);
    assert(attempts_from_spec(cfg, outcomes, 0, 0) == 3);
}

} // verus!
