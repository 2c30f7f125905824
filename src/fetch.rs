//! The decisions of the source fallback downloader. The caller performs
//! each request and reports how it went; the fetcher says what to do next:
//! retry the same candidate after a pause, move on to the next candidate,
//! keep the bytes just fetched, or give up.

use vstd::prelude::*;

verus! {

/// Retries allowed per candidate, counting the first attempt.
pub const RETRY_LIMIT: u32 = 3;

/// Pause before a retry, in seconds.
pub const BACKOFF_SECS: u64 = 2;

/// Bound on establishing a connection, in seconds.
pub const CONNECT_TIMEOUT_SECS: u64 = 30;

/// Bound on a whole transfer, in seconds.
pub const TOTAL_TIMEOUT_SECS: u64 = 300;

/// How one request went.
#[derive(Debug, Clone, Copy, PartialEq, Eq, Structural)]
pub enum AttemptOutcome {
    /// A success status and a body read to its end.
    Success,
    /// The server answered with a status outside the success range.
    HttpStatus(u16),
    /// The connect or total time bound ran out.
    Timeout,
    /// The connection failed.
    Network,
    /// The body stream broke off.
    BodyError,
}

/// A failure that may pass on retrying: timeouts, broken connections and
/// streams, server errors, `408` and `429`.
pub open spec fn is_transient(o: AttemptOutcome) -> bool {
    match o {
        AttemptOutcome::Success => false,
        AttemptOutcome::HttpStatus(s) => s >= 500 || s == 408 || s == 429,
        _ => true,
    }
}

pub fn transient(o: AttemptOutcome) -> (r: bool)
    ensures
        r == is_transient(o),
{
    match o {
        AttemptOutcome::Success => false,
        AttemptOutcome::HttpStatus(s) => s >= 500 || s == 408 || s == 429,
        _ => true,
    }
}

/// What the caller does next.
#[derive(Debug, Clone, Copy, PartialEq, Eq, Structural)]
pub enum FetchStep {
    /// Request candidate `candidate`; `attempt` counts from one per
    /// candidate; `after_backoff` asks for the pause first.
    Try { candidate: usize, attempt: u32, after_backoff: bool },
    /// The bytes of candidate `candidate` are complete: keep them.
    Fetched { candidate: usize },
    /// Every candidate failed; the last failure seen, if any request was made.
    Exhausted { last_failure: Option<AttemptOutcome> },
}

/// The progress of one download over an ordered list of candidates.
#[derive(Debug, Clone, Copy, PartialEq, Eq, Structural)]
pub struct Fetcher {
    pub candidates: usize,
    pub retry_limit: u32,
    /// The candidate being tried.
    pub candidate: usize,
    /// Requests made to the current candidate so far.
    pub attempts: u32,
    pub last_failure: Option<AttemptOutcome>,
    /// A final step has been given.
    pub finished: bool,
}

impl Fetcher {
    /// A request is outstanding on an existing candidate, within the limit.
    pub open spec fn awaiting(&self) -> bool {
        &&& !self.finished
        &&& self.retry_limit >= 1
        &&& self.candidate < self.candidates
        &&& 1 <= self.attempts <= self.retry_limit
    }

    /// The first step over `candidates` sources.
    pub open spec fn spec_start(candidates: usize, retry_limit: u32) -> (Fetcher, FetchStep) {
        if candidates == 0 {
            (
                Fetcher { candidates, retry_limit, candidate: 0, attempts: 0, last_failure: None, finished: true },
                FetchStep::Exhausted { last_failure: None },
            )
        } else {
            (
                Fetcher { candidates, retry_limit, candidate: 0, attempts: 1, last_failure: None, finished: false },
                FetchStep::Try { candidate: 0, attempt: 1, after_backoff: false },
            )
        }
    }

    /// Begins a download over `candidates` sources, each tried up to
    /// `retry_limit` times.
    pub fn start(candidates: usize, retry_limit: u32) -> (r: (Fetcher, FetchStep))
        requires
            retry_limit >= 1,
        ensures
            r == Fetcher::spec_start(candidates, retry_limit),
            r.1 is Try ==> r.0.awaiting(),
    {
        if candidates == 0 {
            (
                Fetcher { candidates, retry_limit, candidate: 0, attempts: 0, last_failure: None, finished: true },
                FetchStep::Exhausted { last_failure: None },
            )
        } else {
            (
                Fetcher { candidates, retry_limit, candidate: 0, attempts: 1, last_failure: None, finished: false },
                FetchStep::Try { candidate: 0, attempt: 1, after_backoff: false },
            )
        }
    }

    /// The step after the outstanding request ended with `o`: a success is
    /// kept; a transient failure is retried on the same candidate until the
    /// limit; any other failure, or the limit, moves on to the next
    /// candidate; after the last candidate the download is exhausted.
    pub open spec fn spec_record(self, o: AttemptOutcome) -> (Fetcher, FetchStep) {
        if o == AttemptOutcome::Success {
            (Fetcher { finished: true, ..self }, FetchStep::Fetched { candidate: self.candidate })
        } else if is_transient(o) && self.attempts < self.retry_limit {
            (
                Fetcher { attempts: (self.attempts + 1) as u32, last_failure: Some(o), ..self },
                FetchStep::Try { candidate: self.candidate, attempt: (self.attempts + 1) as u32, after_backoff: true },
            )
        } else if self.candidate + 1 < self.candidates {
            (
                Fetcher { candidate: (self.candidate + 1) as usize, attempts: 1, last_failure: Some(o), ..self },
                FetchStep::Try { candidate: (self.candidate + 1) as usize, attempt: 1, after_backoff: false },
            )
        } else {
            (
                Fetcher { last_failure: Some(o), finished: true, ..self },
                FetchStep::Exhausted { last_failure: Some(o) },
            )
        }
    }

    /// Records how the outstanding request went and says what to do next.
    pub fn record(&mut self, o: AttemptOutcome) -> (r: FetchStep)
        requires
            old(self).awaiting(),
        ensures
            (*final(self), r) == old(self).spec_record(o),
            r is Try <==> final(self).awaiting(),
    {
        if o == AttemptOutcome::Success {
            self.finished = true;
            FetchStep::Fetched { candidate: self.candidate }
        } else if transient(o) && self.attempts < self.retry_limit {
            self.attempts = self.attempts + 1;
            self.last_failure = Some(o);
            FetchStep::Try { candidate: self.candidate, attempt: self.attempts, after_backoff: true }
        } else if self.candidate + 1 < self.candidates {
            self.candidate = self.candidate + 1;
            self.attempts = 1;
            self.last_failure = Some(o);
            FetchStep::Try { candidate: self.candidate, attempt: 1, after_backoff: false }
        } else {
            self.last_failure = Some(o);
            self.finished = true;
            FetchStep::Exhausted { last_failure: Some(o) }
        }
    }
}

/// A download driven to its end against a responder that says how the
/// `attempt`-th request to candidate `candidate` goes; `fuel` bounds the
/// number of requests.
pub open spec fn drive(
    f: Fetcher,
    step: FetchStep,
    respond: spec_fn(usize, u32) -> AttemptOutcome,
    fuel: nat,
) -> FetchStep
    decreases fuel,
{
    match step {
        FetchStep::Try { candidate, attempt, .. } => if fuel == 0 {
            step
        } else {
            let (f2, s2) = f.spec_record(respond(candidate, attempt));
            drive(f2, s2, respond, (fuel - 1) as nat)
        },
        _ => step,
    }
}

/// Requests that a run makes to candidate `c`.
pub open spec fn requests_to(
    f: Fetcher,
    step: FetchStep,
    respond: spec_fn(usize, u32) -> AttemptOutcome,
    fuel: nat,
    c: usize,
) -> nat
    decreases fuel,
{
    match step {
        FetchStep::Try { candidate, attempt, .. } => if fuel == 0 {
            0
        } else {
            let (f2, s2) = f.spec_record(respond(candidate, attempt));
            (if candidate == c { 1nat } else { 0nat }) + requests_to(f2, s2, respond, (fuel - 1) as nat, c)
        },
        _ => 0,
    }
}

/// The step that asks for the current request of `f`.
pub open spec fn current_try(f: Fetcher) -> FetchStep {
    FetchStep::Try { candidate: f.candidate, attempt: f.attempts, after_backoff: f.attempts > 1 }
}

proof fn lemma_first_fails(
    f: Fetcher,
    respond: spec_fn(usize, u32) -> AttemptOutcome,
    fuel: nat,
)
    requires
        f.awaiting(),
        f.candidate == 0,
        f.candidates >= 2,
        forall|a: u32| #[trigger] respond(0, a) != AttemptOutcome::Success,
        respond(1, 1) == AttemptOutcome::Success,
        fuel >= (f.retry_limit - f.attempts) + 2,
    ensures
        drive(f, current_try(f), respond, fuel) == (FetchStep::Fetched { candidate: 1 }),
        requests_to(f, current_try(f), respond, fuel, 0) <= f.retry_limit - f.attempts + 1,
    decreases f.retry_limit - f.attempts,
{
    let o = respond(0, f.attempts);
    let (f2, s2) = f.spec_record(o);
    let rest = (fuel - 1) as nat;
    assert(o != AttemptOutcome::Success);
    assert(drive(f, current_try(f), respond, fuel) == drive(f2, s2, respond, rest));
    assert(requests_to(f, current_try(f), respond, fuel, 0) == 1 + requests_to(f2, s2, respond, rest, 0));
    if is_transient(o) && f.attempts < f.retry_limit {
        assert(s2 == current_try(f2));
        lemma_first_fails(f2, respond, rest);
    } else {
        let (f3, s3) = f2.spec_record(respond(1, 1));
        assert(s2 == FetchStep::Try { candidate: 1, attempt: 1, after_backoff: false });
        assert(f2.candidate == 1);
        assert(s3 == FetchStep::Fetched { candidate: 1 });
        assert(drive(f2, s2, respond, rest) == drive(f3, s3, respond, (rest - 1) as nat));
        assert(drive(f3, s3, respond, (rest - 1) as nat) == s3);
        assert(requests_to(f2, s2, respond, rest, 0) == requests_to(f3, s3, respond, (rest - 1) as nat, 0));
        assert(requests_to(f3, s3, respond, (rest - 1) as nat, 0) == 0);
    }
}

pub open spec fn start_state(candidates: usize, retry_limit: u32) -> Fetcher {
    Fetcher::spec_start(candidates, retry_limit).0
}

pub open spec fn start_step(candidates: usize, retry_limit: u32) -> FetchStep {
    Fetcher::spec_start(candidates, retry_limit).1
}

/// Fallback ordering: when every request to the first candidate fails and
/// the first request to the second succeeds, the download keeps the second
/// candidate's bytes, after at most `retry_limit` requests to the first.
pub proof fn lemma_fallback_order(
    candidates: usize,
    retry_limit: u32,
    respond: spec_fn(usize, u32) -> AttemptOutcome,
)
    requires
        candidates >= 2,
        retry_limit >= 1,
        forall|a: u32| #[trigger] respond(0, a) != AttemptOutcome::Success,
        respond(1, 1) == AttemptOutcome::Success,
    ensures
        drive(start_state(candidates, retry_limit), start_step(candidates, retry_limit), respond, (retry_limit + 1) as nat)
            == (FetchStep::Fetched { candidate: 1 }),
        requests_to(start_state(candidates, retry_limit), start_step(candidates, retry_limit), respond, (retry_limit + 1) as nat, 0)
            <= retry_limit,
{
    let (f, s) = Fetcher::spec_start(candidates, retry_limit);
    assert(s == current_try(f));
    lemma_first_fails(f, respond, (retry_limit + 1) as nat);
}

} // verus!
