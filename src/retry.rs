use crate::error::Error;
use vstd::prelude::*;

verus! {

/// How many requests are made for one fetch at most.
pub const MAX_ATTEMPTS: u8 = 5;

/// The wait before the second attempt, in milliseconds.
pub const INITIAL_DELAY_MS: u64 = 100;

/// The outcome of one request: the body, or the error it was classified as.
pub type Attempt = Result<String, Error>;

/// Sorts a response by its status: a status in 200..=299 hands the body on,
/// 429 is throttling, and any other status is an API error that carries the
/// status and the body.
pub fn classify_response(status: u16, body: String) -> (r: Attempt)
    ensures
        200 <= status <= 299 ==> r == Ok::<String, Error>(body),
        status == 429 ==> r == Err::<String, Error>(Error::Throttling),
        !(200 <= status <= 299) && status != 429 ==> r == Err::<String, Error>(
            Error::ApiError(status, body),
        ),
{
    if status < 200 || status > 299 {
        if status == 429 {
            return Err(Error::Throttling);
        }
        return Err(Error::ApiError(status, body));
    }
    Ok(body)
}

/// The wait after the `n`-th throttled attempt, counted from zero, before
/// jitter: it starts at the initial delay and doubles each time.
pub open spec fn base_delay(n: nat) -> nat
    decreases n,
{
    if n == 0 {
        INITIAL_DELAY_MS as nat
    } else {
        2 * base_delay((n - 1) as nat)
    }
}

/// Whether `j` is a jitter factor in thousandths within [0.75, 1.25).
pub open spec fn valid_jitter(j: u64) -> bool {
    750 <= j < 1250
}

/// What to do after an attempt.
#[derive(Debug)]
pub enum Step {
    /// The fetch is over, with this result.
    Finish(Attempt),
    /// Wait this many milliseconds, then make the next attempt.
    Wait(u64),
}

/// The retry state of one fetch: the number of waits so far and the base
/// delay of the next one.
#[derive(Debug, Clone, Copy)]
pub struct Backoff {
    pub waits: u8,
    pub delay_ms: u64,
}

/// The wait after `w` earlier waits with jitter `j`, in milliseconds.
pub open spec fn jittered_delay(w: nat, j: u64) -> u64 {
    (base_delay(w) * j / 1000) as u64
}

/// The decision after an attempt when `w` waits have been made, with jitter
/// `j`: the number of waits afterwards and the step to take.
pub open spec fn step_spec(w: nat, outcome: Attempt, j: u64) -> (nat, Step) {
    match outcome {
        Ok(body) => (w, Step::Finish(Ok(body))),
        Err(Error::Throttling) => if w + 1 >= MAX_ATTEMPTS {
            (w, Step::Finish(Err(Error::Throttling)))
        } else {
            ((w + 1) as nat, Step::Wait(jittered_delay(w, j)))
        },
        Err(e) => (w, Step::Finish(Err(e))),
    }
}

impl Backoff {
    /// The state is consistent: fewer waits than attempts allowed, and the
    /// base delay is the one that belongs to the number of waits.
    pub open spec fn wf(self) -> bool {
        &&& self.waits < MAX_ATTEMPTS
        &&& self.delay_ms == base_delay(self.waits as nat)
    }

    /// The state before the first attempt.
    pub fn new() -> (r: Backoff)
        ensures
            r.wf(),
            r.waits == 0,
    {
        Backoff { waits: 0, delay_ms: INITIAL_DELAY_MS }
    }

    /// Decides what follows an attempt whose outcome is `outcome`. Only
    /// throttling is retried, while attempts remain; `jitter_permille` scales
    /// the wait, in thousandths.
    pub fn next(&mut self, outcome: Attempt, jitter_permille: u64) -> (r: Step)
        requires
            old(self).wf(),
            valid_jitter(jitter_permille),
        ensures
            final(self).wf(),
            (final(self).waits as nat, r) == step_spec(old(self).waits as nat, outcome, jitter_permille),
    {
        match outcome {
            Ok(body) => Step::Finish(Ok(body)),
            Err(Error::Throttling) => {
                if self.waits + 1 >= MAX_ATTEMPTS {
                    return Step::Finish(Err(Error::Throttling));
                }
                proof {
                    lemma_base_delay_bound(self.waits as nat);
                }
                let d = self.delay_ms;
                assert(d * jitter_permille <= 1600 * 1250) by (nonlinear_arith)
                    requires
                        d <= 1600,
                        jitter_permille < 1250,
                ;
                let wait = d * jitter_permille / 1000;
                self.waits = self.waits + 1;
                self.delay_ms = d * 2;
                Step::Wait(wait)
            },
            Err(e) => Step::Finish(Err(e)),
        }
    }
}

/// The course of a fetch that starts after `w` waits and whose attempts have
/// the outcomes `os`, in order, with jitter `j`: the result, if the fetch ends
/// within `os`, the waits made, and the number of attempts used.
pub open spec fn run(w: nat, os: Seq<Attempt>, j: u64) -> (Option<Attempt>, Seq<u64>, nat)
    decreases os.len(),
{
    if os.len() == 0 {
        (None, Seq::empty(), 0)
    } else {
        let (w2, s) = step_spec(w, os[0], j);
        match s {
            Step::Finish(res) => (Some(res), Seq::empty(), 1),
            Step::Wait(d) => {
                let (res, ds, n) = run(w2, os.drop_first(), j);
                (res, seq![d] + ds, n + 1)
            },
        }
    }
}

/// `k` attempts in a row that were throttled.
pub open spec fn throttled(k: nat) -> Seq<Attempt> {
    Seq::new(k, |i: int| Err::<String, Error>(Error::Throttling))
}

/// The waits after `k` throttled attempts, starting after `w` waits.
pub open spec fn waits_from(w: nat, k: nat, j: u64) -> Seq<u64> {
    Seq::new(k, |i: int| jittered_delay((w + i) as nat, j))
}

proof fn lemma_run_throttled(w: nat, k: nat, o: Attempt, j: u64)
    requires
        w + k < MAX_ATTEMPTS,
    ensures
        run(w, throttled(k).push(o), j) == ({
            let (r, ds, n) = run(w + k, seq![o], j);
            (r, waits_from(w, k, j) + ds, n + k)
        }),
    decreases k,
{
    let os = throttled(k).push(o);
    if k == 0 {
        assert(os =~= seq![o]);
        assert(waits_from(w, k, j) =~= Seq::<u64>::empty());
        let (r, ds, n) = run(w, seq![o], j);
        assert(Seq::<u64>::empty() + ds =~= ds);
    } else {
        assert(os[0] == Err::<String, Error>(Error::Throttling));
        assert(os.drop_first() =~= throttled((k - 1) as nat).push(o));
        lemma_run_throttled(w + 1, (k - 1) as nat, o, j);
        let (r, ds, n) = run(w + k, seq![o], j);
        assert(seq![jittered_delay(w, j)] + (waits_from(w + 1, (k - 1) as nat, j) + ds) =~= waits_from(w, k, j) + ds);
    }
}

/// A fetch whose first `k` attempts are throttled, `k` below the attempt
/// limit, and whose next attempt succeeds ends with that body after `k + 1`
/// attempts.
pub proof fn lemma_throttled_then_success(k: nat, body: String, j: u64)
    requires
        k < MAX_ATTEMPTS,
    ensures
        run(0, throttled(k).push(Ok(body)), j).0 == Some(Ok::<String, Error>(body)),
        run(0, throttled(k).push(Ok(body)), j).2 == k + 1,
{
    lemma_run_throttled(0, k, Ok(body), j);
    let os1: Seq<Attempt> = seq![Ok(body)];
    assert(os1[0] == Ok::<String, Error>(body));
}

/// A fetch whose attempts are all throttled gives up with a throttling error
/// after the attempt limit is spent.
pub proof fn lemma_throttled_exhausts(j: u64)
    ensures
        run(0, throttled(MAX_ATTEMPTS as nat), j).0 == Some(Err::<String, Error>(Error::Throttling)),
        run(0, throttled(MAX_ATTEMPTS as nat), j).2 == MAX_ATTEMPTS,
{
    let t: Attempt = Err(Error::Throttling);
    assert(throttled(MAX_ATTEMPTS as nat) =~= throttled(4).push(t));
    lemma_run_throttled(0, 4, t, j);
    let os1: Seq<Attempt> = seq![t];
    assert(os1[0] == t);
}

/// A first attempt that fails other than by throttling ends the fetch with
/// that error, and no further attempt is made.
pub proof fn lemma_fatal_error_stops(e: Error, rest: Seq<Attempt>, j: u64)
    requires
        !(e is Throttling),
    ensures
        run(0, seq![Err::<String, Error>(e)] + rest, j) == (
        Some(Err::<String, Error>(e)),
        Seq::<u64>::empty(),
        1nat,
        ),
{
    let os = seq![Err::<String, Error>(e)] + rest;
    assert(os[0] == Err::<String, Error>(e));
}

/// Without jitter the waits before the last allowed attempt are 100, 200,
/// 400 and 800 milliseconds, whatever that attempt brings.
pub proof fn lemma_backoff_sequence(last: Attempt)
    ensures
        run(0, throttled((MAX_ATTEMPTS - 1) as nat).push(last), 1000).1 == seq![100u64, 200, 400, 800],
{
    lemma_run_throttled(0, 4, last, 1000);
    let os1: Seq<Attempt> = seq![last];
    assert(os1[0] == last);
    reveal_with_fuel(base_delay, 5);
    assert(run(4, os1, 1000).1 =~= Seq::<u64>::empty());
    assert(waits_from(0, 4, 1000) =~= seq![100u64, 200, 400, 800]);
}

proof fn lemma_base_delay_bound(w: nat)
    requires
        w < MAX_ATTEMPTS,
    ensures
        base_delay(w) <= 1600,
{
    reveal_with_fuel(base_delay, 5);
}

} // verus!
