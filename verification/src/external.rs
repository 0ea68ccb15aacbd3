//! External address resolution. The lookup call itself is network work that
//! the caller performs; this module holds the resolved address with its
//! family classification, and the bounded-retry policy that decides, after
//! each attempt, whether to sleep and try again or to give up with the last
//! error observed.

use vstd::prelude::*;

use crate::ip;

verus! {

/// Maximum number of attempts to fetch the external address.
pub const MAX_RETRY_ATTEMPTS: u32 = 5;

/// Fixed delay between attempts, in seconds. No delay follows the last
/// attempt.
pub const RETRY_DELAY_SECONDS: u64 = 5;

/// The caller's current public address, as the lookup service echoed it.
/// No validation is applied on construction; classification into the two
/// families is the caller's concern.
pub struct ExternalIp {
    pub address: String,
}

impl ExternalIp {
    /// Wraps a resolved address string.
    pub fn new(address: String) -> (r: Self)
        ensures
            r.address@ == address@,
    {
        ExternalIp { address }
    }

    /// True exactly when the address is a dotted-quad IPv4 address.
    pub fn is_ipv4(&self) -> (r: bool)
        ensures
            r == ip::is_ipv4_chars(self.address@),
    {
        ip::is_ipv4_str(self.address.as_str())
    }

    /// True exactly when the address is a hexadecimal-groups IPv6 address.
    pub fn is_ipv6(&self) -> (r: bool)
        ensures
            r == ip::is_ipv6_chars(self.address@),
    {
        ip::is_ipv6_str(self.address.as_str())
    }
}

/// What one lookup attempt produced: the echoed address, or the description
/// of the failure.
pub enum FetchOutcome {
    Success(String),
    Failure(String),
}

impl FetchOutcome {
    /// The attempt succeeded.
    pub open spec fn spec_is_success(&self) -> bool {
        self is Success
    }

    /// The address of a successful attempt.
    pub open spec fn spec_address(&self) -> Seq<char> {
        self->Success_0@
    }

    /// The description of a failed attempt.
    pub open spec fn spec_message(&self) -> Seq<char> {
        self->Failure_0@
    }
}

/// Index of the first successful outcome among the first `n`, if any.
pub open spec fn first_success_before(outcomes: Seq<FetchOutcome>, n: int) -> Option<int>
    decreases n,
{
    if n <= 0 {
        None
    } else {
        match first_success_before(outcomes, n - 1) {
            Some(i) => Some(i),
            None => if outcomes[n - 1] is Success {
                Some(n - 1)
            } else {
                None
            },
        }
    }
}

/// When the first `i` outcomes fail and outcome `i` succeeds, `i` is the
/// first success among any first `n > i`.
proof fn lemma_first_success_at(outcomes: Seq<FetchOutcome>, i: int, n: int)
    requires
        0 <= i < n,
        outcomes[i] is Success,
        forall|j: int| 0 <= j < i ==> !(outcomes[j] is Success),
    ensures
        first_success_before(outcomes, n) == Some(i),
    decreases n,
{
    if n - 1 > i {
        lemma_first_success_at(outcomes, i, n - 1);
    } else {
        lemma_no_success_before(outcomes, i);
    }
}

/// When the first `n` outcomes all fail, there is no first success among
/// them.
proof fn lemma_no_success_before(outcomes: Seq<FetchOutcome>, n: int)
    requires
        forall|j: int| 0 <= j < n ==> !(outcomes[j] is Success),
    ensures
        first_success_before(outcomes, n) is None,
    decreases n,
{
    if n > 0 {
        lemma_no_success_before(outcomes, n - 1);
    }
}

/// The retry bookkeeping of the resolver: how many attempts were made and
/// the error of the most recent failed one. The caller performs one lookup
/// per attempt, reports its outcome here, and sleeps exactly when told to.
pub struct Resolver {
    attempts_made: u32,
    last_error: Option<String>,
}

impl Resolver {
    /// Attempts reported so far.
    pub closed spec fn spec_attempts(&self) -> u32 {
        self.attempts_made
    }

    /// The error of the most recent failed attempt, if one failed.
    pub closed spec fn spec_last_error(&self) -> Option<Seq<char>> {
        match self.last_error {
            Some(ref e) => Some(e@),
            None => None,
        }
    }

    /// Every attempt so far failed and recorded its error.
    pub open spec fn wf(&self) -> bool {
        self.spec_attempts() <= MAX_RETRY_ATTEMPTS && (self.spec_attempts() > 0
            ==> self.spec_last_error() is Some)
    }

    /// A fresh resolver: no attempt made yet.
    pub fn new() -> (r: Self)
        ensures
            r.wf(),
            r.spec_attempts() == 0,
            r.spec_last_error() is None,
    {
        Resolver { attempts_made: 0, last_error: None }
    }

    /// Attempts reported so far.
    pub fn attempts(&self) -> (r: u32)
        ensures
            r == self.spec_attempts(),
    {
        self.attempts_made
    }

    /// Whether another lookup attempt may be made.
    pub fn may_attempt(&self) -> (r: bool)
        ensures
            r == (self.spec_attempts() < MAX_RETRY_ATTEMPTS),
    {
        self.attempts_made < MAX_RETRY_ATTEMPTS
    }

    /// Records one failed attempt. The result says whether to sleep for
    /// `RETRY_DELAY_SECONDS` before the next attempt: true exactly when an
    /// attempt remains, so no delay follows the last one.
    pub fn note_failure(&mut self, error: String) -> (sleep: bool)
        requires
            old(self).wf(),
            old(self).spec_attempts() < MAX_RETRY_ATTEMPTS,
        ensures
            final(self).wf(),
            final(self).spec_attempts() == old(self).spec_attempts() + 1,
            final(self).spec_last_error() == Some(error@),
            sleep == (final(self).spec_attempts() < MAX_RETRY_ATTEMPTS),
    {
        self.attempts_made = self.attempts_made + 1;
        self.last_error = Some(error);
        self.attempts_made < MAX_RETRY_ATTEMPTS
    }

    /// The error to surface once every attempt has failed: the one of the
    /// last attempt. Earlier errors were discarded as they were superseded.
    pub fn last_error(self) -> (r: String)
        requires
            self.wf(),
            self.spec_attempts() == MAX_RETRY_ATTEMPTS,
        ensures
            Some(r@) == self.spec_last_error(),
    {
        match self.last_error {
            Some(e) => e,
            None => String::new(),
        }
    }
}

/// The result of running the retry policy: what resolution returned, and how
/// many inter-attempt delays were taken.
pub struct ResolveReport {
    /// The resolved address, or the error of the last attempt.
    pub outcome: Result<String, String>,
    /// Number of inter-attempt delays the policy asked for.
    pub delays: u32,
    /// Number of attempts consumed.
    pub attempts: u32,
}

/// Runs the retry policy over the outcomes the lookup service would produce,
/// attempt by attempt: the first success within `MAX_RETRY_ATTEMPTS` attempts
/// resolves immediately with one delay per preceding failure; otherwise the
/// error of the last attempt is surfaced, with no delay after it.
pub fn resolve_from_outcomes(outcomes: Vec<FetchOutcome>) -> (r: ResolveReport)
    requires
        outcomes@.len() >= MAX_RETRY_ATTEMPTS,
    ensures
        match first_success_before(outcomes@, MAX_RETRY_ATTEMPTS as int) {
            Some(i) => r.outcome is Ok && r.outcome->Ok_0@ == outcomes@[i].spec_address()
                && r.delays == i && r.attempts == i + 1,
            None => r.outcome is Err && r.outcome->Err_0@ == outcomes@[
                MAX_RETRY_ATTEMPTS - 1
            ].spec_message() && r.delays == MAX_RETRY_ATTEMPTS - 1
                && r.attempts == MAX_RETRY_ATTEMPTS,
        },
{
    let mut resolver = Resolver::new();
    let mut delays: u32 = 0;
    let mut i: usize = 0;
    let max = MAX_RETRY_ATTEMPTS as usize;
    while i < max
        invariant
            max == MAX_RETRY_ATTEMPTS,
            outcomes@.len() >= MAX_RETRY_ATTEMPTS,
            0 <= i <= max,
            resolver.wf(),
            resolver.spec_attempts() == i as u32,
            delays == if i < max {
                i as u32
            } else {
                (MAX_RETRY_ATTEMPTS - 1) as u32
            },
            forall|j: int| 0 <= j < i ==> !(outcomes@[j] is Success),
            i > 0 ==> resolver.spec_last_error() == Some(outcomes@[i - 1].spec_message()),
        decreases max - i,
    {
        match &outcomes[i] {
            FetchOutcome::Success(address) => {
                proof {
                    lemma_first_success_at(outcomes@, i as int, MAX_RETRY_ATTEMPTS as int);
                }
                let attempts = resolver.attempts() + 1;
                return ResolveReport { outcome: Ok(address.clone()), delays, attempts };
            },
            FetchOutcome::Failure(error) => {
                let sleep = resolver.note_failure(error.clone());
                if sleep {
                    delays = delays + 1;
                }
            },
        }
        i = i + 1;
    }
    proof {
        lemma_no_success_before(outcomes@, MAX_RETRY_ATTEMPTS as int);
    }
    ResolveReport {
        outcome: Err(resolver.last_error()),
        delays,
        attempts: MAX_RETRY_ATTEMPTS,
    }
}

} // verus!
