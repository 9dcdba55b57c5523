//! One search worker: its try counter, its decision on each candidate, and
//! when it reports progress.
use vstd::prelude::*;

use crate::keys::{base58_of, Candidate, KEYPAIR_LENGTH, KEY_LENGTH};
use crate::predicate::MatchPredicate;

verus! {

/// A worker reports progress each time its count of tries reaches a multiple
/// of this.
pub const REPORT_INTERVAL: u64 = 1_000_000;

/// A worker other than the primary one logs at most once in this many
/// milliseconds.
pub const LOG_COOLDOWN_MS: u64 = 10_000;

/// The worker that logs every progress report.
pub const PRIMARY_WORKER: u64 = 0;

/// An accepted match, as it is handed to the output.
pub struct ResultRecord {
    /// The worker that found it.
    pub worker_id: u64,
    /// That worker's count of tries, this one included.
    pub tries: u64,
    /// The Base58 text of the public key.
    pub public_key: String,
    /// The Base58 text of the whole keypair (secret key, then public key).
    pub keypair: String,
}

/// What one step of a worker came to.
pub enum Outcome {
    /// The found flag was seen set: the worker stops, nothing was drawn.
    Stopped,
    /// A candidate was drawn and did not match.
    Rejected,
    /// A candidate was drawn and matched.
    Found(ResultRecord),
}

/// Two progress reports of one worker lie at least a report interval apart:
/// the count rises by one per try, and a report is due only at multiples of
/// the interval.
pub proof fn lemma_reports_spaced(t1: u64, t2: u64)
    requires
        t1 < t2,
        t1 % REPORT_INTERVAL == 0,
        t2 % REPORT_INTERVAL == 0,
    ensures
        t2 >= t1 + REPORT_INTERVAL,
{
    let r = REPORT_INTERVAL as int;
    let a = t1 as int;
    let b = t2 as int;
    assert(a == r * (a / r) && b == r * (b / r)) by (nonlinear_arith)
        requires
            r > 0,
            a % r == 0,
            b % r == 0,
    ;
    assert(r * (a / r) + r <= r * (b / r)) by (nonlinear_arith)
        requires
            a < b,
            a == r * (a / r),
            b == r * (b / r),
            r > 0,
    ;
}

/// The public key text of a keypair given as 64 bytes.
pub open spec fn public_text_of(keypair: Seq<u8>) -> Seq<char> {
    base58_of(keypair.subrange(KEY_LENGTH as int, KEYPAIR_LENGTH as int))
}

/// The state a worker keeps for itself.
pub struct Worker {
    id: u64,
    tries: u64,
}

impl Worker {
    /// The worker's number.
    pub closed spec fn id_spec(&self) -> u64 {
        self.id
    }

    /// How many candidates the worker has drawn.
    pub closed spec fn tries_spec(&self) -> u64 {
        self.tries
    }

    /// A worker that has drawn nothing yet.
    pub fn new(id: u64) -> (r: Worker)
        ensures
            r.id_spec() == id,
            r.tries_spec() == 0,
    {
        Worker { id, tries: 0 }
    }

    pub fn id(&self) -> (r: u64)
        ensures
            r == self.id_spec(),
    {
        self.id
    }

    pub fn tries(&self) -> (r: u64)
        ensures
            r == self.tries_spec(),
    {
        self.tries
    }

    /// Counts one try and judges the candidate: a match becomes a record
    /// that carries this worker's number and its new count.
    pub fn consider(&mut self, candidate: &Candidate, pred: &MatchPredicate) -> (r: Outcome)
        requires
            old(self).tries_spec() < u64::MAX,
            candidate.wf(),
        ensures
            final(self).id_spec() == old(self).id_spec(),
            final(self).tries_spec() == old(self).tries_spec() + 1,
            pred.accepts_spec(candidate.public_key_view()) <==> r is Found,
            !(r is Stopped),
            r matches Outcome::Found(rec) ==> {
                &&& rec.worker_id == final(self).id_spec()
                &&& rec.tries == final(self).tries_spec()
                &&& rec.public_key@ == candidate.public_key_view()
                &&& rec.keypair@ == base58_of(candidate.keypair_view())
            },
    {
        self.tries = self.tries + 1;
        let key = candidate.public_key();
        if pred.accepts(key) {
            Outcome::Found(
                ResultRecord {
                    worker_id: self.id,
                    tries: self.tries,
                    public_key: key.to_owned(),
                    keypair: candidate.encoded_keypair(),
                },
            )
        } else {
            Outcome::Rejected
        }
    }

    /// One turn of the search loop, given what the last poll of the found
    /// flag returned. A set flag stops the worker at once; otherwise it draws
    /// a fresh keypair, counts the try, and judges the candidate.
    pub fn step(&mut self, flag_seen: bool, pred: &MatchPredicate) -> (r: Outcome)
        requires
            !flag_seen ==> old(self).tries_spec() < u64::MAX,
        ensures
            flag_seen ==> r is Stopped && *final(self) == *old(self),
            !flag_seen ==> {
                &&& final(self).id_spec() == old(self).id_spec()
                &&& final(self).tries_spec() == old(self).tries_spec() + 1
                &&& !(r is Stopped)
            },
            r matches Outcome::Found(rec) ==> {
                &&& pred.accepts_spec(rec.public_key@)
                &&& rec.worker_id == final(self).id_spec()
                &&& rec.tries == final(self).tries_spec()
                &&& exists|kp: Seq<u8>|
                    kp.len() == KEYPAIR_LENGTH && rec.public_key@ == #[trigger] public_text_of(kp)
                        && rec.keypair@ == base58_of(kp)
            },
            r is Rejected ==> exists|kp: Seq<u8>|
                kp.len() == KEYPAIR_LENGTH && !pred.accepts_spec(#[trigger] public_text_of(kp)),
    {
        if flag_seen {
            return Outcome::Stopped;
        }
        let candidate = Candidate::generate();
        let r = self.consider(&candidate, pred);
        assert(public_text_of(candidate.keypair_view()) == candidate.public_key_view());
        r
    }

    /// A progress report is due when the count of tries is a multiple of
    /// the report interval.
    pub fn report_due(&self) -> (r: bool)
        ensures
            r == (self.tries_spec() % REPORT_INTERVAL == 0),
    {
        self.tries % REPORT_INTERVAL == 0
    }

    /// Whether a due report is logged: always by the primary worker, by the
    /// others only when at least the cooldown has passed since their last log.
    pub fn should_log(&self, since_last_log_ms: u64) -> (r: bool)
        ensures
            r == (self.id_spec() == PRIMARY_WORKER || since_last_log_ms >= LOG_COOLDOWN_MS),
    {
        self.id == PRIMARY_WORKER || since_last_log_ms >= LOG_COOLDOWN_MS
    }
}

} // verus!
