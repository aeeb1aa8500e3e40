//! The daily seed: one random seed per UTC day, kept in memory and backed by
//! a store that survives restarts.
//!
//! Getting the seed is a short conversation with the store, which the caller
//! carries out: `get_daily_seed` either answers at once or asks for the seed
//! stored for today; `stored_seed_found` takes the answer and either settles
//! the seed or hands out a fresh one to store; `new_seed_stored` settles the
//! fresh seed once it is stored. When the store fails, the caller reports the
//! error and the cache stays as it was.

use vstd::prelude::*;
use crate::date::{get_date, get_date_epoch, is_clock_date_text, iso_date_text};

verus! {

/// A seed and the day it belongs to.
#[derive(Debug)]
pub struct DailySeed {
    /// The day, as `YYYY-MM-DD`.
    pub day: String,
    /// The seed.
    pub seed: i64,
}

/// The seed currently in use and its day.
#[derive(Debug)]
pub struct DailySeedCache {
    current_seed: DailySeed,
}

impl View for DailySeedCache {
    /// The day and the seed.
    type V = (Seq<char>, i64);

    closed spec fn view(&self) -> (Seq<char>, i64) {
        (self.current_seed.day@, self.current_seed.seed)
    }
}

/// The seed a cache in `state` knows for `date`, if it knows one.
pub open spec fn known_seed(state: (Seq<char>, i64), date: Seq<char>) -> Option<i64> {
    if date == state.0 {
        Some(state.1)
    } else {
        None
    }
}

/// What the caller does next to obtain the daily seed.
#[derive(Debug, PartialEq)]
pub enum SeedStep {
    /// The seed is known: here it is.
    Ready(i64),
    /// Look up the seed stored for this day and pass the answer to
    /// `stored_seed_found`.
    LookUpStored(String),
    /// No seed is stored for this day: store this fresh one under the day,
    /// then call `new_seed_stored`.
    StoreNew(String, i64),
    /// The seed cannot be obtained now; the message says why.
    Failed(String),
}

/// The message when the clock cannot be read.
pub open spec fn clock_failure_message() -> Seq<char> {
    "the current date cannot be read"@
}

/// The message when the operating system provides no randomness.
pub open spec fn randomness_failure_message() -> Seq<char> {
    "no random seed is available"@
}

/// A uniformly random `u64` drawn from the operating system's generator
/// through `rand::rngs::OsRng` and `TryRngCore::try_next_u64`; `None` when
/// the operating system reports an error.
///
/// Nothing is stated of the value, nor of when the operating system fails:
/// both are chance.
#[verifier::external_body]
fn random_seed() -> Option<u64> {
    rand::TryRngCore::try_next_u64(&mut rand::rngs::OsRng).ok()
}

/// The seed that a draw of 64 random bits gives: the same bits read as an `i64`.
pub open spec fn seed_of_bits(bits: u64) -> i64 {
    bits as i64
}

/// The step once a fresh seed has been drawn for `date`: store the seed the
/// drawn bits give, or fail when nothing could be drawn.
pub fn fresh_seed_step(date: String, drawn: Option<u64>) -> (step: SeedStep)
    ensures
        drawn matches Some(bits) ==> (step matches SeedStep::StoreNew(d, seed) && d@ == date@
            && seed as u64 == bits && seed == seed_of_bits(bits)),
        drawn is None ==> (step matches SeedStep::Failed(m) && m@ == randomness_failure_message()),
{
    match drawn {
        Some(bits) => {
            let seed: i64 = #[verifier::truncate] (bits as i64);
            assert((bits as i64) as u64 == bits) by (bit_vector);
            SeedStep::StoreNew(date, seed)
        },
        None => SeedStep::Failed("no random seed is available".to_string()),
    }
}

/// Every draw gives its own seed: two different draws never give the same
/// seed, so the seed keeps all the randomness drawn for it.
pub proof fn lemma_distinct_draws_give_distinct_seeds(a: u64, b: u64)
    requires
        a != b,
    ensures
        seed_of_bits(a) != seed_of_bits(b),
        seed_of_bits(a) as u64 == a,
{
    assert((a as i64) as u64 == a) by (bit_vector);
    assert((b as i64) as u64 == b) by (bit_vector);
}

impl DailySeedCache {
    /// A cache that knows only the epoch day, with seed 0.
    pub fn new() -> (cache: Self)
        ensures
            cache@ == (iso_date_text(1970, 1, 1), 0i64),
    {
        DailySeedCache { current_seed: DailySeed { day: get_date_epoch(), seed: 0 } }
    }

    /// The first step for `date`: the known seed when `date` is the cached
    /// day, else a request to look up the stored seed for `date`.
    pub fn seed_for_date(&self, date: String) -> (step: SeedStep)
        ensures
            known_seed(self@, date@) matches Some(s) ==> step == SeedStep::Ready(s),
            known_seed(self@, date@) is None ==> (step matches SeedStep::LookUpStored(d) && d@
                == date@),
    {
        if date == self.current_seed.day {
            SeedStep::Ready(self.current_seed.seed)
        } else {
            SeedStep::LookUpStored(date)
        }
    }

    /// The first step for `today`, the date the clock gave (`None` when it
    /// could not be read): the known seed when `today` is the cached day,
    /// else a request to look up the stored seed for `today`; a failure
    /// exactly when there is no date.
    pub fn seed_for_today(&self, today: Option<String>) -> (step: SeedStep)
        ensures
            today is None <==> step is Failed,
            today is None ==> (step matches SeedStep::Failed(m) && m@ == clock_failure_message()),
            today matches Some(d) ==> (known_seed(self@, d@) matches Some(s) ==> step
                == SeedStep::Ready(s)),
            today matches Some(d) ==> (known_seed(self@, d@) is None ==> (
            step matches SeedStep::LookUpStored(x) && x@ == d@)),
    {
        match today {
            Some(date) => self.seed_for_date(date),
            None => SeedStep::Failed("the current date cannot be read".to_string()),
        }
    }

    /// The first step for today (UTC): the known seed when today is the
    /// cached day, else a request to look up the stored seed for today; a
    /// failure when the clock cannot be read.
    pub fn get_daily_seed(&self) -> (step: SeedStep)
        ensures
            step matches SeedStep::Ready(s) ==> s == self@.1 && is_clock_date_text(self@.0),
            step matches SeedStep::LookUpStored(d) ==> d@ != self@.0 && is_clock_date_text(d@),
            step matches SeedStep::Failed(m) ==> m@ == clock_failure_message(),
            !(step is StoreNew),
    {
        self.seed_for_today(get_date())
    }

    /// Takes the seed stored for `date`, if any. A stored seed becomes the
    /// seed of `date` and is returned; without one, a fresh random seed is
    /// handed out to be stored, or a failure when the operating system gives
    /// no randomness, and the cache is left unchanged.
    pub fn stored_seed_found(&mut self, date: String, stored: Option<i64>) -> (step: SeedStep)
        ensures
            stored matches Some(s) ==> final(self)@ == (date@, s) && step == SeedStep::Ready(s),
            stored is None ==> final(self)@ == old(self)@,
            stored is None ==> (step matches SeedStep::StoreNew(d, _) && d@ == date@) || (
            step matches SeedStep::Failed(m) && m@ == randomness_failure_message()),
    {
        match stored {
            Some(s) => {
                self.current_seed = DailySeed { day: date, seed: s };
                SeedStep::Ready(s)
            },
            None => {
                fresh_seed_step(date, random_seed())
            },
        }
    }

    /// Records that `seed` was stored for `date`: it becomes the seed of
    /// `date` and is returned.
    pub fn new_seed_stored(&mut self, date: String, seed: i64) -> (settled: i64)
        ensures
            final(self)@ == (date@, seed),
            settled == seed,
    {
        self.current_seed = DailySeed { day: date, seed };
        seed
    }
}

/// A cache knows a seed for exactly one day, its own: the seed it answers
/// for a date is its seed when the date is its day, and none otherwise.
pub proof fn lemma_known_seed_exactly_on_cached_day(state: (Seq<char>, i64), date: Seq<char>, seed: i64)
    ensures
        known_seed(state, date) == Some(seed) <==> (date == state.0 && seed == state.1),
        known_seed(state, date) is None <==> date != state.0,
{
}

/// Once the seed of a day is settled, every later request on that day is
/// answered with that seed, without asking the store, and a request on any
/// other day goes back to the store.
pub proof fn lemma_seed_fixed_for_the_day(day: Seq<char>, seed: i64, other_day: Seq<char>)
    requires
        other_day != day,
    ensures
        known_seed((day, seed), day) == Some(seed),
        known_seed((day, seed), other_day) is None,
{
}

} // verus!
