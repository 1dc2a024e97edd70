//! Core value types of the betting ledger: exact rational ratios, the error
//! taxonomy, bet results and the immutable resolution events.

use vstd::prelude::*;
use vstd::arithmetic::div_mod::{lemma_div_is_ordered, lemma_div_multiples_vanish, lemma_div_pos_is_pos};
use vstd::arithmetic::mul::lemma_mul_inequality;

verus! {

/// Why a call was rejected. Validation and migration failures leave the
/// state untouched; an arithmetic failure means an intermediate product
/// would not fit the integer width and the call fails closed.
#[derive(Clone, Copy, PartialEq, Eq, Structural, Debug)]
pub enum BetError {
    /// The max-bet ratio is outside the half-open range (0, 1].
    InvalidMaxBetRatio,
    /// The winning probability is outside the half-open range (0, 1].
    InvalidWinningProba,
    /// The winning probability is not expressed in 256ths.
    WrongProbaDenominator,
    /// An intermediate product exceeds the 128-bit width.
    ArithmeticOverflow,
    /// Migration was asked of a state that is already in the current schema.
    AlreadyMigrated,
}

impl BetError {
    /// A human-readable reason for the failure.
    pub fn message(&self) -> (r: &'static str) {
        match self {
            BetError::InvalidMaxBetRatio => "Max bet ratio must be in the range (0, 1]",
            BetError::InvalidWinningProba => "Winning probability must be in the range (0, 1]",
            BetError::WrongProbaDenominator => "Denominator must be 256",
            BetError::ArithmeticOverflow => "Arithmetic overflow",
            BetError::AlreadyMigrated => "State is already in the current schema",
        }
    }
}

/// An exact rational number. Every fraction accepted into contract state
/// satisfies `valid()`: `0 < num <= den`, so it lies in (0, 1].
#[derive(Clone, Copy, PartialEq, Eq, Structural, Debug)]
pub struct Fraction {
    pub num: u128,
    pub den: u128,
}

impl Fraction {
    /// The invariant every stored fraction satisfies: a value in (0, 1].
    pub open spec fn valid(self) -> bool {
        0 < self.num && self.num <= self.den
    }

    /// The extra demand on a winning probability: granularity of 1/256,
    /// because outcomes are decided by single entropy bytes.
    pub open spec fn proba_valid(self) -> bool {
        self.valid() && self.den == 256
    }

    /// `floor(num * amount / den)`, over unbounded integers.
    pub open spec fn spec_mul(self, amount: u128) -> int {
        self.num * amount / (self.den as int)
    }

    /// Whether this fraction lies in (0, 1].
    pub fn is_valid(&self) -> (r: bool)
        ensures
            r == self.valid(),
    {
        0 < self.num && self.num <= self.den
    }

    /// `floor(num * amount / den)`. The product is overflow-checked: a product
    /// beyond 128 bits fails closed instead of wrapping.
    pub fn mul(&self, amount: u128) -> (r: Result<u128, BetError>)
        requires
            self.den > 0,
        ensures
            r is Ok <==> self.num * amount <= u128::MAX,
            r is Ok ==> r->Ok_0 == self.spec_mul(amount),
            r is Err ==> r->Err_0 == BetError::ArithmeticOverflow,
    {
        match self.num.checked_mul(amount) {
            Some(product) => Ok(product / self.den),
            None => Err(BetError::ArithmeticOverflow),
        }
    }
}

/// Law: a valid ratio of a balance never exceeds the balance, and is never
/// negative. This is what lets a bet cap derived from the pool be debited
/// from the pool without underflow.
pub proof fn lemma_cap_le_pool(f: Fraction, amount: u128)
    requires
        f.valid(),
    ensures
        0 <= f.spec_mul(amount) <= amount,
{
    lemma_mul_inequality(f.num as int, f.den as int, amount as int);
    lemma_div_is_ordered(f.num * amount, f.den * amount, f.den as int);
    lemma_div_multiples_vanish(amount as int, f.den as int);
    lemma_div_pos_is_pos(f.num * amount, f.den as int);
}

/// Law: a valid ratio of a balance grows monotonically with the balance.
pub proof fn lemma_cap_monotonic(f: Fraction, a1: u128, a2: u128)
    requires
        f.valid(),
        a1 <= a2,
    ensures
        f.spec_mul(a1) <= f.spec_mul(a2),
{
    lemma_mul_inequality(a1 as int, a2 as int, f.num as int);
    lemma_div_is_ordered(f.num * a1, f.num * a2, f.den as int);
}

/// The outcome of one resolved bet.
#[derive(Clone, Copy, PartialEq, Eq, Structural, Debug)]
pub enum BetResult {
    Win,
    Lose,
}

/// The immutable record of one resolved bet, created at resolution time and
/// never mutated afterwards.
#[derive(Debug)]
pub struct Event {
    pub bettor: String,
    pub result: BetResult,
    pub bet: u128,
    pub timestamp: u64,
    pub block_height: u64,
}

impl Event {
    pub fn new(bettor: String, result: BetResult, bet: u128, timestamp: u64, block_height: u64) -> (e: Event)
        ensures
            e == (Event { bettor, result, bet, timestamp, block_height }),
    {
        Event { bettor, result, bet, timestamp, block_height }
    }
}

impl Clone for Event {
    fn clone(&self) -> (res: Event)
        ensures
            res == *self,
    {
        Event {
            bettor: self.bettor.clone(),
            result: self.result,
            bet: self.bet,
            timestamp: self.timestamp,
            block_height: self.block_height,
        }
    }
}

/// What the accept phase decided: either the whole deposit bounces back and
/// resolution never runs, or a stake was debited from the pool and any excess
/// over the cap is refunded up front.
#[derive(Clone, Copy, PartialEq, Eq, Structural, Debug)]
pub enum BetAccept {
    /// Nothing could be staked: the full deposit goes back to the bettor.
    Refunded { refund: u128 },
    /// `stake` was debited from the pool and resolution is owed;
    /// `refund` goes back to the bettor immediately.
    Accepted { stake: u128, refund: u128 },
}

/// What the resolve phase decided. `payout` is what the host must transfer
/// to the bettor out of contract funds.
#[derive(Clone, Debug)]
pub enum BetOutcome {
    /// The per-block entropy ran out: the live stake goes back to the bettor
    /// and no event is recorded.
    RefundedNoEntropy { refund: u128 },
    /// An entropy byte decided the bet. On a win `payout` is twice the stake;
    /// on a loss it is zero and the pool was credited instead.
    Resolved { payout: u128, event: Event },
}

} // verus!
