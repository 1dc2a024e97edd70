//! A single-contract betting ledger. It custodies a pool of value, accepts
//! bets bounded by a configurable fraction of the pool, resolves them with
//! per-block entropy bytes, and keeps a bounded history of resolved bets.
//!
//! The library is the decision logic alone: every amount, identity, block
//! height and entropy byte comes in as a plain value, and every transfer the
//! host must make goes out as a plain value. The host's identity model, call
//! gating, value transfers and serialization live outside.

use vstd::prelude::*;

pub mod migrate;
pub mod types;

use types::{BetAccept, BetError, BetOutcome, BetResult, Event};
use types::{lemma_cap_le_pool, Fraction};

verus! {

/// How many resolved bets the event ledger retains.
pub const KEEP_EVENTS: usize = 32;

/// The whole contract state: the pool balance, the two configured ratios,
/// the per-block entropy cache and the bounded event ledger.
#[derive(Debug)]
pub struct Contract {
    pub pool: u128,
    pub max_bet_ratio: Fraction,
    pub winning_proba: Fraction,
    pub last_block: u64,
    pub seed: Vec<u8>,
    pub last_events: Vec<Event>,
}

/// How the event ledger grows: append at the end, and once full evict the
/// oldest entry (index 0) so the length never exceeds `KEEP_EVENTS`.
pub open spec fn ledger_push(events: Seq<Event>, e: Event) -> Seq<Event> {
    if events.len() < KEEP_EVENTS {
        events.push(e)
    } else {
        events.subrange(1, events.len() as int).push(e)
    }
}

impl Contract {
    /// The state invariant: both configured fractions are valid, the winning
    /// probability is in 256ths, and the event ledger is within capacity.
    pub open spec fn wf(self) -> bool {
        &&& self.max_bet_ratio.valid()
        &&& self.winning_proba.proba_valid()
        &&& self.last_events@.len() <= KEEP_EVENTS
    }

    /// The most a single bet may currently draw: `max_bet_ratio` of the pool.
    pub open spec fn spec_cap(self) -> int {
        self.max_bet_ratio.spec_mul(self.pool)
    }

    /// Fresh state: an empty pool, the two validated ratios, and the entropy
    /// bytes of the current block. Rejects any ratio outside (0, 1] and any
    /// winning probability not expressed in 256ths, in that order.
    pub fn init(max_bet_ratio: Fraction, winning_proba: Fraction, block_height: u64, seed: Vec<u8>) -> (r: Result<Contract, BetError>)
        ensures
            r is Ok <==> max_bet_ratio.valid() && winning_proba.proba_valid(),
            r is Ok ==> ({
                let c = r->Ok_0;
                &&& c.wf()
                &&& c.pool == 0
                &&& c.max_bet_ratio == max_bet_ratio
                &&& c.winning_proba == winning_proba
                &&& c.last_block == block_height
                &&& c.seed == seed
                &&& c.last_events@.len() == 0
            }),
            !max_bet_ratio.valid() ==> r == Err::<Contract, BetError>(BetError::InvalidMaxBetRatio),
            max_bet_ratio.valid() && !winning_proba.valid() ==> r == Err::<Contract, BetError>(BetError::InvalidWinningProba),
            max_bet_ratio.valid() && winning_proba.valid() && winning_proba.den != 256 ==> r == Err::<Contract, BetError>(BetError::WrongProbaDenominator),
    {
        if !max_bet_ratio.is_valid() {
            return Err(BetError::InvalidMaxBetRatio);
        }
        if !winning_proba.is_valid() {
            return Err(BetError::InvalidWinningProba);
        }
        if winning_proba.den != 256 {
            return Err(BetError::WrongProbaDenominator);
        }
        Ok(Contract {
            pool: 0,
            max_bet_ratio,
            winning_proba,
            last_block: block_height,
            seed,
            last_events: Vec::new(),
        })
    }

    /// The current pool balance.
    pub fn pool(&self) -> (r: u128)
        ensures
            r == self.pool,
    {
        self.pool
    }

    /// The configured max-bet ratio.
    pub fn max_bet_ratio(&self) -> (r: Fraction)
        ensures
            r == self.max_bet_ratio,
    {
        self.max_bet_ratio
    }

    /// The configured winning probability.
    pub fn winning_proba(&self) -> (r: Fraction)
        ensures
            r == self.winning_proba,
    {
        self.winning_proba
    }

    /// A snapshot of the event ledger, oldest first, most recent last.
    pub fn events(&self) -> (r: Vec<Event>)
        ensures
            r@ == self.last_events@,
    {
        let r = self.last_events.clone();
        proof {
            assert(r@ =~= self.last_events@);
        }
        r
    }

    /// Replaces the max-bet ratio after revalidating it. Privileged: the host
    /// must have verified the caller before supplying `authorized`.
    pub fn set_max_bet_ratio(&mut self, max_bet_ratio: Fraction, authorized: bool) -> (r: Result<(), BetError>)
        requires
            authorized,
        ensures
            old(self).wf() ==> final(self).wf(),
            r is Ok <==> max_bet_ratio.valid(),
            r is Ok ==> *final(self) == (Contract { max_bet_ratio, ..*old(self) }),
            r is Err ==> *final(self) == *old(self) && r == Err::<(), BetError>(BetError::InvalidMaxBetRatio),
    {
        if !max_bet_ratio.is_valid() {
            return Err(BetError::InvalidMaxBetRatio);
        }
        self.max_bet_ratio = max_bet_ratio;
        Ok(())
    }

    /// Replaces the winning probability after revalidating it, including the
    /// demand that it be expressed in 256ths. Privileged as above.
    pub fn set_winning_proba(&mut self, winning_proba: Fraction, authorized: bool) -> (r: Result<(), BetError>)
        requires
            authorized,
        ensures
            old(self).wf() ==> final(self).wf(),
            r is Ok <==> winning_proba.proba_valid(),
            r is Ok ==> *final(self) == (Contract { winning_proba, ..*old(self) }),
            r is Err ==> *final(self) == *old(self),
            !winning_proba.valid() ==> r == Err::<(), BetError>(BetError::InvalidWinningProba),
            winning_proba.valid() && winning_proba.den != 256 ==> r == Err::<(), BetError>(BetError::WrongProbaDenominator),
    {
        if !winning_proba.is_valid() {
            return Err(BetError::InvalidWinningProba);
        }
        if winning_proba.den != 256 {
            return Err(BetError::WrongProbaDenominator);
        }
        self.winning_proba = winning_proba;
        Ok(())
    }

    /// Credits the pool with an attached amount.
    pub fn top_up(&mut self, amount: u128)
        requires
            old(self).pool + amount <= u128::MAX,
        ensures
            old(self).wf() ==> final(self).wf(),
            *final(self) == (Contract { pool: (old(self).pool + amount) as u128, ..*old(self) }),
    {
        self.pool = self.pool + amount;
    }

    /// The accept phase. The cap is `max_bet_ratio` of the current pool;
    /// `min(deposit, cap)` is staked and the rest refunded up front. A zero
    /// stake (an empty pool, a zero cap or a zero deposit) bounces the whole
    /// deposit and leaves the state untouched; otherwise the stake is debited
    /// from the pool and resolution is owed. Fails closed, with the state
    /// untouched, if the cap product overflows 128 bits.
    pub fn bet(&mut self, deposit: u128) -> (r: Result<BetAccept, BetError>)
        requires
            old(self).wf(),
        ensures
            final(self).wf(),
            r is Err <==> old(self).max_bet_ratio.num * old(self).pool > u128::MAX,
            r is Err ==> r == Err::<BetAccept, BetError>(BetError::ArithmeticOverflow) && *final(self) == *old(self),
            r is Ok ==> ({
                let cap = old(self).spec_cap();
                let accepted: int = if deposit <= cap { deposit as int } else { cap };
                let refund = deposit - accepted;
                &&& 0 <= cap <= old(self).pool
                &&& accepted <= cap
                &&& accepted + refund == deposit
                &&& (accepted == 0 ==> r->Ok_0 == (BetAccept::Refunded { refund: deposit }) && *final(self) == *old(self))
                &&& (accepted > 0 ==> r->Ok_0 == (BetAccept::Accepted {
                        stake: accepted as u128,
                        refund: refund as u128,
                    }) && *final(self) == (Contract { pool: (old(self).pool - accepted) as u128, ..*old(self) }))
            }),
            (deposit == 0 || old(self).pool == 0) && r is Ok ==> r->Ok_0 == (BetAccept::Refunded { refund: deposit }) && *final(self) == *old(self),
    {
        let cap = match self.max_bet_ratio.mul(self.pool) {
            Ok(cap) => cap,
            Err(e) => {
                return Err(e);
            },
        };
        proof {
            lemma_cap_le_pool(self.max_bet_ratio, self.pool);
        }
        let current_bet = if deposit <= cap { deposit } else { cap };
        let refund = deposit - current_bet;
        if current_bet == 0 {
            return Ok(BetAccept::Refunded { refund });
        }
        self.pool = self.pool - current_bet;
        Ok(BetAccept::Accepted { stake: current_bet, refund })
    }

    /// The entropy cache's refresh rule: when the observed block height
    /// differs from the one the cache was filled at, the whole byte sequence
    /// is replaced by the current block's entropy; within one block it is
    /// left alone so several resolutions can draw from it.
    pub fn ensure_fresh(&mut self, current_block: u64, fresh: Vec<u8>)
        ensures
            old(self).wf() ==> final(self).wf(),
            final(self).last_block == current_block,
            final(self).seed@ == (if current_block != old(self).last_block {
                fresh@
            } else {
                old(self).seed@
            }),
            final(self).pool == old(self).pool,
            final(self).max_bet_ratio == old(self).max_bet_ratio,
            final(self).winning_proba == old(self).winning_proba,
            final(self).last_events == old(self).last_events,
    {
        if current_block != self.last_block {
            self.seed = fresh;
            self.last_block = current_block;
        }
    }

    /// Consumes one entropy byte, last first. An empty cache is a defined
    /// failure path: `None`, with the state untouched.
    pub fn take_byte(&mut self) -> (r: Option<u8>)
        ensures
            old(self).wf() ==> final(self).wf(),
            *final(self) == (Contract { seed: final(self).seed, ..*old(self) }),
            old(self).seed@.len() == 0 ==> r is None && final(self).seed@ == old(self).seed@,
            old(self).seed@.len() > 0 ==> {
                &&& r == Some(old(self).seed@.last())
                &&& final(self).seed@ == old(self).seed@.drop_last()
            },
    {
        let r = self.seed.pop();
        proof {
            if old(self).seed@.len() > 0 {
                assert(final(self).seed@ =~= old(self).seed@.drop_last());
            }
        }
        r
    }

    /// Appends one event to the ledger, evicting the oldest entry first when
    /// the ledger is full, so the length never exceeds `KEEP_EVENTS`.
    pub fn record_event(&mut self, event: Event)
        requires
            old(self).last_events@.len() <= KEEP_EVENTS,
        ensures
            old(self).wf() ==> final(self).wf(),
            final(self).last_events@ == ledger_push(old(self).last_events@, event),
            final(self).last_events@.len() <= KEEP_EVENTS,
            final(self).last_events@.len() > 0 && final(self).last_events@.last() == event,
            *final(self) == (Contract { last_events: final(self).last_events, ..*old(self) }),
    {
        self.last_events.push(event);
        if self.last_events.len() > KEEP_EVENTS {
            self.last_events.remove(0);
            proof {
                assert(final(self).last_events@ =~= ledger_push(old(self).last_events@, event));
            }
        }
    }

    /// The resolve phase, owed for every accepted stake. Refreshes the
    /// entropy cache for the observed block, then consumes one byte `b`.
    /// An exhausted cache refunds exactly the live stake, records nothing,
    /// and leaves the pool as the accept phase left it. Otherwise
    /// `b < winning_proba.num` wins: the host pays the bettor twice the
    /// stake and the pool is untouched; `b >= winning_proba.num` loses: the
    /// pool is credited with twice the stake. Every decided outcome is
    /// recorded in the event ledger.
    pub fn do_bet(&mut self, bet: u128, bettor: String, block_height: u64, fresh_seed: Vec<u8>, timestamp: u64) -> (r: BetOutcome)
        requires
            old(self).wf(),
            old(self).pool + 2 * bet <= u128::MAX,
        ensures
            final(self).wf(),
            final(self).max_bet_ratio == old(self).max_bet_ratio,
            final(self).winning_proba == old(self).winning_proba,
            final(self).last_block == block_height,
            ({
                let entropy = if block_height != old(self).last_block {
                    fresh_seed@
                } else {
                    old(self).seed@
                };
                if entropy.len() == 0 {
                    &&& r == (BetOutcome::RefundedNoEntropy { refund: bet })
                    &&& final(self).pool == old(self).pool
                    &&& final(self).last_events == old(self).last_events
                    &&& final(self).seed@ == entropy
                } else {
                    let byte = entropy.last();
                    let result = if byte < old(self).winning_proba.num {
                        BetResult::Win
                    } else {
                        BetResult::Lose
                    };
                    let event = Event { bettor, result, bet, timestamp, block_height };
                    &&& final(self).seed@ == entropy.drop_last()
                    &&& final(self).last_events@ == ledger_push(old(self).last_events@, event)
                    &&& (result == BetResult::Win ==> r == (BetOutcome::Resolved {
                            payout: (2 * bet) as u128,
                            event,
                        }) && final(self).pool == old(self).pool)
                    &&& (result == BetResult::Lose ==> r == (BetOutcome::Resolved { payout: 0, event })
                            && final(self).pool == old(self).pool + 2 * bet)
                }
            }),
    {
        self.ensure_fresh(block_height, fresh_seed);
        match self.take_byte() {
            None => BetOutcome::RefundedNoEntropy { refund: bet },
            Some(byte) => {
                let result = if (byte as u128) < self.winning_proba.num {
                    BetResult::Win
                } else {
                    BetResult::Lose
                };
                let payout: u128 = if result == BetResult::Win {
                    2 * bet
                } else {
                    self.pool = self.pool + 2 * bet;
                    0
                };
                let event = Event::new(bettor, result, bet, timestamp, block_height);
                self.record_event(event.clone());
                BetOutcome::Resolved { payout, event }
            },
        }
    }
}

/// Law: recording keeps chronological order and evicts only the oldest.
/// While the ledger is short the new event is simply appended; once it holds
/// `KEEP_EVENTS` entries, exactly the oldest disappears, every other entry
/// keeps its order, and the new event stands last.
pub proof fn lemma_ledger_push_retains_order(events: Seq<Event>, e: Event)
    requires
        events.len() <= KEEP_EVENTS,
    ensures
        ({
            let after = ledger_push(events, e);
            let evicted: int = if events.len() < KEEP_EVENTS { 0 } else { 1 };
            &&& after.len() == events.len() + 1 - evicted
            &&& after.len() <= KEEP_EVENTS
            &&& after.last() == e
            &&& forall|i: int| 0 <= i < after.len() - 1 ==> after[i] == events[i + evicted]
        }),
{
}

/// Law: the pool across one full accept-then-resolve cycle. Accept debits
/// the stake; a winning resolve leaves the pool alone, so the cycle lowers
/// it by the stake; a losing resolve credits twice the stake, so the cycle
/// raises it by the stake.
pub proof fn lemma_net_pool_effect(pool_before: int, stake: int, pool_mid: int, pool_after_win: int, pool_after_lose: int)
    requires
        pool_mid == pool_before - stake,
        pool_after_win == pool_mid,
        pool_after_lose == pool_mid + 2 * stake,
    ensures
        pool_after_win == pool_before - stake,
        pool_after_lose == pool_before + stake,
{
}

} // verus!
