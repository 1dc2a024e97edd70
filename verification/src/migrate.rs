//! One-shot migration from the prior persisted schema to the current one.
//!
//! The prior schema stored bare integers for the two ratios and kept no event
//! history. Migration revalidates both ratios through the same rules as fresh
//! initialization, carries the pool balance over unchanged, and starts with an
//! empty event ledger. It is one-directional and fails closed: a state already
//! in the current schema is refused rather than re-wrapped.

use vstd::prelude::*;

use crate::types::{BetError, Fraction};
use crate::Contract;

verus! {

/// A rational number as the prior schema persisted it: bare integers.
#[derive(Clone, Copy, PartialEq, Eq, Structural, Debug)]
pub struct Fraction0 {
    pub num: u128,
    pub den: u128,
}

impl Fraction0 {
    /// The same rational in the current representation.
    pub open spec fn as_fraction(self) -> Fraction {
        Fraction { num: self.num, den: self.den }
    }
}

impl From<Fraction0> for Fraction {
    fn from(f: Fraction0) -> (r: Fraction) {
        Fraction { num: f.num, den: f.den }
    }
}

impl vstd::std_specs::convert::FromSpecImpl<Fraction0> for Fraction {
    open spec fn obeys_from_spec() -> bool {
        true
    }

    open spec fn from_spec(f: Fraction0) -> Fraction {
        f.as_fraction()
    }
}

/// The whole contract state as the prior schema persisted it: no event
/// ledger, and bare-integer fractions.
#[derive(Clone, Debug)]
pub struct Contract0 {
    pub pool: u128,
    pub max_bet_ratio: Fraction0,
    pub winning_proba: Fraction0,
    pub last_block: u64,
    pub seed: Vec<u8>,
}

/// What the host found persisted, tagged by schema. The two schemas are
/// structurally distinguishable, so migration can refuse to run twice.
pub enum StoredState {
    Legacy(Contract0),
    Current(Contract),
}

impl Contract {
    /// Converts a legacy snapshot into current-schema state: both ratios are
    /// revalidated exactly as at fresh initialization, the pool balance is
    /// carried over unchanged, the entropy cache is taken from the current
    /// block, and the event ledger starts empty. A state already in the
    /// current schema is refused. Privileged: the host must have verified
    /// the caller before supplying `authorized`.
    pub fn migrate_state(state: StoredState, authorized: bool, block_height: u64, seed: Vec<u8>) -> (r: Result<Contract, BetError>)
        requires
            authorized,
        ensures
            state is Current ==> r == Err::<Contract, BetError>(BetError::AlreadyMigrated),
            state is Legacy ==> ({
                let c0 = state->Legacy_0;
                let ratio = c0.max_bet_ratio.as_fraction();
                let proba = c0.winning_proba.as_fraction();
                &&& (r is Ok <==> ratio.valid() && proba.proba_valid())
                &&& (r is Ok ==> ({
                    let c = r->Ok_0;
                    &&& c.wf()
                    &&& c.pool == c0.pool
                    &&& c.max_bet_ratio == ratio
                    &&& c.winning_proba == proba
                    &&& c.last_block == block_height
                    &&& c.seed == seed
                    &&& c.last_events@.len() == 0
                }))
                &&& (!ratio.valid() ==> r == Err::<Contract, BetError>(BetError::InvalidMaxBetRatio))
                &&& (ratio.valid() && !proba.valid() ==> r == Err::<Contract, BetError>(BetError::InvalidWinningProba))
                &&& (ratio.valid() && proba.valid() && proba.den != 256 ==> r == Err::<Contract, BetError>(BetError::WrongProbaDenominator))
            }),
    {
        match state {
            StoredState::Current(_) => Err(BetError::AlreadyMigrated),
            StoredState::Legacy(c0) => {
                match Contract::init(Fraction::from(c0.max_bet_ratio), Fraction::from(c0.winning_proba), block_height, seed) {
                    Err(e) => Err(e),
                    Ok(mut c) => {
                        c.pool = c0.pool;
                        Ok(c)
                    },
                }
            },
        }
    }
}

} // verus!
