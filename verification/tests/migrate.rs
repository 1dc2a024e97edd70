use simple_bet::migrate::{Contract0, Fraction0, StoredState};
use simple_bet::types::{BetError, Fraction};
use simple_bet::Contract;

const NEAR: u128 = 1_000_000_000_000_000_000_000_000;

fn legacy(pool: u128) -> Contract0 {
    Contract0 {
        pool,
        max_bet_ratio: Fraction0 { num: 10, den: 100 },
        winning_proba: Fraction0 { num: 128, den: 256 },
        last_block: 4,
        seed: vec![1, 2, 3],
    }
}

#[test]
fn test_migrate() {
    let c = Contract::migrate_state(StoredState::Legacy(legacy(NEAR)), true, 9, vec![7]).unwrap();
    assert_eq!(c.pool(), NEAR);
}

#[test]
fn migration_wraps_prior_schema() {
    let c = Contract::migrate_state(StoredState::Legacy(legacy(100)), true, 9, vec![7]).unwrap();
    assert_eq!(c.pool(), 100);
    assert_eq!(c.max_bet_ratio(), Fraction { num: 10, den: 100 });
    assert_eq!(c.winning_proba(), Fraction { num: 128, den: 256 });
    assert_eq!(c.events().len(), 0);
}

#[test]
fn migration_is_one_shot() {
    let c = Contract::migrate_state(StoredState::Legacy(legacy(100)), true, 9, vec![7]).unwrap();
    // running migration again on the already-current state must fail
    assert_eq!(
        Contract::migrate_state(StoredState::Current(c), true, 10, vec![8]).unwrap_err(),
        BetError::AlreadyMigrated
    );
}

#[test]
fn migration_revalidates_fractions() {
    let mut bad = legacy(100);
    bad.max_bet_ratio = Fraction0 { num: 0, den: 100 };
    assert_eq!(
        Contract::migrate_state(StoredState::Legacy(bad), true, 9, vec![]).unwrap_err(),
        BetError::InvalidMaxBetRatio
    );
    let mut bad = legacy(100);
    bad.winning_proba = Fraction0 { num: 128, den: 512 };
    assert_eq!(
        Contract::migrate_state(StoredState::Legacy(bad), true, 9, vec![]).unwrap_err(),
        BetError::WrongProbaDenominator
    );
}

#[test]
fn fraction_conversion_keeps_the_ratio() {
    let f = Fraction::from(Fraction0 { num: 3, den: 7 });
    assert_eq!(f, Fraction { num: 3, den: 7 });
}
