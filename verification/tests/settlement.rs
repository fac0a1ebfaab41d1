use alpha_oracle::registry::CreatePrediction;
use alpha_oracle::registry::InitializeOracle;
use alpha_oracle::registry::OracleRegistry;
use alpha_oracle::registry::VerifyPrediction;
use alpha_oracle::settle::is_win;
use alpha_oracle::types::AlphaOracleError;
use alpha_oracle::types::Direction;
use alpha_oracle::types::PredictionStatus;

const ALICE: u64 = 7;
const ANYONE: u64 = 42;

const CREATED: i64 = 1000;
const TIMEFRAME_HOURS: u16 = 1;
const EXPIRES: i64 = CREATED + 3600;

/// Registers an oracle, creates one prediction and settles it at
/// `result_price` after expiry; returns the final status.
fn settle_once(
    direction: Direction,
    entry_price: u64,
    take_profit: u64,
    stop_loss: u64,
    result_price: u64,
) -> PredictionStatus {
    let mut reg = OracleRegistry::new();
    reg.initialize_oracle(InitializeOracle { authority: ALICE }, String::from("alpha"), 0).unwrap();
    reg.create_prediction(
        CreatePrediction { oracle: ALICE, authority: ALICE },
        String::from("BTC"),
        direction,
        entry_price,
        take_profit,
        stop_loss,
        TIMEFRAME_HOURS,
        CREATED,
    )
    .unwrap();
    let ctx = VerifyPrediction { oracle: ALICE, prediction_id: 0, verifier: ANYONE };
    let event = reg.verify_prediction(ctx, result_price, EXPIRES).unwrap();
    assert_eq!(event.oracle, ALICE);
    assert_eq!(event.prediction_id, 0);
    assert_eq!(event.result_price, result_price);
    let p = reg.get_prediction(ALICE, 0).unwrap();
    assert_eq!(p.status, event.status);
    assert_eq!(p.result_price, result_price);
    assert_eq!(p.verified_at, EXPIRES);
    let o = reg.get_oracle(ALICE).unwrap();
    match event.status {
        PredictionStatus::Won => assert_eq!((o.wins, o.losses), (1, 0)),
        PredictionStatus::Lost => assert_eq!((o.wins, o.losses), (0, 1)),
        _ => panic!("settlement must end in Won or Lost"),
    }
    event.status
}

#[test]
fn long_reaching_take_profit_wins() {
    assert_eq!(settle_once(Direction::Long, 100, 120, 90, 125), PredictionStatus::Won);
    assert!(is_win(Direction::Long, 100, 120, 90, 125));
}

#[test]
fn long_above_entry_and_stop_loss_wins() {
    assert_eq!(settle_once(Direction::Long, 100, 120, 90, 110), PredictionStatus::Won);
    assert!(is_win(Direction::Long, 100, 120, 90, 110));
}

#[test]
fn long_below_entry_loses() {
    assert_eq!(settle_once(Direction::Long, 100, 120, 90, 85), PredictionStatus::Lost);
    assert!(!is_win(Direction::Long, 100, 120, 90, 85));
}

#[test]
fn long_exactly_at_entry_loses() {
    assert_eq!(settle_once(Direction::Long, 100, 120, 90, 100), PredictionStatus::Lost);
    assert!(!is_win(Direction::Long, 100, 120, 90, 100));
}

#[test]
fn short_reaching_take_profit_wins() {
    assert_eq!(settle_once(Direction::Short, 100, 80, 110, 75), PredictionStatus::Won);
    assert!(is_win(Direction::Short, 100, 80, 110, 75));
}

#[test]
fn short_below_entry_and_stop_loss_wins() {
    assert_eq!(settle_once(Direction::Short, 100, 80, 110, 90), PredictionStatus::Won);
    assert!(is_win(Direction::Short, 100, 80, 110, 90));
}

#[test]
fn short_above_entry_loses() {
    assert_eq!(settle_once(Direction::Short, 100, 80, 110, 115), PredictionStatus::Lost);
    assert!(!is_win(Direction::Short, 100, 80, 110, 115));
}

fn registry_with_active_prediction() -> OracleRegistry {
    let mut reg = OracleRegistry::new();
    reg.initialize_oracle(InitializeOracle { authority: ALICE }, String::from("alpha"), 0).unwrap();
    reg.create_prediction(
        CreatePrediction { oracle: ALICE, authority: ALICE },
        String::from("BTC"),
        Direction::Long,
        100,
        120,
        90,
        TIMEFRAME_HOURS,
        CREATED,
    )
    .unwrap();
    reg
}

#[test]
fn verify_before_expiry_fails_and_mutates_nothing() {
    let mut reg = registry_with_active_prediction();
    let ctx = VerifyPrediction { oracle: ALICE, prediction_id: 0, verifier: ANYONE };
    let r = reg.verify_prediction(ctx, 125, EXPIRES - 1);
    assert_eq!(r, Err(AlphaOracleError::PredictionNotExpired));
    let p = reg.get_prediction(ALICE, 0).unwrap();
    assert_eq!(p.status, PredictionStatus::Active);
    assert_eq!(p.result_price, 0);
    assert_eq!(p.verified_at, 0);
    let o = reg.get_oracle(ALICE).unwrap();
    assert_eq!((o.wins, o.losses), (0, 0));
}

#[test]
fn verify_exactly_at_expiry_succeeds() {
    let mut reg = registry_with_active_prediction();
    let ctx = VerifyPrediction { oracle: ALICE, prediction_id: 0, verifier: ANYONE };
    let r = reg.verify_prediction(ctx, 125, EXPIRES);
    assert!(r.is_ok());
}

#[test]
fn second_verify_fails_and_leaves_settlement_unchanged() {
    let mut reg = registry_with_active_prediction();
    let ctx = VerifyPrediction { oracle: ALICE, prediction_id: 0, verifier: ANYONE };
    reg.verify_prediction(ctx, 125, EXPIRES).unwrap();
    let before_p = reg.get_prediction(ALICE, 0).unwrap().clone();
    let before_o = reg.get_oracle(ALICE).unwrap().clone();
    let ctx2 = VerifyPrediction { oracle: ALICE, prediction_id: 0, verifier: ALICE };
    let r2 = reg.verify_prediction(ctx2, 1, EXPIRES + 9999);
    assert_eq!(r2, Err(AlphaOracleError::PredictionNotActive));
    assert_eq!(*reg.get_prediction(ALICE, 0).unwrap(), before_p);
    assert_eq!(*reg.get_oracle(ALICE).unwrap(), before_o);
}

#[test]
fn verify_is_permissionless() {
    let mut reg = registry_with_active_prediction();
    let stranger = 999_999;
    let ctx = VerifyPrediction { oracle: ALICE, prediction_id: 0, verifier: stranger };
    assert!(reg.verify_prediction(ctx, 125, EXPIRES).is_ok());
}

#[test]
fn verify_missing_oracle_or_prediction_fails() {
    let mut reg = registry_with_active_prediction();
    let r1 = reg.verify_prediction(
        VerifyPrediction { oracle: ANYONE, prediction_id: 0, verifier: ANYONE },
        125,
        EXPIRES,
    );
    assert_eq!(r1, Err(AlphaOracleError::OracleNotFound));
    let r2 = reg.verify_prediction(
        VerifyPrediction { oracle: ALICE, prediction_id: 1, verifier: ANYONE },
        125,
        EXPIRES,
    );
    assert_eq!(r2, Err(AlphaOracleError::PredictionNotFound));
}

#[test]
fn counters_stay_bounded_by_total_over_mixed_settlements() {
    let mut reg = OracleRegistry::new();
    reg.initialize_oracle(InitializeOracle { authority: ALICE }, String::from("alpha"), 0).unwrap();
    for _ in 0..4 {
        reg.create_prediction(
            CreatePrediction { oracle: ALICE, authority: ALICE },
            String::from("BTC"),
            Direction::Long,
            100,
            120,
            90,
            TIMEFRAME_HOURS,
            CREATED,
        )
        .unwrap();
    }
    // Settle two of the four: one win (125), one loss (85).
    reg.verify_prediction(
        VerifyPrediction { oracle: ALICE, prediction_id: 0, verifier: ANYONE },
        125,
        EXPIRES,
    )
    .unwrap();
    reg.verify_prediction(
        VerifyPrediction { oracle: ALICE, prediction_id: 2, verifier: ANYONE },
        85,
        EXPIRES,
    )
    .unwrap();
    let o = reg.get_oracle(ALICE).unwrap();
    assert_eq!(o.total_predictions, 4);
    assert_eq!((o.wins, o.losses), (1, 1));
    assert!(o.wins + o.losses <= o.total_predictions);
    // Settle the remaining two; the bound becomes an equality.
    reg.verify_prediction(
        VerifyPrediction { oracle: ALICE, prediction_id: 1, verifier: ANYONE },
        125,
        EXPIRES,
    )
    .unwrap();
    reg.verify_prediction(
        VerifyPrediction { oracle: ALICE, prediction_id: 3, verifier: ANYONE },
        85,
        EXPIRES,
    )
    .unwrap();
    let o = reg.get_oracle(ALICE).unwrap();
    assert_eq!((o.wins, o.losses), (2, 2));
    assert_eq!(o.wins + o.losses, o.total_predictions);
}
