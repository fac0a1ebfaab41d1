//! The guarantees the registry gives across operations, each proved from the
//! operation contracts and the well-formedness invariant alone.

use vstd::prelude::*;

use crate::registry::count_status;
use crate::registry::entry_wf;
use crate::registry::initialize_post;
use crate::registry::lemma_count_partition;
use crate::registry::lemma_count_two;
use crate::registry::prediction_wf;
use crate::registry::verify_post;
use crate::registry::InitializeOracle;
use crate::registry::OracleRegistry;
use crate::registry::VerifyPrediction;
use crate::types::AlphaOracleError;
use crate::types::Identity;
use crate::types::PredictionStatus;
use crate::types::PredictionVerified;
use crate::types::MAX_NAME_LEN;

verus! {

/// For every oracle in a well-formed registry, `wins + losses` never exceeds
/// `total_predictions`. Since every operation both requires and re-establishes
/// well-formedness, this holds at all times.
pub proof fn lemma_oracle_counters_bounded(reg: OracleRegistry)
    requires
        reg.wf(),
    ensures
        forall|i: int|
            0 <= i < reg.entries@.len() ==> (#[trigger] reg.entries@[i]).oracle.wins
                + reg.entries@[i].oracle.losses <= reg.entries@[i].oracle.total_predictions,
{
    assert forall|i: int|
        0 <= i < reg.entries@.len() implies (#[trigger] reg.entries@[i]).oracle.wins
        + reg.entries@[i].oracle.losses <= reg.entries@[i].oracle.total_predictions by {
        assert(entry_wf(reg.entries@[i]));
        lemma_count_two(
            reg.entries@[i].predictions@,
            PredictionStatus::Won,
            PredictionStatus::Lost,
        );
    }
}

/// Once every prediction under an oracle has been settled, the bound is an
/// equality: `wins + losses == total_predictions`.
pub proof fn lemma_settled_oracle_counters_exact(reg: OracleRegistry, a: Identity)
    requires
        reg.wf(),
        reg.has_oracle(a),
        count_status(reg.predictions_of(a), PredictionStatus::Active) == 0,
    ensures
        reg.oracle_of(a).wins + reg.oracle_of(a).losses == reg.oracle_of(a).total_predictions,
{
    let i = reg.entry_index(a);
    assert(entry_wf(reg.entries@[i]));
    lemma_count_partition(reg.entries@[i].predictions@);
}

/// Sequence integrity: under any oracle of a well-formed registry, the
/// prediction with sequence number `k` sits at index `k`, so the ids of the
/// `N` stored predictions are exactly `0, 1, ..., N-1`, with no duplicates
/// and no gaps, and `N` equals the oracle's `total_predictions`.
pub proof fn lemma_sequence_integrity(reg: OracleRegistry, a: Identity)
    requires
        reg.wf(),
        reg.has_oracle(a),
    ensures
        reg.predictions_of(a).len() == reg.oracle_of(a).total_predictions,
        forall|k: int|
            0 <= k < reg.predictions_of(a).len() ==> (#[trigger] reg.predictions_of(
                a,
            )[k]).prediction_id == k,
{
    let i = reg.entry_index(a);
    assert(entry_wf(reg.entries@[i]));
    assert forall|k: int|
        0 <= k < reg.predictions_of(a).len() implies (#[trigger] reg.predictions_of(
        a,
    )[k]).prediction_id == k by {
        assert(prediction_wf(
            reg.entries@[i].oracle.authority,
            k,
            reg.entries@[i].predictions@[k],
        ));
    }
}

/// Idempotence of failure: after a settlement succeeds, every later
/// settlement attempt on the same prediction — by any verifier, with any
/// price, at any time — fails with `PredictionNotActive` and changes
/// nothing: the recorded result, settlement time, status and both oracle
/// counters all stay as the first settlement left them.
pub proof fn lemma_settled_prediction_stays_settled(
    s0: OracleRegistry,
    s1: OracleRegistry,
    s2: OracleRegistry,
    ctx1: VerifyPrediction,
    ctx2: VerifyPrediction,
    price1: u64,
    now1: i64,
    r1: Result<PredictionVerified, AlphaOracleError>,
    price2: u64,
    now2: i64,
    r2: Result<PredictionVerified, AlphaOracleError>,
)
    requires
        s0.wf(),
        verify_post(s0, s1, ctx1, price1, now1, r1),
        r1 is Ok,
        ctx2.oracle == ctx1.oracle,
        ctx2.prediction_id == ctx1.prediction_id,
        verify_post(s1, s2, ctx2, price2, now2, r2),
    ensures
        r2 == Result::<PredictionVerified, AlphaOracleError>::Err(
            AlphaOracleError::PredictionNotActive,
        ),
        s2 == s1,
{
    let a = ctx1.oracle;
    let i = s0.entry_index(a);
    let k = ctx1.prediction_id as int;
    assert(s1.entries@[i].oracle.authority == a);
    assert(s1.has_oracle(a));
    let j = s1.entry_index(a);
    assert(0 <= j < s1.entries@.len() && s1.entries@[j].oracle.authority == a);
    if j != i {
        assert(s1.entries@[i].oracle.authority != s1.entries@[j].oracle.authority);
    }
    assert(s1.predictions_of(a)[k].status != PredictionStatus::Active);
}

/// Temporal guard: a settlement attempt on an active prediction before its
/// expiry time fails with `PredictionNotExpired`, whatever the submitted
/// price, and changes nothing.
pub proof fn lemma_early_verify_rejected(
    s0: OracleRegistry,
    s1: OracleRegistry,
    ctx: VerifyPrediction,
    price: u64,
    now: i64,
    r: Result<PredictionVerified, AlphaOracleError>,
)
    requires
        s0.wf(),
        s0.has_oracle(ctx.oracle),
        ctx.prediction_id < s0.predictions_of(ctx.oracle).len(),
        s0.predictions_of(ctx.oracle)[ctx.prediction_id as int].status
            == PredictionStatus::Active,
        now < s0.predictions_of(ctx.oracle)[ctx.prediction_id as int].expires_at,
        verify_post(s0, s1, ctx, price, now, r),
    ensures
        r == Result::<PredictionVerified, AlphaOracleError>::Err(
            AlphaOracleError::PredictionNotExpired,
        ),
        s1 == s0,
{
}

/// Duplicate-registration guard: after an identity has registered an oracle,
/// a second registration by the same identity always fails and changes
/// nothing — the first oracle's fields survive untouched. When the second
/// name fits the length bound, the error is `OracleAlreadyExists` (an
/// over-long name is rejected as `NameTooLong` instead, still changing
/// nothing).
pub proof fn lemma_duplicate_initialize_rejected(
    s0: OracleRegistry,
    s1: OracleRegistry,
    s2: OracleRegistry,
    ctx1: InitializeOracle,
    ctx2: InitializeOracle,
    name1: String,
    now1: i64,
    r1: Result<(), AlphaOracleError>,
    name2: String,
    now2: i64,
    r2: Result<(), AlphaOracleError>,
)
    requires
        s0.wf(),
        initialize_post(s0, s1, ctx1, name1, now1, r1),
        r1 is Ok,
        ctx2.authority == ctx1.authority,
        initialize_post(s1, s2, ctx2, name2, now2, r2),
    ensures
        r2 is Err,
        s2 == s1,
        s2.oracle_of(ctx1.authority) == s1.oracle_of(ctx1.authority),
        name2@.len() <= MAX_NAME_LEN ==> r2 == Result::<(), AlphaOracleError>::Err(
            AlphaOracleError::OracleAlreadyExists,
        ),
{
    let a = ctx1.authority;
    let n = s1.entries@.len() as int;
    assert(s1.entries@[n - 1].oracle.authority == a);
    assert(s1.has_oracle(a));
}

} // verus!
