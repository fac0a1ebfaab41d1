//! The registry: one record per identity, predictions beneath each oracle,
//! and the three operations of the lifecycle.
//!
//! Durable storage addresses records deterministically (one oracle per
//! identity, one prediction per sequence number) and applies each operation
//! atomically; the registry models that as a keyed index with an explicit
//! create-if-absent / fail-if-present discipline. Competing calls are
//! serialized by the host, so each operation here sees and leaves a
//! well-formed state.

use vstd::prelude::*;

use crate::settle::is_win;
use crate::settle::spec_is_win;
use crate::types::AlphaOracleError;
use crate::types::Direction;
use crate::types::Identity;
use crate::types::MAX_ASSET_LEN;
use crate::types::MAX_NAME_LEN;
use crate::types::Oracle;
use crate::types::Prediction;
use crate::types::PredictionCreated;
use crate::types::PredictionStatus;
use crate::types::PredictionVerified;
use crate::types::SECONDS_PER_HOUR;

verus! {

/// The records a registration call addresses: the slot derived from the
/// caller's identity, which is also the signer.
pub struct InitializeOracle {
    /// The registering identity; it signs the call and owns the new oracle.
    pub authority: Identity,
}

/// The records a creation call addresses, plus the signer.
pub struct CreatePrediction {
    /// The identity whose oracle the prediction goes under.
    pub oracle: Identity,
    /// The signing identity; must be the oracle's authority.
    pub authority: Identity,
}

/// The records a settlement call addresses, plus the signer. Settlement is
/// deliberately permissionless: `verifier` may be any identity, so a
/// non-responsive authority cannot block resolution.
pub struct VerifyPrediction {
    /// The identity whose oracle owns the prediction.
    pub oracle: Identity,
    /// The sequence number of the prediction to settle.
    pub prediction_id: u64,
    /// The signing identity; unrestricted by design.
    pub verifier: Identity,
}

/// One oracle together with the predictions created under it, the prediction
/// with sequence number `k` at index `k`.
pub struct OracleEntry {
    pub oracle: Oracle,
    pub predictions: Vec<Prediction>,
}

/// The whole store: every registered oracle, keyed by its authority.
pub struct OracleRegistry {
    pub entries: Vec<OracleEntry>,
}

/// How many predictions in `s` have status `st`.
pub open spec fn count_status(s: Seq<Prediction>, st: PredictionStatus) -> nat
    decreases s.len(),
{
    if s.len() == 0 {
        0
    } else {
        count_status(s.drop_last(), st) + if s.last().status == st {
            1nat
        } else {
            0nat
        }
    }
}

/// Pushing one prediction raises the count of its own status by one and
/// leaves every other count unchanged.
pub(crate) proof fn lemma_count_push(s: Seq<Prediction>, p: Prediction, st: PredictionStatus)
    ensures
        count_status(s.push(p), st) == count_status(s, st) + if p.status == st {
            1int
        } else {
            0int
        },
{
    assert(s.push(p).drop_last() =~= s);
}

/// Replacing the prediction at `k` moves one unit of count from the old
/// status to the new one.
pub(crate) proof fn lemma_count_update(
    s: Seq<Prediction>,
    k: int,
    p: Prediction,
    st: PredictionStatus,
)
    requires
        0 <= k < s.len(),
    ensures
        count_status(s.update(k, p), st) == count_status(s, st) + (if p.status == st {
            1int
        } else {
            0int
        }) - (if s[k].status == st {
            1int
        } else {
            0int
        }),
    decreases s.len(),
{
    let t = s.update(k, p);
    if k == s.len() - 1 {
        assert(t.drop_last() =~= s.drop_last());
    } else {
        assert(t.drop_last() =~= s.drop_last().update(k, p));
        lemma_count_update(s.drop_last(), k, p, st);
        assert(t.last() == s.last());
    }
}

/// The counts of two different statuses together never exceed the length.
pub(crate) proof fn lemma_count_two(
    s: Seq<Prediction>,
    st1: PredictionStatus,
    st2: PredictionStatus,
)
    requires
        st1 != st2,
    ensures
        count_status(s, st1) + count_status(s, st2) <= s.len(),
    decreases s.len(),
{
    if s.len() > 0 {
        lemma_count_two(s.drop_last(), st1, st2);
    }
}

/// With no unreachable `Expired` entries, the three reachable statuses
/// partition the sequence.
pub(crate) proof fn lemma_count_partition(s: Seq<Prediction>)
    requires
        forall|k: int| 0 <= k < s.len() ==> (#[trigger] s[k]).status != PredictionStatus::Expired,
    ensures
        count_status(s, PredictionStatus::Active) + count_status(s, PredictionStatus::Won)
            + count_status(s, PredictionStatus::Lost) == s.len(),
    decreases s.len(),
{
    if s.len() > 0 {
        lemma_count_partition(s.drop_last());
    }
}

/// With one slot known to hold neither status, the two counts together stay
/// strictly below the length.
pub(crate) proof fn lemma_count_two_excluding(
    s: Seq<Prediction>,
    st1: PredictionStatus,
    st2: PredictionStatus,
    k: int,
)
    requires
        st1 != st2,
        0 <= k < s.len(),
        s[k].status != st1,
        s[k].status != st2,
    ensures
        count_status(s, st1) + count_status(s, st2) < s.len(),
    decreases s.len(),
{
    if k == s.len() - 1 {
        lemma_count_two(s.drop_last(), st1, st2);
    } else {
        lemma_count_two_excluding(s.drop_last(), st1, st2, k);
    }
}

/// Well-formedness of one stored prediction: it carries its owner and its
/// own index, respects the asset-length bound, never shows the unreachable
/// `Expired` status, expires no earlier than it was created, and has zeroed
/// result fields for as long as it is active.
pub open spec fn prediction_wf(owner: Identity, k: int, p: Prediction) -> bool {
    &&& p.oracle == owner
    &&& p.prediction_id == k
    &&& p.asset@.len() <= MAX_ASSET_LEN
    &&& p.status != PredictionStatus::Expired
    &&& p.created_at <= p.expires_at
    &&& p.status == PredictionStatus::Active ==> p.result_price == 0 && p.verified_at == 0
}

/// Well-formedness of one entry: the aggregate counters agree exactly with
/// the predictions stored beneath the oracle.
pub open spec fn entry_wf(e: OracleEntry) -> bool {
    &&& e.oracle.name@.len() <= MAX_NAME_LEN
    &&& e.oracle.total_predictions == e.predictions@.len()
    &&& e.oracle.wins == count_status(e.predictions@, PredictionStatus::Won)
    &&& e.oracle.losses == count_status(e.predictions@, PredictionStatus::Lost)
    &&& forall|k: int|
        0 <= k < e.predictions@.len() ==> prediction_wf(
            e.oracle.authority,
            k,
            #[trigger] e.predictions@[k],
        )
}

impl OracleRegistry {
    /// Well-formedness of the whole store: authorities are unique (one
    /// oracle per identity) and every entry is internally consistent.
    pub open spec fn wf(self) -> bool {
        &&& forall|i: int, j: int|
            0 <= i < j < self.entries@.len() ==> (#[trigger] self.entries@[i]).oracle.authority
                != (#[trigger] self.entries@[j]).oracle.authority
        &&& forall|i: int| 0 <= i < self.entries@.len() ==> entry_wf(#[trigger] self.entries@[i])
    }

    /// Whether an oracle is registered under `a`.
    pub open spec fn has_oracle(self, a: Identity) -> bool {
        exists|i: int|
            0 <= i < self.entries@.len() && (#[trigger] self.entries@[i]).oracle.authority == a
    }

    /// The index of the entry registered under `a` (meaningful only when
    /// `has_oracle(a)` holds; unique when the registry is well-formed).
    pub open spec fn entry_index(self, a: Identity) -> int {
        choose|i: int|
            0 <= i < self.entries@.len() && (#[trigger] self.entries@[i]).oracle.authority == a
    }

    /// The oracle registered under `a`.
    pub open spec fn oracle_of(self, a: Identity) -> Oracle {
        self.entries@[self.entry_index(a)].oracle
    }

    /// The predictions created under the oracle registered under `a`, in
    /// sequence-number order.
    pub open spec fn predictions_of(self, a: Identity) -> Seq<Prediction> {
        self.entries@[self.entry_index(a)].predictions@
    }

    /// An empty registry.
    pub fn new() -> (r: OracleRegistry)
        ensures
            r.wf(),
            r.entries@.len() == 0,
    {
        OracleRegistry { entries: Vec::new() }
    }

    /// Finds the entry registered under `a`, and pins the found index to the
    /// one the spec-level `entry_index` denotes.
    fn find_entry(&self, a: Identity) -> (r: Option<usize>)
        requires
            self.wf(),
        ensures
            match r {
                Some(i) => self.has_oracle(a) && i as int == self.entry_index(a) && i
                    < self.entries@.len() && self.entries@[i as int].oracle.authority == a,
                None => !self.has_oracle(a),
            },
    {
        let n = self.entries.len();
        let mut i: usize = 0;
        while i < n
            invariant
                n == self.entries@.len(),
                i <= n,
                self.wf(),
                forall|k: int| 0 <= k < i ==> (#[trigger] self.entries@[k]).oracle.authority != a,
            decreases n - i,
        {
            if self.entries[i].oracle.authority == a {
                proof {
                    let j = self.entry_index(a);
                    assert(0 <= j < self.entries@.len() && self.entries@[j].oracle.authority == a);
                    if j != i as int {
                        assert(self.entries@[j].oracle.authority
                            != self.entries@[i as int].oracle.authority);
                    }
                }
                return Some(i);
            }
            i = i + 1;
        }
        None
    }

    /// Registers a new oracle under `ctx.authority`.
    ///
    /// Succeeds exactly when the name fits and no oracle exists under that
    /// identity yet; the new record starts with all counters zero. Any
    /// rejection leaves the registry untouched.
    pub fn initialize_oracle(
        &mut self,
        ctx: InitializeOracle,
        name: String,
        now: i64,
    ) -> (r: Result<(), AlphaOracleError>)
        requires
            old(self).wf(),
        ensures
            final(self).wf(),
            initialize_post(*old(self), *final(self), ctx, name, now, r),
    {
        if name.as_str().unicode_len() > MAX_NAME_LEN {
            return Err(AlphaOracleError::NameTooLong);
        }
        if let Some(_) = self.find_entry(ctx.authority) {
            return Err(AlphaOracleError::OracleAlreadyExists);
        }
        let oracle = Oracle {
            authority: ctx.authority,
            name,
            total_predictions: 0,
            wins: 0,
            losses: 0,
            created_at: now,
        };
        let entry = OracleEntry { oracle, predictions: Vec::new() };
        let ghost pre = *self;
        self.entries.push(entry);
        proof {
            let post = *self;
            let n = pre.entries@.len() as int;
            assert forall|i: int| 0 <= i < post.entries@.len() implies entry_wf(
                #[trigger] post.entries@[i],
            ) by {
                if i < n {
                    assert(entry_wf(pre.entries@[i]));
                }
            }
        }
        Ok(())
    }

    /// Creates the next prediction under the oracle registered at
    /// `ctx.oracle`, on behalf of `ctx.authority`.
    ///
    /// Succeeds exactly when the asset symbol fits, the oracle exists and
    /// the caller is its authority. The new prediction takes the oracle's
    /// current `total_predictions` as its sequence number, the counter rises
    /// by one, and the creation notification is returned. Any rejection
    /// leaves the registry untouched.
    pub fn create_prediction(
        &mut self,
        ctx: CreatePrediction,
        asset: String,
        direction: Direction,
        entry_price: u64,
        take_profit: u64,
        stop_loss: u64,
        timeframe_hours: u16,
        now: i64,
    ) -> (r: Result<PredictionCreated, AlphaOracleError>)
        requires
            old(self).wf(),
            now + timeframe_hours as int * SECONDS_PER_HOUR <= i64::MAX,
        ensures
            final(self).wf(),
            create_post(
                *old(self),
                *final(self),
                ctx,
                asset,
                direction,
                entry_price,
                take_profit,
                stop_loss,
                timeframe_hours,
                now,
                r,
            ),
    {
        if asset.as_str().unicode_len() > MAX_ASSET_LEN {
            return Err(AlphaOracleError::AssetTooLong);
        }
        let idx = match self.find_entry(ctx.oracle) {
            Some(i) => i,
            None => {
                return Err(AlphaOracleError::OracleNotFound);
            },
        };
        if self.entries[idx].oracle.authority != ctx.authority {
            return Err(AlphaOracleError::Unauthorized);
        }
        let expires_at = now + (timeframe_hours as i64) * SECONDS_PER_HOUR;
        let prediction_id = self.entries[idx].oracle.total_predictions;
        let event = PredictionCreated {
            oracle: ctx.oracle,
            prediction_id,
            asset: asset.clone(),
            direction,
            entry_price,
            take_profit,
            stop_loss,
            expires_at,
        };
        let pred = Prediction {
            oracle: ctx.oracle,
            prediction_id,
            asset,
            direction,
            entry_price,
            take_profit,
            stop_loss,
            created_at: now,
            expires_at,
            status: PredictionStatus::Active,
            result_price: 0,
            verified_at: 0,
        };
        let ghost pre = *self;
        let ghost eo = pre.entries@[idx as int];
        self.entries[idx].predictions.push(pred);
        proof {
            vstd::std_specs::vec::axiom_spec_len(&self.entries@[idx as int].predictions);
            assert(self.entries@[idx as int].predictions@.len() <= usize::MAX);
        }
        self.entries[idx].oracle.total_predictions = self.entries[idx].oracle.total_predictions
            + 1;
        proof {
            let post = *self;
            let en = post.entries@[idx as int];
            assert(post.entries@ =~= pre.entries@.update(idx as int, en));
            assert(en.predictions@ == eo.predictions@.push(pred));
            lemma_count_push(eo.predictions@, pred, PredictionStatus::Won);
            lemma_count_push(eo.predictions@, pred, PredictionStatus::Lost);
            assert(entry_wf(en)) by {
                assert forall|k: int| 0 <= k < en.predictions@.len() implies prediction_wf(
                    en.oracle.authority,
                    k,
                    #[trigger] en.predictions@[k],
                ) by {
                    if k < eo.predictions@.len() {
                        assert(prediction_wf(eo.oracle.authority, k, eo.predictions@[k]));
                    }
                }
            }
            assert forall|i: int| 0 <= i < post.entries@.len() implies entry_wf(
                #[trigger] post.entries@[i],
            ) by {
                assert(entry_wf(pre.entries@[i]));
                if i != idx as int {
                    assert(post.entries@[i] == pre.entries@[i]);
                }
            }
        }
        Ok(event)
    }

    /// Settles the prediction `ctx.prediction_id` under the oracle
    /// registered at `ctx.oracle` against the realized `result_price`.
    /// `ctx.verifier` may be any identity.
    ///
    /// Succeeds exactly when the prediction exists, is still active and has
    /// expired (`now >= expires_at`, both checks in that order). On success
    /// the realized price and the settlement time are recorded, the status
    /// becomes `Won` or `Lost` by the settlement rule, the matching oracle
    /// counter rises by one, and the settlement notification is returned.
    /// Any rejection leaves the registry untouched; in particular a
    /// prediction that was settled once is rejected with
    /// `PredictionNotActive` ever after.
    pub fn verify_prediction(
        &mut self,
        ctx: VerifyPrediction,
        result_price: u64,
        now: i64,
    ) -> (r: Result<PredictionVerified, AlphaOracleError>)
        requires
            old(self).wf(),
        ensures
            final(self).wf(),
            verify_post(*old(self), *final(self), ctx, result_price, now, r),
    {
        let idx = match self.find_entry(ctx.oracle) {
            Some(i) => i,
            None => {
                return Err(AlphaOracleError::OracleNotFound);
            },
        };
        let n = self.entries[idx].predictions.len();
        if ctx.prediction_id >= n as u64 {
            return Err(AlphaOracleError::PredictionNotFound);
        }
        let k = ctx.prediction_id as usize;
        if self.entries[idx].predictions[k].status != PredictionStatus::Active {
            return Err(AlphaOracleError::PredictionNotActive);
        }
        if now < self.entries[idx].predictions[k].expires_at {
            return Err(AlphaOracleError::PredictionNotExpired);
        }
        let direction = self.entries[idx].predictions[k].direction;
        let entry_price = self.entries[idx].predictions[k].entry_price;
        let take_profit = self.entries[idx].predictions[k].take_profit;
        let stop_loss = self.entries[idx].predictions[k].stop_loss;
        let won = is_win(direction, entry_price, take_profit, stop_loss, result_price);
        let status = if won {
            PredictionStatus::Won
        } else {
            PredictionStatus::Lost
        };
        let ghost pre = *self;
        let ghost eo = pre.entries@[idx as int];
        let ghost p = eo.predictions@[k as int];
        self.entries[idx].predictions[k].result_price = result_price;
        self.entries[idx].predictions[k].verified_at = now;
        self.entries[idx].predictions[k].status = status;
        let ghost p2 = self.entries@[idx as int].predictions@[k as int];
        proof {
            vstd::std_specs::vec::axiom_spec_len(&eo.predictions);
            lemma_count_two_excluding(
                eo.predictions@,
                PredictionStatus::Won,
                PredictionStatus::Lost,
                k as int,
            );
            lemma_count_update(eo.predictions@, k as int, p2, PredictionStatus::Won);
            lemma_count_update(eo.predictions@, k as int, p2, PredictionStatus::Lost);
            assert(self.entries@[idx as int].predictions@ =~= eo.predictions@.update(
                k as int,
                p2,
            ));
        }
        if won {
            self.entries[idx].oracle.wins = self.entries[idx].oracle.wins + 1;
        } else {
            self.entries[idx].oracle.losses = self.entries[idx].oracle.losses + 1;
        }
        proof {
            let post = *self;
            let en = post.entries@[idx as int];
            assert(post.entries@ =~= pre.entries@.update(idx as int, en));
            assert(en.predictions@ =~= eo.predictions@.update(k as int, p2));
            assert(entry_wf(en)) by {
                assert forall|j: int| 0 <= j < en.predictions@.len() implies prediction_wf(
                    en.oracle.authority,
                    j,
                    #[trigger] en.predictions@[j],
                ) by {
                    assert(prediction_wf(eo.oracle.authority, j, eo.predictions@[j]));
                }
            }
            assert forall|i: int| 0 <= i < post.entries@.len() implies entry_wf(
                #[trigger] post.entries@[i],
            ) by {
                assert(entry_wf(pre.entries@[i]));
                if i != idx as int {
                    assert(post.entries@[i] == pre.entries@[i]);
                }
            }
        }
        Ok(
            PredictionVerified {
                oracle: ctx.oracle,
                prediction_id: ctx.prediction_id,
                result_price,
                status,
            },
        )
    }

    /// The oracle registered under `authority`, if any.
    pub fn get_oracle(&self, authority: Identity) -> (r: Option<&Oracle>)
        requires
            self.wf(),
        ensures
            match r {
                Some(o) => self.has_oracle(authority) && *o == self.oracle_of(authority),
                None => !self.has_oracle(authority),
            },
    {
        match self.find_entry(authority) {
            Some(i) => Some(&self.entries[i].oracle),
            None => None,
        }
    }

    /// The prediction with sequence number `prediction_id` under the oracle
    /// registered under `authority`, if both exist.
    pub fn get_prediction(&self, authority: Identity, prediction_id: u64) -> (r: Option<
        &Prediction,
    >)
        requires
            self.wf(),
        ensures
            match r {
                Some(p) => self.has_oracle(authority) && prediction_id < self.predictions_of(
                    authority,
                ).len() && *p == self.predictions_of(authority)[prediction_id as int],
                None => !self.has_oracle(authority) || prediction_id >= self.predictions_of(
                    authority,
                ).len(),
            },
    {
        match self.find_entry(authority) {
            Some(i) => {
                let n = self.entries[i].predictions.len();
                if prediction_id < n as u64 {
                    Some(&self.entries[i].predictions[prediction_id as usize])
                } else {
                    None
                }
            },
            None => None,
        }
    }
}

/// Exactly what `verify_prediction` does: its success/failure condition,
/// which error comes on which input (the status check before the expiry
/// check), the one record that settles, the one counter that moves, and the
/// notification it returns.
pub open spec fn verify_post(
    pre: OracleRegistry,
    post: OracleRegistry,
    ctx: VerifyPrediction,
    result_price: u64,
    now: i64,
    r: Result<PredictionVerified, AlphaOracleError>,
) -> bool {
    let found = pre.has_oracle(ctx.oracle) && ctx.prediction_id < pre.predictions_of(
        ctx.oracle,
    ).len();
    let p = pre.predictions_of(ctx.oracle)[ctx.prediction_id as int];
    &&& post.wf()
    &&& (r == Result::<PredictionVerified, AlphaOracleError>::Err(AlphaOracleError::OracleNotFound)
        <==> !pre.has_oracle(ctx.oracle))
    &&& (r == Result::<PredictionVerified, AlphaOracleError>::Err(
        AlphaOracleError::PredictionNotFound,
    ) <==> pre.has_oracle(ctx.oracle) && ctx.prediction_id >= pre.predictions_of(ctx.oracle).len())
    &&& (r == Result::<PredictionVerified, AlphaOracleError>::Err(
        AlphaOracleError::PredictionNotActive,
    ) <==> found && p.status != PredictionStatus::Active)
    &&& (r == Result::<PredictionVerified, AlphaOracleError>::Err(
        AlphaOracleError::PredictionNotExpired,
    ) <==> found && p.status == PredictionStatus::Active && now < p.expires_at)
    &&& (r is Ok <==> found && p.status == PredictionStatus::Active && now >= p.expires_at)
    &&& (r is Err ==> post == pre)
    &&& (r is Ok ==> {
        let i = pre.entry_index(ctx.oracle);
        let k = ctx.prediction_id as int;
        let eo = pre.entries@[i];
        let en = post.entries@[i];
        let won = spec_is_win(p.direction, p.entry_price, p.take_profit, p.stop_loss, result_price);
        let p2 = en.predictions@[k];
        &&& post.entries@ == pre.entries@.update(i, en)
        &&& en.predictions@ == eo.predictions@.update(k, p2)
        &&& p2 == (Prediction {
            status: if won {
                PredictionStatus::Won
            } else {
                PredictionStatus::Lost
            },
            result_price,
            verified_at: now,
            ..p
        })
        &&& en.oracle == (Oracle {
            wins: if won {
                (eo.oracle.wins + 1) as u64
            } else {
                eo.oracle.wins
            },
            losses: if won {
                eo.oracle.losses
            } else {
                (eo.oracle.losses + 1) as u64
            },
            ..eo.oracle
        })
        &&& r->Ok_0 == (PredictionVerified {
            oracle: ctx.oracle,
            prediction_id: ctx.prediction_id,
            result_price,
            status: p2.status,
        })
    })
}

/// Exactly what `create_prediction` does: its success/failure condition,
/// which error comes on which input, the one new record, the one counter
/// that moves, and the notification it returns.
pub open spec fn create_post(
    pre: OracleRegistry,
    post: OracleRegistry,
    ctx: CreatePrediction,
    asset: String,
    direction: Direction,
    entry_price: u64,
    take_profit: u64,
    stop_loss: u64,
    timeframe_hours: u16,
    now: i64,
    r: Result<PredictionCreated, AlphaOracleError>,
) -> bool {
    &&& post.wf()
    &&& (r is Ok <==> asset@.len() <= MAX_ASSET_LEN && pre.has_oracle(ctx.oracle)
        && pre.oracle_of(ctx.oracle).authority == ctx.authority)
    &&& (r == Result::<PredictionCreated, AlphaOracleError>::Err(AlphaOracleError::AssetTooLong)
        <==> asset@.len() > MAX_ASSET_LEN)
    &&& (r == Result::<PredictionCreated, AlphaOracleError>::Err(AlphaOracleError::OracleNotFound)
        <==> asset@.len() <= MAX_ASSET_LEN && !pre.has_oracle(ctx.oracle))
    &&& (r == Result::<PredictionCreated, AlphaOracleError>::Err(AlphaOracleError::Unauthorized)
        <==> asset@.len() <= MAX_ASSET_LEN && pre.has_oracle(ctx.oracle) && pre.oracle_of(
        ctx.oracle,
    ).authority != ctx.authority)
    &&& (r is Err ==> post == pre)
    &&& (r is Ok ==> {
        let i = pre.entry_index(ctx.oracle);
        let eo = pre.entries@[i];
        let en = post.entries@[i];
        let p = en.predictions@.last();
        &&& post.entries@ == pre.entries@.update(i, en)
        &&& en.predictions@ == eo.predictions@.push(p)
        &&& en.oracle == (Oracle {
            total_predictions: (eo.oracle.total_predictions + 1) as u64,
            ..eo.oracle
        })
        &&& p == (Prediction {
            oracle: ctx.oracle,
            prediction_id: eo.oracle.total_predictions,
            asset,
            direction,
            entry_price,
            take_profit,
            stop_loss,
            created_at: now,
            expires_at: (now + timeframe_hours as int * SECONDS_PER_HOUR) as i64,
            status: PredictionStatus::Active,
            result_price: 0,
            verified_at: 0,
        })
        &&& r->Ok_0 == (PredictionCreated {
            oracle: ctx.oracle,
            prediction_id: p.prediction_id,
            asset,
            direction,
            entry_price,
            take_profit,
            stop_loss,
            expires_at: p.expires_at,
        })
    })
}

/// Exactly what `initialize_oracle` does: its success/failure condition,
/// which error comes on which input, and the one new record it appends.
pub open spec fn initialize_post(
    pre: OracleRegistry,
    post: OracleRegistry,
    ctx: InitializeOracle,
    name: String,
    now: i64,
    r: Result<(), AlphaOracleError>,
) -> bool {
    &&& post.wf()
    &&& (r is Ok <==> name@.len() <= MAX_NAME_LEN && !pre.has_oracle(ctx.authority))
    &&& (r == Result::<(), AlphaOracleError>::Err(AlphaOracleError::NameTooLong) <==> name@.len()
        > MAX_NAME_LEN)
    &&& (r == Result::<(), AlphaOracleError>::Err(AlphaOracleError::OracleAlreadyExists)
        <==> name@.len() <= MAX_NAME_LEN && pre.has_oracle(ctx.authority))
    &&& (r is Err ==> post == pre)
    &&& (r is Ok ==> {
        let e = post.entries@.last();
        &&& post.entries@ == pre.entries@.push(e)
        &&& e.oracle == (Oracle {
            authority: ctx.authority,
            name,
            total_predictions: 0,
            wins: 0,
            losses: 0,
            created_at: now,
        })
        &&& e.predictions@.len() == 0
        &&& post.has_oracle(ctx.authority)
        &&& post.oracle_of(ctx.authority) == e.oracle
    })
}

} // verus!
