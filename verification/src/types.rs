//! The data model: oracles, predictions, events and errors.

use vstd::prelude::*;

verus! {

/// An identity (a caller or record owner), supplied and authenticated by the
/// external identity service.
pub type Identity = u64;

/// Maximum length, in characters, of an oracle's display name.
pub const MAX_NAME_LEN: usize = 32;

/// Maximum length, in characters, of a prediction's asset symbol.
pub const MAX_ASSET_LEN: usize = 16;

/// Prices are scaled integers with six implied decimal places: one whole unit
/// is `PRICE_SCALE` micro-units. Comparisons are exact integer comparisons.
pub const PRICE_SCALE: u64 = 1000000;

/// Seconds in one hour, used to turn a timeframe in hours into an expiry time.
pub const SECONDS_PER_HOUR: i64 = 3600;

/// The direction of a forecast: Long bets the price rises, Short that it falls.
#[derive(Clone, Copy, Debug, PartialEq, Eq, Structural)]
pub enum Direction {
    Long,
    Short,
}

/// The lifecycle state of a prediction. `Active` is the initial state; a
/// single settlement moves it to the terminal `Won` or `Lost`. `Expired` is
/// declared but unreachable: no operation produces it (a known design gap,
/// kept rather than silently repaired).
#[derive(Clone, Copy, Debug, PartialEq, Eq, Structural)]
pub enum PredictionStatus {
    Active,
    Won,
    Lost,
    Expired,
}

/// Every way an operation can be rejected. Rejections are total: a rejected
/// call leaves no record changed.
#[derive(Clone, Copy, Debug, PartialEq, Eq, Structural)]
pub enum AlphaOracleError {
    /// An oracle name longer than `MAX_NAME_LEN` characters.
    NameTooLong,
    /// An asset symbol longer than `MAX_ASSET_LEN` characters.
    AssetTooLong,
    /// The caller of `create_prediction` is not the oracle's authority.
    Unauthorized,
    /// A second registration under an identity that already owns an oracle.
    OracleAlreadyExists,
    /// The addressed oracle does not exist.
    OracleNotFound,
    /// The addressed prediction does not exist under that oracle.
    PredictionNotFound,
    /// Settlement attempted on a prediction that is no longer active.
    PredictionNotActive,
    /// Settlement attempted before the prediction's expiry time.
    PredictionNotExpired,
}

impl AlphaOracleError {
    /// The stable message text of each rejection.
    pub open spec fn spec_message(self) -> Seq<char> {
        match self {
            AlphaOracleError::NameTooLong => "Oracle name is too long"@,
            AlphaOracleError::AssetTooLong => "Asset symbol is too long"@,
            AlphaOracleError::Unauthorized => "Caller is not the oracle authority"@,
            AlphaOracleError::OracleAlreadyExists => "Oracle already exists for this identity"@,
            AlphaOracleError::OracleNotFound => "Oracle not found"@,
            AlphaOracleError::PredictionNotFound => "Prediction not found"@,
            AlphaOracleError::PredictionNotActive => "Prediction is not active"@,
            AlphaOracleError::PredictionNotExpired => "Prediction has not expired yet"@,
        }
    }

    /// The message text of this rejection.
    pub fn message(&self) -> (m: &'static str)
        ensures
            m@ == self.spec_message(),
    {
        match self {
            AlphaOracleError::NameTooLong => "Oracle name is too long",
            AlphaOracleError::AssetTooLong => "Asset symbol is too long",
            AlphaOracleError::Unauthorized => "Caller is not the oracle authority",
            AlphaOracleError::OracleAlreadyExists => "Oracle already exists for this identity",
            AlphaOracleError::OracleNotFound => "Oracle not found",
            AlphaOracleError::PredictionNotFound => "Prediction not found",
            AlphaOracleError::PredictionNotActive => "Prediction is not active",
            AlphaOracleError::PredictionNotExpired => "Prediction has not expired yet",
        }
    }
}

/// An identity's aggregate forecasting record.
#[derive(Clone, Debug, PartialEq, Eq)]
pub struct Oracle {
    /// The owning identity; immutable after creation. Only this identity may
    /// create predictions under the oracle.
    pub authority: Identity,
    /// Display name, at most `MAX_NAME_LEN` characters.
    pub name: String,
    /// How many predictions have been created under this oracle.
    pub total_predictions: u64,
    /// How many of them settled as won.
    pub wins: u64,
    /// How many of them settled as lost.
    pub losses: u64,
    /// Unix time of registration.
    pub created_at: i64,
}

/// One directional forecast. Created once, settled at most once, never
/// deleted.
#[derive(Clone, Debug, PartialEq, Eq)]
pub struct Prediction {
    /// The identity of the owning oracle's authority (the oracle's key).
    pub oracle: Identity,
    /// Sequence number under the owning oracle: the oracle's
    /// `total_predictions` at creation time, so ids are 0-based, strictly
    /// increasing and gap-free.
    pub prediction_id: u64,
    /// Asset symbol, at most `MAX_ASSET_LEN` characters.
    pub asset: String,
    pub direction: Direction,
    /// Entry price in micro-units (see `PRICE_SCALE`).
    pub entry_price: u64,
    /// Take-profit target in micro-units.
    pub take_profit: u64,
    /// Stop-loss level in micro-units.
    pub stop_loss: u64,
    /// Unix time of creation.
    pub created_at: i64,
    /// `created_at + timeframe_hours * SECONDS_PER_HOUR`; settlement is
    /// allowed only at or after this time.
    pub expires_at: i64,
    pub status: PredictionStatus,
    /// The realized price, zero until settlement.
    pub result_price: u64,
    /// Unix time of settlement, zero until settlement.
    pub verified_at: i64,
}

/// The notification a successful `create_prediction` emits.
#[derive(Clone, Debug, PartialEq, Eq)]
pub struct PredictionCreated {
    pub oracle: Identity,
    pub prediction_id: u64,
    pub asset: String,
    pub direction: Direction,
    pub entry_price: u64,
    pub take_profit: u64,
    pub stop_loss: u64,
    pub expires_at: i64,
}

/// The notification a successful `verify_prediction` emits.
#[derive(Clone, Copy, Debug, PartialEq, Eq)]
pub struct PredictionVerified {
    pub oracle: Identity,
    pub prediction_id: u64,
    pub result_price: u64,
    pub status: PredictionStatus,
}

} // verus!
