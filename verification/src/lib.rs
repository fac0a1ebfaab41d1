//! A verified ledger of directional price forecasts.
//!
//! An identity ("oracle") registers once, submits predictions with entry,
//! take-profit and stop-loss prices, and anyone may settle a prediction
//! against the realized price after its expiry. The library proves that the
//! aggregate win/loss record of every oracle stays consistent with the
//! predictions beneath it, that sequence numbers are gap-free, and that a
//! settled prediction can never be settled again.
//!
//! Identity verification, durable storage, the wall clock and the event
//! transport are external collaborators: callers pass identities and the
//! current time explicitly, and each mutating call returns the notification
//! it would emit.

pub mod laws;
pub mod registry;
pub mod settle;
pub mod types;
