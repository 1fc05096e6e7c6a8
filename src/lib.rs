//! A ledger of payments that callers claim to have made.
//!
//! Each caller owns an append-only history of records, keyed by the caller's
//! identity. The host supplies the caller and the time of each call through a
//! [`CallContext`]; recording a payment hands back the notification that the
//! host is to deliver.
pub mod ledger;
pub mod model;
pub mod types;

pub use ledger::PaymentRecorder;
pub use types::{AccountId, Balance, CallContext, PaymentRecord, PaymentRecorded, Timestamp};
