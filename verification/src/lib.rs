//! A balance ledger with delegable write authority.
//!
//! Each owner identity has one balance record on a shared base store.
//! Write authority over a record can be temporarily delegated to a
//! faster auxiliary execution context (a rollup) and later reconciled
//! back to the base store. Transfers are value-conserving and are
//! valid only under the record's current authority.

pub mod laws;
pub mod ledger;
pub mod model;
