//! A fund fan-out registry: value deposited by arbitrary donators is split
//! into equal integer shares among the currently enrolled beneficiaries,
//! while an auditable history records who donated what and who received
//! what — including beneficiaries that were removed and later re-enrolled.

pub mod contract;
pub mod laws;
pub mod model;
pub mod msg;
pub mod state;
