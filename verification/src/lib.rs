//! Verified core of the AniLigtas disaster-relief pool: the cooperative's
//! farmer registry, the claim lifecycle (file, approve and disburse, reject)
//! and the accounting of the community pool.

pub mod bytes;
pub mod contract;
pub mod laws;
pub mod model;
pub mod records;
pub mod table;
