//! Authorization-code issuance.

pub mod codes;
