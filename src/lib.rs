//! Client-side logic for a small configuration record stored in an on-chain
//! account: the record's byte layout, the instructions that create, write and
//! close the account, the decisions of a provisioning session, and the
//! location of a deployed program's binary.
pub mod error;
pub mod instruction;
pub mod lifecycle;
pub mod locator;
pub mod record;
