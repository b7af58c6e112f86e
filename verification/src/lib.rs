//! A verified policy hook for transfers of a governed asset on a
//! programmable ledger.
//!
//! The asset-issuing layer calls into this hook in the middle of every
//! transfer of the governed asset.  The hook checks that the call really
//! originates from an in-flight transfer, enforces an allow-list of
//! destination accounts, and on success orders a delegated transfer of a
//! companion asset alongside the primary one.  The allow-list lives in a
//! single durable registry administered by its owner identity, and the
//! extra accounts the hook needs are declared up front by a pure,
//! deterministic account plan so that callers can assemble them before
//! the hook ever runs.

pub mod error;
pub mod hook;
pub mod identity;
pub mod instruction;
pub mod plan;
pub mod registry;
