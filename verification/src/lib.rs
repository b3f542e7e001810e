//! A verified engine for D21 (Janecek-method) multi-winner elections.
//!
//! The engine validates election configurations, registers voters, accepts
//! plus/minus ballots, and — when an election is closed — ranks candidates
//! and selects winners. Every operation is a pure state transition on plain
//! records: the surrounding host supplies keyed storage, identity resolution,
//! a clock, and event delivery, and hands each operation the records it
//! names, pre-resolved by key.
//!
//! Each public operation carries a contract that pins down exactly which
//! error it returns for which inputs (the first failing check wins), and
//! exactly how the records change on success.

pub mod allowance;
pub mod ballot;
pub mod candidate;
pub mod cast;
pub mod constant;
pub mod election;
pub mod errors;
pub mod identity;
pub mod initialize;
pub mod laws;
pub mod lifecycle;
pub mod register;
pub mod status;
pub mod text;
pub mod update_status;
pub mod verified_user;
pub mod voter;
