//! Feature flags with deterministic percentage rollout, org-aware targeting
//! and an audit trail of changes.
//!
//! - Flag names follow `^[a-z][a-z0-9_]*$` (lowercase snake_case).
//! - Rollout puts each (flag, user) pair in a bucket `0..100` derived from
//!   SipHash over the flag name and the user id, reduced modulo 100 without
//!   bias (the top 16 digests are rejected and rehashed); a user is in the
//!   rollout when the bucket is below the flag's percentage.
//! - `MemoryFlagStore` keeps flags in a `DashMap` keyed by flag name.
//! - Flags and changes persist as rows (`FlagRow`, `ChangeRow`).
#![allow(unused_imports)]

pub mod text;
pub mod error;
pub mod flag;
pub mod eval;
pub mod store;
pub mod record;

pub use error::{FlagError, Result};
pub use eval::{bucket, bucket_with_org, evaluate_all, evaluate_enabled, evaluate_enabled_for};
pub use flag::{Flag, FlagChange, FlagName};
pub use record::{flags_from_rows, ChangeRow, FlagRow};
pub use store::MemoryFlagStore;
pub use text::TextValue;
