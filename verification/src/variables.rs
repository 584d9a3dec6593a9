//! The constants of the rules.

use vstd::prelude::*;

verus! {

/// How many pod ids a creator's index keeps; older ids are pruned first.
pub const MAX_USER_META_PODS: usize = 50;

/// Longest planet name, in bytes.
pub const MAX_PLANET_TITLE_LENGTH: usize = 10;

/// Longest delay a pod may be launched with, in seconds (24 hours).
pub const MAX_DELAY_ALLOWED: u32 = 86400;

/// Age, in seconds, after which a planet lock counts as abandoned.
pub const LOCK_EXPIRE_SECONDS: i64 = 30;

/// Deposits must be strictly larger than this many lamports.
pub const DUST_FLOOR_LAMPORTS: u64 = 500;

/// A delayed pod whose landing is at most this many seconds away lands next.
pub const LAND_WINDOW_SECONDS: i64 = 240;

/// Shortest jittered pause before the next hop, in seconds.
pub const HOP_JITTER_MIN_SECONDS: i64 = 120;

/// Longest jittered pause before the next hop, in seconds.
pub const HOP_JITTER_MAX_SECONDS: i64 = 240;

/// A clamped hop is scheduled this many seconds before the landing time.
pub const HOP_CLAMP_MARGIN_SECONDS: i64 = 5;

/// Seconds that must pass after launch before the creator may force a landing.
pub const EMERGENCY_COOLDOWN_SECONDS: i64 = 180;

/// Seconds of delay covered by one fee increment.
pub const FEE_STEP_SECONDS: u64 = 180;

/// Number of entries a pod's activity log holds.
pub const ACTIVITY_LOG_CAPACITY: usize = 10;

/// Number of land tickets the registry holds.
pub const LAND_BOOK_CAPACITY: usize = 128;

/// Smallest percentage a star split draws.
pub const SPLIT_PERCENT_MIN: u8 = 10;

/// Largest percentage a star split draws.
pub const SPLIT_PERCENT_MAX: u8 = 90;

/// Base launch fee of a new universe, in lamports.
pub const DEFAULT_BASE_FEE: u64 = 3000000;

/// Fee increment of a new universe, in lamports.
pub const DEFAULT_FEE_INCREMENT: u64 = 100000;

} // verus!
