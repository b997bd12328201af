use vstd::prelude::*;

verus! {

/// Salt for a respawned collectible's horizontal scatter.
pub const SALT_RESPAWN_X: u64 = 0xa076_1d64_78bd_642f;

/// Salt for a respawned collectible's vertical placement.
pub const SALT_RESPAWN_Y: u64 = 0xe703_7ed1_a0b4_28db;

/// Salt for a respawned collectible's new primary color.
pub const SALT_RESPAWN_COLOR: u64 = 0x8ebc_6af0_9c88_c6e3;

/// Salt for picking the next target color after a score.
pub const SALT_TARGET: u64 = 0x5899_65cc_7537_4cc3;

/// The per-frame, per-entity seed every in-step random choice is derived
/// from. It is a pure function of its three arguments, so a rolled-back frame
/// replays with exactly the choices it made the first time; an ambient
/// generator here would break the determinism the rollback engine rests on.
pub open spec fn spec_mix(frame: u64, entity: u64, salt: u64) -> u64 {
    let h0 = salt ^ frame.wrapping_mul(0x9e37_79b9_7f4a_7c15) ^ entity.wrapping_mul(
        0xbf58_476d_1ce4_e5b9,
    );
    let h1 = (h0 ^ (h0 >> 30)).wrapping_mul(0x94d0_49bb_1331_11eb);
    h1 ^ (h1 >> 31)
}

pub fn mix(frame: u64, entity: u64, salt: u64) -> (r: u64)
    ensures
        r == spec_mix(frame, entity, salt),
{
    let h0 = salt ^ frame.wrapping_mul(0x9e37_79b9_7f4a_7c15) ^ entity.wrapping_mul(
        0xbf58_476d_1ce4_e5b9,
    );
    let h1 = (h0 ^ (h0 >> 30)).wrapping_mul(0x94d0_49bb_1331_11eb);
    h1 ^ (h1 >> 31)
}

} // verus!
