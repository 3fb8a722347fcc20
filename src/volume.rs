use vstd::prelude::*;

verus! {

/// The volume level that stands for full volume; level `0` is silence.
///
/// A volume is held as an integer level in `0..=FULL_VOLUME`, a fixed-point
/// form of the fraction in `[0, 1]` that the operating system reports.
pub const FULL_VOLUME: u32 = 10000;

/// The level used when no live session can be read at start-up (one half).
pub const DEFAULT_VOLUME: u32 = 5000;

/// `v` brought into the range of valid levels.
pub open spec fn clamp_level(v: int) -> int {
    if v < 0 {
        0
    } else if v > FULL_VOLUME as int {
        FULL_VOLUME as int
    } else {
        v
    }
}

/// The whole percentage that a level shows as, rounded down.
pub open spec fn percent_of(level: int) -> int {
    level * 100 / FULL_VOLUME as int
}

/// Brings a requested level into `0..=FULL_VOLUME`: out-of-range requests are
/// clamped, never refused.
pub fn clamp_volume(requested: i64) -> (r: u32)
    ensures
        r as int == clamp_level(requested as int),
        r <= FULL_VOLUME,
{
    if requested < 0 {
        0
    } else if requested > FULL_VOLUME as i64 {
        FULL_VOLUME
    } else {
        requested as u32
    }
}

/// The volume as a whole percentage in `0..=100`, for display.
pub fn volume_percent(level: u32) -> (r: u32)
    requires
        level <= FULL_VOLUME,
    ensures
        r as int == percent_of(level as int),
        r <= 100,
{
    assert(level * 100 <= FULL_VOLUME * 100) by (nonlinear_arith)
        requires
            level <= FULL_VOLUME,
    ;
    let r = level * 100 / FULL_VOLUME;
    assert(r <= 100) by (nonlinear_arith)
        requires
            r == level * 100 / FULL_VOLUME as int,
            level * 100 <= FULL_VOLUME * 100,
    ;
    r
}

} // verus!
