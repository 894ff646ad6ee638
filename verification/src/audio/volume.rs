//! Playback volume, a percentage between 0 and `MAX_VOLUME`.

use vstd::prelude::*;

verus! {

pub const MAX_VOLUME: u8 = 100;

/// `u8::saturating_add_signed`: the sum clamped to `0..=255`.
pub open spec fn saturating_add_signed(v: u8, delta: i8) -> int {
    let sum = v + delta;
    if sum < 0 {
        0
    } else if sum > 255 {
        255
    } else {
        sum
    }
}

pub open spec fn min_int(a: int, b: int) -> int {
    if a <= b { a } else { b }
}

/// The volume after a change by `delta`: the saturated sum, capped at the
/// maximum volume.
pub open spec fn changed_volume(v: u8, delta: i8) -> int {
    min_int(saturating_add_signed(v, delta), MAX_VOLUME as int)
}

/// A playback volume in percent.
#[derive(Clone, Copy, Debug, PartialEq, Eq, Structural)]
pub struct Volume(pub u8);

impl Default for Volume {
    fn default() -> (v: Self)
        ensures
            v.0 == 50,
    {
        Volume(50)
    }
}

impl Volume {
    /// Changes the volume by `delta`, never below 0 nor above the maximum.
    pub fn change(&mut self, delta: i8)
        ensures
            final(self).0 == changed_volume(old(self).0, delta),
            0 <= old(self).0 + delta <= MAX_VOLUME ==> final(self).0 == old(self).0 + delta,
            old(self).0 + delta < 0 ==> final(self).0 == 0,
            old(self).0 + delta > MAX_VOLUME ==> final(self).0 == MAX_VOLUME,
    {
        let v = self.0;
        let sum: i16 = v as i16 + delta as i16;
        let saturated: u8 = if sum < 0 {
            0
        } else if sum > 255 {
            255
        } else {
            sum as u8
        };
        self.0 = if saturated < MAX_VOLUME {
            saturated
        } else {
            MAX_VOLUME
        };
    }

    /// Sets the volume, capped at the maximum.
    pub fn set(&mut self, volume: u8)
        ensures
            final(self).0 == min_int(volume as int, MAX_VOLUME as int),
            volume <= MAX_VOLUME ==> final(self).0 == volume,
            volume > MAX_VOLUME ==> final(self).0 == MAX_VOLUME,
    {
        self.0 = if volume < MAX_VOLUME {
            volume
        } else {
            MAX_VOLUME
        };
    }
}

/// The volume never leaves `0..=MAX_VOLUME` under `change` and `set`, whatever
/// it was before.
pub proof fn lemma_volume_stays_in_range(v: u8, delta: i8, w: u8)
    ensures
        0 <= changed_volume(v, delta) <= MAX_VOLUME,
        0 <= min_int(w as int, MAX_VOLUME as int) <= MAX_VOLUME,
{
}

/// A change moves the volume by exactly `delta` while it stays within
/// `0..=MAX_VOLUME`, and stops at the nearest bound otherwise; so, from a
/// volume in range, a change that stays inside the range is undone by the
/// opposite change.
pub proof fn lemma_change_moves_by_delta(v: u8, delta: i8)
    ensures
        0 <= v + delta <= MAX_VOLUME ==> changed_volume(v, delta) == v + delta,
        v + delta < 0 ==> changed_volume(v, delta) == 0,
        v + delta > MAX_VOLUME ==> changed_volume(v, delta) == MAX_VOLUME,
        (v <= MAX_VOLUME && 0 <= v + delta <= MAX_VOLUME && delta > -128) ==> changed_volume(
            changed_volume(v, delta) as u8,
            (-delta) as i8,
        ) == v,
{
}

} // verus!
