use vstd::prelude::*;

verus! {

/// Smallest number of bolts that a broken crate gives.
pub const BOLTS_MIN: i32 = 60;

/// One more than the largest number of bolts that a broken crate gives.
pub const BOLTS_END: i32 = 200;

/// The hit points left to a crate.
#[derive(Clone, Copy, Debug, PartialEq, Eq)]
pub struct CrateHealth(pub i32);

/// The hit points that a wrench hitbox takes from what it touches.
#[derive(Clone, Copy, Debug, PartialEq, Eq)]
pub struct Damage(pub i32);

/// The bolts that the player has collected.
#[derive(Clone, Copy, Debug, PartialEq, Eq)]
pub struct Bolts(pub i32);

/// `v` held within the range of `i32`.
pub open spec fn clamp_i32(v: int) -> i32 {
    if v < i32::MIN {
        i32::MIN
    } else if v > i32::MAX {
        i32::MAX
    } else {
        v as i32
    }
}

impl CrateHealth {
    /// A hitbox touches the crate: its damage comes off the crate's hit
    /// points, which stay within the range of `i32`.
    pub fn take_hit(&mut self, damage: Damage)
        ensures
            final(self).0 == clamp_i32(old(self).0 - damage.0),
    {
        let v = (self.0 as i64) - (damage.0 as i64);
        self.0 = if v < i32::MIN as i64 {
            i32::MIN
        } else if v > i32::MAX as i64 {
            i32::MAX
        } else {
            v as i32
        };
    }

    /// A crate with no hit points left is dead: it breaks open.
    pub fn is_dead(&self) -> (r: bool)
        ensures
            r == (self.0 <= 0),
    {
        self.0 <= 0
    }
}

/// Relies on rand's `thread_rng().gen_range(low..high)`: a value drawn
/// uniformly from `low..high`, which panics on an empty range.
#[verifier::external_body]
fn draw_between(low: i32, high: i32) -> (r: i32)
    requires
        low < high,
    ensures
        low <= r < high,
{
    rand::Rng::gen_range(&mut rand::thread_rng(), low..high)
}

impl Bolts {
    /// Adds the bolts of a broken crate, a number drawn at random from
    /// `BOLTS_MIN..BOLTS_END`, and returns that number.
    pub fn collect_crate(&mut self) -> (n: i32)
        requires
            old(self).0 < i32::MAX - BOLTS_END,
        ensures
            BOLTS_MIN <= n < BOLTS_END,
            final(self).0 == old(self).0 + n,
    {
        let n = draw_between(BOLTS_MIN, BOLTS_END);
        self.0 = self.0 + n;
        n
    }
}

} // verus!
