use vstd::prelude::*;

verus! {

/// A point in game time: milliseconds since the game started.
pub type Millis = i64;

/// True when more than `delay` milliseconds separate `start` from `now`.
pub open spec fn passed(now: int, start: int, delay: int) -> bool {
    now > start + delay
}

/// Whether `now` lies strictly more than `delay` milliseconds after `start`.
pub fn has_passed(now: Millis, start: Millis, delay: Millis) -> (r: bool)
    ensures
        r == passed(now as int, start as int, delay as int),
{
    (now as i128) > (start as i128) + (delay as i128)
}

/// Whether `now` lies less than `delay` milliseconds after `start` (or before it).
pub fn is_within(now: Millis, start: Millis, delay: Millis) -> (r: bool)
    ensures
        r == (now < start + delay),
{
    (now as i128) < (start as i128) + (delay as i128)
}

} // verus!
