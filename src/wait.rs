use vstd::prelude::*;

verus! {

/// How long to sleep, in nanoseconds, before `target` is reached, the clock
/// reading `now` (both Unix nanoseconds). `None` once `now` has reached
/// `target`: the wait is over and nothing is slept. A waiter asks again after
/// each sleep, so that an early wakeup or a clock that was set back never lets
/// it go on before `target`.
pub fn sleep_before(target: i64, now: i64) -> (r: Option<u64>)
    ensures
        now >= target ==> r is None,
        now < target ==> r == Some((target - now) as u64),
{
    if now >= target {
        None
    } else {
        Some((target as i128 - now as i128) as u64)
    }
}

} // verus!
