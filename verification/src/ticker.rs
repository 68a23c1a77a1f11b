//! A stepped clock: continuous time cut into numbered ticks.
//!
//! A ticker is made at some clock reading, waits for a delay, and from then
//! on counts one tick per period. Nothing is stored: the tick number is a
//! function of the ticker's parameters and the current clock reading.

use vstd::prelude::*;
use vstd::arithmetic::div_mod::lemma_basic_div;
use vstd::arithmetic::div_mod::lemma_div_is_ordered;
use vstd::arithmetic::div_mod::lemma_div_plus_one;

verus! {

/// The clock reading from which ticks are counted.
pub open spec fn first_tick(ms_before_first_tick: u64, created_at: u64) -> int {
    created_at + ms_before_first_tick
}

/// The number of the tick that is current at clock reading `now`.
///
/// It is zero until the first tick is due, and then grows by one every
/// `ms_between_ticks` milliseconds.
pub open spec fn tick_index(
    ms_between_ticks: u64,
    ms_before_first_tick: u64,
    created_at: u64,
    now: u64,
) -> int {
    let since_first = now - first_tick(ms_before_first_tick, created_at);
    (if since_first > 0 {
        since_first
    } else {
        0
    }) / (ms_between_ticks as int)
}

/// The tick that is current at `now`, for a ticker made at `created_at`.
pub fn tick(ms_between_ticks: u64, ms_before_first_tick: u64, created_at: u64, now: u64) -> (index:
    u64)
    requires
        ms_between_ticks > 0,
    ensures
        index == tick_index(ms_between_ticks, ms_before_first_tick, created_at, now),
{
    let since_created = now.saturating_sub(created_at);
    let since_first = since_created.saturating_sub(ms_before_first_tick);
    since_first / ms_between_ticks
}

/// Whether the tick that is current at `now` has an even number.
pub fn tick_bool(
    ms_between_ticks: u64,
    ms_before_first_tick: u64,
    created_at: u64,
    now: u64,
) -> (even: bool)
    requires
        ms_between_ticks > 0,
    ensures
        even == (tick_index(ms_between_ticks, ms_before_first_tick, created_at, now) % 2 == 0),
{
    tick(ms_between_ticks, ms_before_first_tick, created_at, now) % 2 == 0
}

/// The position in a cycle of `len` values that tick number `index` selects.
pub open spec fn cycle_position(index: int, len: int) -> int {
    index % len
}

/// The value that is current at `now` when the ticker steps through
/// `values` over and over. There is none when `values` is empty.
pub fn tick_iterate<T>(
    ms_between_ticks: u64,
    ms_before_first_tick: u64,
    values: &Vec<T>,
    created_at: u64,
    now: u64,
) -> (current: Option<&T>)
    requires
        values.len() > 0 ==> ms_between_ticks > 0,
    ensures
        values.len() == 0 ==> current is None,
        values.len() > 0 ==> current == Some(
            &values@[cycle_position(
                tick_index(ms_between_ticks, ms_before_first_tick, created_at, now),
                values.len() as int,
            )],
        ),
{
    let len = values.len();
    if len == 0 {
        return None;
    }
    let index = tick(ms_between_ticks, ms_before_first_tick, created_at, now);
    let position = (index % (len as u64)) as usize;
    Some(&values[position])
}

/// The tick number counts whole periods since the first tick: it is zero
/// until the first tick is one period old, and one period later it is
/// always one more.
pub proof fn law_tick_counts_periods(
    ms_between_ticks: u64,
    ms_before_first_tick: u64,
    created_at: u64,
    now: u64,
)
    requires
        ms_between_ticks > 0,
    ensures
        now < first_tick(ms_before_first_tick, created_at) + ms_between_ticks ==> tick_index(
            ms_between_ticks,
            ms_before_first_tick,
            created_at,
            now,
        ) == 0,
        now >= first_tick(ms_before_first_tick, created_at) && now + ms_between_ticks <= u64::MAX
            ==> tick_index(
            ms_between_ticks,
            ms_before_first_tick,
            created_at,
            (now + ms_between_ticks) as u64,
        ) == tick_index(ms_between_ticks, ms_before_first_tick, created_at, now) + 1,
{
    let since_first = now - first_tick(ms_before_first_tick, created_at);
    if since_first < ms_between_ticks {
        if since_first > 0 {
            lemma_basic_div(since_first, ms_between_ticks as int);
        }
    }
    if since_first >= 0 {
        lemma_div_plus_one(since_first, ms_between_ticks as int);
    }
}

/// The tick number never goes back as the clock moves on.
pub proof fn law_tick_never_goes_back(
    ms_between_ticks: u64,
    ms_before_first_tick: u64,
    created_at: u64,
    earlier: u64,
    later: u64,
)
    requires
        ms_between_ticks > 0,
        earlier <= later,
    ensures
        tick_index(ms_between_ticks, ms_before_first_tick, created_at, earlier) <= tick_index(
            ms_between_ticks,
            ms_before_first_tick,
            created_at,
            later,
        ),
{
    let first = first_tick(ms_before_first_tick, created_at);
    let from_earlier = if earlier - first > 0 {
        earlier - first
    } else {
        0
    };
    let from_later = if later - first > 0 {
        later - first
    } else {
        0
    };
    lemma_div_is_ordered(from_earlier, from_later, ms_between_ticks as int);
}

/// The value that a cycle of `len` values shows is always one of them.
pub proof fn law_cycle_stays_in_range(index: int, len: int)
    requires
        len > 0,
    ensures
        0 <= cycle_position(index, len) < len,
{
}

} // verus!
