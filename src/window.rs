use vstd::prelude::*;

verus! {

/// How many time slots one animation request considers.
pub const WINDOW_LEN: usize = 25;

/// The minute of `now_secs` (seconds since 1970-01-01 00:00, wall clock),
/// moved down onto the five-minute grid.
pub open spec fn aligned_minute(now_secs: int) -> int {
    now_secs / 60 - (now_secs / 60) % 5
}

/// The `i`-th slot of the window, newest first.
pub open spec fn window_slot(now_secs: int, i: int) -> int {
    aligned_minute(now_secs) - 5 * i
}

/// The minute-of-hour component of a slot.
pub open spec fn minute_of_hour(m: int) -> int {
    m % 60
}

/// The newest slot is on the five-minute grid and not later than the
/// reference instant.
pub proof fn lemma_newest_aligned(now_secs: int)
    ensures
        minute_of_hour(window_slot(now_secs, 0)) % 5 == 0,
        window_slot(now_secs, 0) * 60 <= now_secs,
{
    let m = now_secs / 60;
    assert(m * 60 <= now_secs);
    assert((m - m % 5) % 60 % 5 == 0);
}

/// The candidate slots for the instant `now_secs`: the aligned minute and
/// the slots before it, one step apart, newest first.
pub fn resolve_window(now_secs: i64) -> (r: Vec<i64>)
    ensures
        r@.len() == WINDOW_LEN,
        forall|i: int| 0 <= i < r@.len() ==> r@[i] == window_slot(now_secs as int, i),
        forall|i: int| 0 < i < r@.len() ==> #[trigger] r@[i] == r@[i - 1] - 5,
        minute_of_hour(r@[0] as int) % 5 == 0,
        r@[0] * 60 <= now_secs,
{
    proof {
        lemma_newest_aligned(now_secs as int);
    }
    let m: i64 = match now_secs.checked_div_euclid(60) {
        Some(q) => q,
        None => 0,
    };
    let rem: i64 = match m.checked_rem_euclid(5) {
        Some(x) => x,
        None => 0,
    };
    assert(m == now_secs / 60);
    assert(rem == m % 5);
    let mut cur: i64 = m - rem;
    let mut slots: Vec<i64> = Vec::new();
    let mut i: usize = 0;
    while i < WINDOW_LEN
        invariant
            i <= WINDOW_LEN,
            slots@.len() == i,
            cur == window_slot(now_secs as int, i as int),
            m == now_secs / 60,
            forall|j: int| 0 <= j < i ==> slots@[j] == window_slot(now_secs as int, j),
        decreases WINDOW_LEN - i,
    {
        slots.push(cur);
        cur = cur - 5;
        i = i + 1;
    }
    assert forall|i: int| 0 < i < slots@.len() implies #[trigger] slots@[i] == slots@[i - 1] - 5 by {
        assert(slots@[i] == window_slot(now_secs as int, i));
        assert(slots@[i - 1] == window_slot(now_secs as int, i - 1));
    }
    slots
}

} // verus!
