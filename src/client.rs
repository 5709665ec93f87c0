use std::time::Duration;
use vstd::prelude::*;

use vstd::string::StrSliceExecFns;

use crate::duration::{
    decimal_value, duration_nanos, is_digit, lemma_digit_count, max_duration_nanos, parse_count,
    split_component,
};
use crate::message::Command;
use crate::timer::TimerId;

verus! {

/// The sum of the first `n` of `ds`, in nanoseconds.
pub open spec fn sum_nanos(ds: Seq<Duration>, n: int) -> nat
    decreases n,
{
    if n <= 0 {
        0
    } else {
        sum_nanos(ds, n - 1) + duration_nanos(ds[n - 1])
    }
}

proof fn lemma_sum_grows(ds: Seq<Duration>, i: int, j: int)
    requires
        0 <= i <= j,
    ensures
        sum_nanos(ds, i) <= sum_nanos(ds, j),
    decreases j,
{
    if i < j {
        lemma_sum_grows(ds, i, j - 1);
    }
}

/// The request that starts a timer for the sum of `durations`, whole
/// milliseconds. `None` when the sum is longer than a `Duration` can hold or
/// its milliseconds do not fit in a `u64`.
pub fn add_timer_command(durations: &[Duration]) -> (r: Option<Command>)
    ensures
        r is Some <==> (sum_nanos(durations@, durations@.len() as int) <= max_duration_nanos()
            && sum_nanos(durations@, durations@.len() as int) / 1_000_000 <= u64::MAX),
        r matches Some(c) ==> c == (Command::AddTimer {
            duration: (sum_nanos(durations@, durations@.len() as int) / 1_000_000) as u64,
        }),
{
    let mut total = Duration::from_secs(0);
    let mut i: usize = 0;
    while i < durations.len()
        invariant
            i <= durations@.len(),
            duration_nanos(total) == sum_nanos(durations@, i as int),
        decreases durations@.len() - i,
    {
        total = match total.checked_add(durations[i]) {
            Some(t) => t,
            None => {
                proof {
                    lemma_sum_grows(durations@, i + 1, durations@.len() as int);
                }
                return None;
            },
        };
        i = i + 1;
    }
    let millis = total.as_millis();
    if millis > u64::MAX as u128 {
        return None;
    }
    Some(Command::AddTimer { duration: millis as u64 })
}

/// The digits of a timer id as a user writes it, with or without `#`.
pub open spec fn id_digits(s: Seq<char>) -> Seq<char> {
    if s.len() > 0 && s[0] == '#' {
        s.drop_first()
    } else {
        s
    }
}

/// Reads a timer id such as `3` or `#3`.
pub fn parse_timer_id(text: &str) -> (r: Option<TimerId>)
    ensures
        r is Some <==> (id_digits(text@).len() > 0 && (forall|i: int|
            0 <= i < id_digits(text@).len() ==> is_digit(#[trigger] id_digits(text@)[i]))
            && decimal_value(id_digits(text@)) <= u64::MAX),
        r matches Some(id) ==> id.0 == decimal_value(id_digits(text@)),
{
    let n = text.unicode_len();
    let body = if n > 0 && text.get_char(0) == '#' {
        text.substring_char(1, n)
    } else {
        text.substring_char(0, n)
    };
    assert(body@ =~= id_digits(text@));
    let (count, rest) = split_component(body);
    if rest.unicode_len() != 0 {
        proof {
            if forall|i: int| 0 <= i < body@.len() ==> is_digit(#[trigger] body@[i]) {
                lemma_digit_count(body@, body@.len() as int);
            }
        }
        return None;
    }
    assert(count@ =~= body@);
    match parse_count(count) {
        Ok(v) => Some(TimerId(v)),
        Err(_) => None,
    }
}

} // verus!
