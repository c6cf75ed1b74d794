use vstd::prelude::*;

verus! {

/// Candles are one minute long.
pub const CANDLE_SECONDS: u64 = 60;

/// The start of the minute that contains `time`.
pub open spec fn bucket_start(time: u64) -> int {
    (time / 60) * 60
}

/// What a tick does to the candle being built.
#[derive(Debug, Clone, Copy, PartialEq, Eq, Structural)]
pub enum TickStep {
    /// No candle was open: open one at `start` with the tick's price.
    Open { start: u64 },
    /// The tick falls inside the open candle: fold its price into it.
    Extend,
    /// The open candle is complete: close it and open a new one at `start`.
    CloseAndOpen { start: u64 },
}

pub open spec fn spec_tick_step(current_start: Option<u64>, time: u64) -> TickStep {
    match current_start {
        None => TickStep::Open { start: bucket_start(time) as u64 },
        Some(c) => if time >= c + 60 {
            TickStep::CloseAndOpen { start: bucket_start(time) as u64 }
        } else {
            TickStep::Extend
        },
    }
}

/// The start of the minute that contains `time`.
pub fn minute_start(time: u64) -> (s: u64)
    ensures
        s == bucket_start(time),
        s % 60 == 0,
        s <= time < s + 60,
{
    let s = (time / CANDLE_SECONDS) * CANDLE_SECONDS;
    assert(s == bucket_start(time));
    s
}

/// Decide what a tick at `time` does, given the start time of the open candle.
pub fn tick_step(current_start: Option<u64>, time: u64) -> (s: TickStep)
    requires
        current_start matches Some(c) ==> c + 60 <= u64::MAX,
    ensures
        s == spec_tick_step(current_start, time),
        current_start is None ==> (s matches TickStep::Open { start } && start % 60 == 0
            && start <= time < start + 60),
        current_start matches Some(c) && time >= c + 60 ==> (s matches TickStep::CloseAndOpen {
            start,
        } && start % 60 == 0 && start <= time < start + 60),
        current_start matches Some(c) && time < c + 60 ==> s == TickStep::Extend,
{
    let tick_minute = minute_start(time);
    match current_start {
        None => TickStep::Open { start: tick_minute },
        Some(c) => {
            if time >= c + CANDLE_SECONDS {
                TickStep::CloseAndOpen { start: tick_minute }
            } else {
                TickStep::Extend
            }
        },
    }
}

/// Law: a new candle starts on a whole minute that contains the tick; a tick that
/// closes a candle starting on a whole minute opens the next one at least a minute
/// later, and a tick that is folded in lies before the end of the open minute.
pub proof fn law_tick_buckets(current_start: Option<u64>, time: u64)
    requires
        current_start matches Some(c) ==> c % 60 == 0,
    ensures
        spec_tick_step(current_start, time) matches TickStep::Open { start } ==> start % 60 == 0
            && start <= time < start + 60,
        spec_tick_step(current_start, time) matches TickStep::CloseAndOpen { start } ==> start
            % 60 == 0 && start <= time < start + 60 && start >= current_start->0 + 60,
        spec_tick_step(current_start, time) == TickStep::Extend ==> time < current_start->0 + 60,
{
    let b = bucket_start(time);
    assert(b % 60 == 0 && b <= time < b + 60);
    if let Some(c) = current_start {
        if time >= c + 60 {
            assert(b >= c + 60) by {
                assert(c + 60 == ((c + 60) / 60) * 60);
                assert((c + 60) / 60 <= time / 60) by (nonlinear_arith)
                    requires
                        c + 60 <= time,
                        (c + 60) % 60 == 0,
                ;
            }
        }
    }
}

} // verus!
