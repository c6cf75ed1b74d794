use vstd::prelude::*;

verus! {

/// How a running average takes in the value of one more candle.
#[derive(Debug, Clone, Copy, PartialEq, Eq, Structural)]
pub enum Smoothing {
    /// The value is the first one: the average is the value itself.
    First,
    /// The average is still being built: a plain mean of the values so far.
    Average,
    /// The average is complete: Wilder's smoothing over the period.
    Smooth,
}

/// The smoothing of the average true range for the candle at `index`: the first
/// candle seeds it, the candles before `period` build a plain mean, later candles are
/// smoothed.
pub open spec fn spec_atr_smoothing(index: usize, period: usize) -> Smoothing {
    if index < period {
        if index == 0 {
            Smoothing::First
        } else {
            Smoothing::Average
        }
    } else {
        Smoothing::Smooth
    }
}

pub fn atr_smoothing(index: usize, period: usize) -> (s: Smoothing)
    ensures
        s == spec_atr_smoothing(index, period),
        s == Smoothing::First <==> index == 0 && 0 < period,
        s == Smoothing::Average <==> 0 < index < period,
        s == Smoothing::Smooth <==> period <= index,
{
    if index < period {
        if index == 0 {
            Smoothing::First
        } else {
            Smoothing::Average
        }
    } else {
        Smoothing::Smooth
    }
}

/// How the relative strength index takes in the gain and loss of a candle that has a
/// predecessor.
#[derive(Debug, Clone, Copy, PartialEq, Eq, Structural)]
pub enum RsiPhase {
    /// Gains and losses are summed; on the last candle of the period the sums become
    /// averages and the first value is produced.
    Seed { finalize: bool },
    /// The averages are smoothed and a value is produced.
    Smooth,
}

pub open spec fn spec_rsi_phase(index: usize, period: usize) -> RsiPhase {
    if index < period {
        RsiPhase::Seed { finalize: index + 1 == period }
    } else {
        RsiPhase::Smooth
    }
}

pub fn rsi_phase(index: usize, period: usize) -> (p: RsiPhase)
    ensures
        p == spec_rsi_phase(index, period),
        p == RsiPhase::Smooth <==> period <= index,
        p matches RsiPhase::Seed { finalize } ==> index < period && (finalize <==> index + 1
            == period),
{
    if index < period {
        RsiPhase::Seed { finalize: index + 1 == period }
    } else {
        RsiPhase::Smooth
    }
}

/// Whether a phase produces a value.
pub open spec fn rsi_emits(p: RsiPhase) -> bool {
    match p {
        RsiPhase::Seed { finalize } => finalize,
        RsiPhase::Smooth => true,
    }
}

/// Law: the relative strength index has a value from the last candle of its first
/// period on, and none before.
pub proof fn law_rsi_values_start_after_period(index: usize, period: usize)
    ensures
        rsi_emits(spec_rsi_phase(index, period)) <==> index + 1 >= period,
{
}

/// The directional sums are built as plain sums over the first period and smoothed
/// afterwards.
pub fn adx_sums_smoothing(index: usize, period: usize) -> (s: Smoothing)
    ensures
        s == (if index < period {
            Smoothing::Average
        } else {
            Smoothing::Smooth
        }),
{
    if index < period {
        Smoothing::Average
    } else {
        Smoothing::Smooth
    }
}

/// What one directional-movement value does to the average directional index.
#[derive(Debug, Clone, Copy, PartialEq, Eq, Structural)]
pub struct DxStep {
    /// The number of directional-movement values taken in so far, this one included.
    pub dx_count: usize,
    /// Whether the index is still a mean of the first values or already smoothed.
    pub smoothing: Smoothing,
    /// Whether the index has a value after this step.
    pub emit: bool,
}

pub open spec fn spec_dx_step(index: usize, period: usize, dx_count: usize, tr_sum_positive: bool) -> Option<
    DxStep,
> {
    if index >= period && tr_sum_positive {
        let count = dx_count + 1;
        Some(
            DxStep {
                dx_count: count as usize,
                smoothing: if count <= period {
                    Smoothing::Average
                } else {
                    Smoothing::Smooth
                },
                emit: count >= period,
            },
        )
    } else {
        None
    }
}

/// A directional-movement value exists once the first period is over and the true
/// range sum is positive; the first `period` values are averaged, later ones smoothed,
/// and the index has a value from the `period`-th value on.
pub fn dx_step(index: usize, period: usize, dx_count: usize, tr_sum_positive: bool) -> (r: Option<
    DxStep,
>)
    requires
        dx_count < usize::MAX,
    ensures
        r == spec_dx_step(index, period, dx_count, tr_sum_positive),
        r is Some <==> period <= index && tr_sum_positive,
        r matches Some(s) ==> {
            &&& s.dx_count == dx_count + 1
            &&& s.emit <==> period <= dx_count + 1
            &&& s.smoothing == Smoothing::Average <==> dx_count + 1 <= period
            &&& s.smoothing == Smoothing::Smooth <==> period < dx_count + 1
        },
{
    if index >= period && tr_sum_positive {
        let count = dx_count + 1;
        Some(
            DxStep {
                dx_count: count,
                smoothing: if count <= period {
                    Smoothing::Average
                } else {
                    Smoothing::Smooth
                },
                emit: count >= period,
            },
        )
    } else {
        None
    }
}

/// Law: once the index has a value it keeps having one: a later step, which counts
/// one more value, emits too, and smoothing never goes back to averaging.
pub proof fn law_adx_keeps_emitting(
    index: usize,
    next_index: usize,
    period: usize,
    dx_count: usize,
    tr_positive: bool,
    next_tr_positive: bool,
)
    requires
        dx_count < usize::MAX - 1,
        spec_dx_step(index, period, dx_count, tr_positive) matches Some(s) && s.emit,
        next_index >= index,
        next_tr_positive,
    ensures
        spec_dx_step(next_index, period, (dx_count + 1) as usize, next_tr_positive) matches Some(
            t,
        ) && t.emit && t.dx_count == dx_count + 2,
        spec_dx_step(index, period, dx_count, tr_positive)->0.smoothing == Smoothing::Smooth
            ==> spec_dx_step(
            next_index,
            period,
            (dx_count + 1) as usize,
            next_tr_positive,
        )->0.smoothing == Smoothing::Smooth,
{
}

} // verus!
