use vstd::prelude::*;

verus! {

/// The kind and period of the short, medium and long moving averages.
#[derive(Debug, Clone)]
pub struct MaSettings {
    pub ema1_period: usize,
    pub ema1_type: String,
    pub ema2_period: usize,
    pub ema2_type: String,
    pub ema3_period: usize,
    pub ema3_type: String,
}

/// One moving-average configuration: its kind and period.
#[derive(Debug, Clone)]
pub struct MaConfig {
    pub ma_type: String,
    pub period: usize,
}

/// The settings after the configurations are applied in order: the first sets the
/// short average, the second the medium one, the third the long one; further
/// configurations are ignored and missing ones leave the base settings.
pub open spec fn applied(base: MaSettings, configs: Seq<MaConfig>) -> MaSettings {
    MaSettings {
        ema1_period: if configs.len() >= 1 { configs[0].period } else { base.ema1_period },
        ema1_type: if configs.len() >= 1 { configs[0].ma_type } else { base.ema1_type },
        ema2_period: if configs.len() >= 2 { configs[1].period } else { base.ema2_period },
        ema2_type: if configs.len() >= 2 { configs[1].ma_type } else { base.ema2_type },
        ema3_period: if configs.len() >= 3 { configs[2].period } else { base.ema3_period },
        ema3_type: if configs.len() >= 3 { configs[2].ma_type } else { base.ema3_type },
    }
}

pub fn apply_ma_configs(base: MaSettings, configs: &[MaConfig]) -> (s: MaSettings)
    ensures
        s == applied(base, configs@),
{
    let mut s = base;
    if configs.len() >= 1 {
        s.ema1_type = configs[0].ma_type.clone();
        s.ema1_period = configs[0].period;
    }
    if configs.len() >= 2 {
        s.ema2_type = configs[1].ma_type.clone();
        s.ema2_period = configs[1].period;
    }
    if configs.len() >= 3 {
        s.ema3_type = configs[2].ma_type.clone();
        s.ema3_period = configs[2].period;
    }
    s
}

/// The number of closing prices that the moving averages keep: twice the longest
/// period.
pub fn ma_window_capacity(ema1_period: usize, ema2_period: usize, ema3_period: usize) -> (n: usize)
    requires
        2 * ema1_period <= usize::MAX,
        2 * ema2_period <= usize::MAX,
        2 * ema3_period <= usize::MAX,
    ensures
        n == 2 * vstd::math::max(vstd::math::max(ema1_period as int, ema2_period as int), ema3_period as int),
{
    let mut m = ema1_period;
    if ema2_period > m {
        m = ema2_period;
    }
    if ema3_period > m {
        m = ema3_period;
    }
    m * 2
}

/// The sum of the weights 1, 2, ..., `period` of a weighted moving average.
pub open spec fn weight_sum(period: nat) -> nat
    decreases period,
{
    if period == 0 {
        0
    } else {
        period + weight_sum((period - 1) as nat)
    }
}

/// The denominator of a weighted moving average over `period` values.
pub fn wma_weight_total(period: usize) -> (n: usize)
    requires
        period * (period + 1) <= usize::MAX,
    ensures
        n == period * (period + 1) / 2,
        n == weight_sum(period as nat),
{
    proof {
        law_weight_sum_closed_form(period as nat);
    }
    period * (period + 1) / 2
}

/// Law: the weights 1 to `period` add up to `period * (period + 1) / 2`.
pub proof fn law_weight_sum_closed_form(period: nat)
    ensures
        2 * weight_sum(period) == period * (period + 1),
        weight_sum(period) == period * (period + 1) / 2,
    decreases period,
{
    if period > 0 {
        let q = (period - 1) as nat;
        law_weight_sum_closed_form(q);
        assert(period * (period + 1) == q * (q + 1) + 2 * period) by (nonlinear_arith)
            requires
                q + 1 == period,
        ;
        assert(weight_sum(period) == period + weight_sum(q));
        assert(2 * weight_sum(q) == q * (q + 1));
    } else {
        assert(period * (period + 1) == 0) by (nonlinear_arith)
            requires
                period == 0,
        ;
    }
    let p = period * (period + 1);
    let w = weight_sum(period);
    assert(w == p / 2) by (nonlinear_arith)
        requires
            2 * w == p,
    ;
}

} // verus!
