//! Pulse arithmetic of the software PWM servo signal.
//!
//! A target angle clamped to 0..=120 degrees maps linearly onto a pulse
//! width between a configured minimum and maximum; the pin stays high
//! for that width and low for the remainder of a fixed period.  The
//! busy-wait that realises the two phases belongs to the caller, who
//! owns the clock and the pin; the arithmetic is here.

use vstd::prelude::*;
use vstd::arithmetic::div_mod::{
    lemma_div_basics,
    lemma_div_denominator,
    lemma_div_is_ordered,
    lemma_div_multiples_vanish,
    lemma_div_pos_is_pos,
};
use vstd::arithmetic::mul::lemma_mul_inequality;

verus! {

/// Period of the servo signal in microseconds: 20 ms, i.e. 50 Hz.
pub const DEFAULT_PERIOD_US: u32 = 20_000;

/// Pulse width at 0 degrees, in microseconds.
pub const DEFAULT_MIN_PULSE_US: u32 = 500;

/// Pulse width at 120 degrees, in microseconds.
pub const DEFAULT_MAX_PULSE_US: u32 = 2_500;

/// Widest angle the servo is driven to, in degrees.
pub const FULL_SCALE_DEG: i32 = 120;

/// Timing of the servo signal.
pub struct PwmConfig {
    /// Length of one high/low cycle, in microseconds.
    pub period_us: u32,
    /// Pulse width at 0 degrees, in microseconds.
    pub min_us: u32,
    /// Pulse width at full scale, in microseconds.
    pub max_us: u32,
}

impl PwmConfig {
    /// A usable timing: the pulse range is ordered and the widest pulse
    /// still fits inside one period.
    pub open spec fn wf(self) -> bool {
        self.min_us <= self.max_us <= self.period_us
    }
}

impl Default for PwmConfig {
    /// The stock servo timing: 50 Hz, 500 µs at 0 degrees, 2500 µs at
    /// 120 degrees.
    fn default() -> (cfg: Self)
        ensures
            cfg.period_us == DEFAULT_PERIOD_US,
            cfg.min_us == DEFAULT_MIN_PULSE_US,
            cfg.max_us == DEFAULT_MAX_PULSE_US,
            cfg.wf(),
    {
        PwmConfig {
            period_us: DEFAULT_PERIOD_US,
            min_us: DEFAULT_MIN_PULSE_US,
            max_us: DEFAULT_MAX_PULSE_US,
        }
    }
}

/// An angle clamped to the servo's 0..=120 degree range.
pub open spec fn clamp_angle(deg: i32) -> int {
    if deg < 0 {
        0
    } else if deg > FULL_SCALE_DEG {
        FULL_SCALE_DEG as int
    } else {
        deg as int
    }
}

/// The pulse width an angle maps to: linear between the configured
/// minimum at 0 degrees and maximum at 120 degrees.
pub open spec fn pulse_spec(cfg: PwmConfig, deg: i32) -> int {
    cfg.min_us + clamp_angle(deg) * (cfg.max_us - cfg.min_us) / (FULL_SCALE_DEG as int)
}

/// Map an angle onto its pulse width under the given timing.
pub fn pulse_for_angle(cfg: &PwmConfig, deg: i32) -> (pulse_us: u32)
    requires
        cfg.wf(),
    ensures
        pulse_us == pulse_spec(*cfg, deg),
        cfg.min_us <= pulse_us <= cfg.max_us,
{
    let clamped: u32 = if deg < 0 {
        0
    } else if deg > FULL_SCALE_DEG {
        FULL_SCALE_DEG as u32
    } else {
        deg as u32
    };
    let span: u32 = cfg.max_us - cfg.min_us;
    proof {
        lemma_mul_inequality(clamped as int, FULL_SCALE_DEG as int, span as int);
        lemma_mul_inequality(0, clamped as int, span as int);
        lemma_div_is_ordered(
            (clamped as int) * (span as int),
            (FULL_SCALE_DEG as int) * (span as int),
            FULL_SCALE_DEG as int,
        );
        lemma_div_multiples_vanish(span as int, FULL_SCALE_DEG as int);
        lemma_div_pos_is_pos((clamped as int) * (span as int), FULL_SCALE_DEG as int);
    }
    let scaled: u64 = (clamped as u64) * (span as u64) / (FULL_SCALE_DEG as u64);
    cfg.min_us + (scaled as u32)
}

/// Map an angle onto its pulse width under the stock timing: 500 µs at 0
/// degrees, 2500 µs at 120 degrees, linear in between.
pub fn deg_to_pulse_us(deg: i32) -> (pulse_us: u32)
    ensures
        pulse_us == pulse_spec(
            PwmConfig {
                period_us: DEFAULT_PERIOD_US,
                min_us: DEFAULT_MIN_PULSE_US,
                max_us: DEFAULT_MAX_PULSE_US,
            },
            deg,
        ),
        DEFAULT_MIN_PULSE_US <= pulse_us <= DEFAULT_MAX_PULSE_US,
{
    let cfg = PwmConfig::default();
    pulse_for_angle(&cfg, deg)
}

/// The high and low phase of one PWM cycle for an angle: high for the
/// pulse width, low for the rest of the period, together exactly one
/// period.
pub fn phase_durations(cfg: &PwmConfig, deg: i32) -> (phases: (u32, u32))
    requires
        cfg.wf(),
    ensures
        phases.0 == pulse_spec(*cfg, deg),
        phases.0 + phases.1 == cfg.period_us,
{
    let high = pulse_for_angle(cfg, deg);
    (high, cfg.period_us - high)
}

/// The pulse mapping meets its anchors under every usable timing: the
/// configured minimum at 0 degrees, the configured maximum at 120
/// degrees, and the midpoint of the range at 60 degrees.
pub proof fn lemma_pulse_band_anchors(cfg: PwmConfig)
    requires
        cfg.wf(),
    ensures
        pulse_spec(cfg, 0) == cfg.min_us,
        pulse_spec(cfg, 120) == cfg.max_us,
        pulse_spec(cfg, 60) == cfg.min_us + (cfg.max_us - cfg.min_us) / 2,
{
    let span = cfg.max_us - cfg.min_us;
    lemma_div_basics(FULL_SCALE_DEG as int);
    assert(0 * span == 0);
    assert(0int / (FULL_SCALE_DEG as int) == 0);
    lemma_div_multiples_vanish(span, 120);
    lemma_div_multiples_vanish(span, 60);
    lemma_div_denominator(60 * span, 60, 2);
}

} // verus!
