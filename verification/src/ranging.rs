//! The timed ranging protocol: a four-phase cycle (arm, trigger, bounded
//! echo-rise wait, unbounded echo-fall wait) and the saturating conversion
//! of the elapsed tick count into the reported value.

use vstd::prelude::*;
use crate::sim::EchoScript;
use crate::sim::SimTimer;
use crate::sim::TriggerLine;

verus! {

/// Tick period of the reference configuration, in microseconds: the
/// hardware counter, prescaled from the system clock, advances once every
/// four microseconds.
pub const TICK_PERIOD_US: u16 = 4;

/// Rise timeout of the reference configuration, in ticks: the echo line
/// must go high within 50 000 ticks of arming — 200 ms at the reference
/// tick period, the sensor's maximum round-trip window.
pub const RISE_TIMEOUT_TICKS: u16 = 50_000;

/// Width of the trigger pulse, in microseconds: the sensor's minimum
/// trigger pulse requirement.
pub const TRIGGER_PULSE_US: u16 = 10;

/// Timing constants of one ranging channel: the rise-timeout threshold,
/// in ticks, and the tick period, in microseconds per tick. Both are fixed
/// before any cycle runs and are only meaningful for the counter
/// configuration they were derived from.
#[derive(Clone, Copy)]
pub struct RangeConfig {
    pub timeout_ticks: u16,
    pub tick_period: u16,
}

/// The reference configuration: 50 000-tick rise timeout at 4 µs per tick.
pub open spec fn spec_reference_config() -> RangeConfig {
    RangeConfig { timeout_ticks: RISE_TIMEOUT_TICKS, tick_period: TICK_PERIOD_US }
}

/// The reference configuration, as a value.
pub fn reference_config() -> (c: RangeConfig)
    ensures
        c == spec_reference_config(),
{
    RangeConfig { timeout_ticks: RISE_TIMEOUT_TICKS, tick_period: TICK_PERIOD_US }
}

/// Whether a cycle over this script times out waiting for the echo rise:
/// the scripted rise is absent, or comes only after the counter has
/// already reached the timeout threshold. A rise scripted exactly at the
/// threshold wins the race, because the protocol polls the echo line
/// before it compares the counter against the threshold.
pub open spec fn spec_timed_out(echo: EchoScript, cfg: RangeConfig) -> bool {
    match echo.rise_at {
        Some(r) => r > cfg.timeout_ticks,
        None => true,
    }
}

/// Elapsed ticks times the tick period, saturated at the counter maximum
/// instead of wrapping.
pub open spec fn spec_saturated_product(ticks: u16, period: u16) -> int {
    if ticks * period > u16::MAX {
        u16::MAX as int
    } else {
        ticks * period
    }
}

/// The conversion policy: the saturating product, with a product that
/// reaches the maximum representable value treated as a bad reading and
/// collapsed to the zero sentinel.
pub open spec fn spec_convert(ticks: u16, period: u16) -> u16 {
    if spec_saturated_product(ticks, period) == u16::MAX {
        0u16
    } else {
        spec_saturated_product(ticks, period) as u16
    }
}

/// The value one full ranging cycle reports for a given echo script: the
/// zero sentinel on a rise timeout, otherwise the converted fall-frame
/// tick count. The sentinel deliberately overloads "no target detected",
/// "overlong echo" and a genuine zero-length echo.
pub open spec fn spec_reading(echo: EchoScript, cfg: RangeConfig) -> u16 {
    if spec_timed_out(echo, cfg) {
        0u16
    } else {
        spec_convert(echo.high_ticks, cfg.tick_period)
    }
}

/// Convert a raw fall-frame tick count into the reported value: multiply
/// by the tick period with saturation, then collapse a maximal product to
/// the zero sentinel.
pub fn convert_ticks(ticks: u16, period: u16) -> (d: u16)
    ensures
        d == spec_convert(ticks, period),
{
    proof {
        assert(ticks * period <= u16::MAX * u16::MAX) by (nonlinear_arith)
            requires
                ticks <= u16::MAX,
                period <= u16::MAX,
        ;
    }
    let wide: u32 = (ticks as u32) * (period as u32);
    if wide >= u16::MAX as u32 {
        0
    } else {
        wide as u16
    }
}

/// One complete ranging cycle against the simulated platform, in four
/// strictly ordered phases: arm (zero the counter), trigger (hold the
/// trigger line high for the fixed pulse width), echo-rise wait (poll the
/// line, aborting with the zero sentinel once the counter reaches the
/// timeout threshold), and echo-fall wait (restart the counter, spin —
/// without any bound — until the line drops, then convert the elapsed
/// ticks). One poll of the echo line costs one tick of simulated time.
///
/// The reported value is fully determined by the echo script and the
/// configuration; the trigger line is held high for exactly
/// `TRIGGER_PULSE_US` microseconds and is low when the cycle ends. A
/// timed-out cycle never enters the fall wait: its counter ends at the
/// timeout threshold, still in the rise frame, while a measured cycle's
/// counter ends at the scripted fall tick.
#[verifier::loop_isolation(false)]
pub fn measure(timer: &mut SimTimer, trigger: &mut TriggerLine, echo: EchoScript, cfg: RangeConfig) -> (d: u16)
    requires
        !old(trigger).spec_is_high(),
        old(trigger).spec_held_high_us() + TRIGGER_PULSE_US <= u64::MAX,
    ensures
        d == spec_reading(echo, cfg),
        spec_timed_out(echo, cfg) ==> d == 0,
        !spec_timed_out(echo, cfg) && echo.high_ticks * cfg.tick_period < u16::MAX ==> d
            == echo.high_ticks * cfg.tick_period,
        echo.high_ticks * cfg.tick_period >= u16::MAX ==> d == 0,
        spec_timed_out(echo, cfg) ==> final(timer).spec_ticks() == cfg.timeout_ticks,
        !spec_timed_out(echo, cfg) ==> final(timer).spec_ticks() == echo.high_ticks,
        !final(trigger).spec_is_high(),
        final(trigger).spec_held_high_us() == old(trigger).spec_held_high_us()
            + TRIGGER_PULSE_US,
{
    // Arm: every cycle starts from a zeroed counter.
    timer.reset();

    // Trigger: hold the line high for the sensor's minimum pulse width.
    trigger.set_high();
    trigger.hold_us(TRIGGER_PULSE_US);
    trigger.set_low();

    // Echo-rise wait: poll the line while it reads low, giving up the
    // moment the counter reaches the timeout threshold.
    while echo.is_low_awaiting_rise(timer.read())
        invariant
            timer.spec_ticks() <= cfg.timeout_ticks,
            echo.rise_at matches Some(r) ==> timer.spec_ticks() <= r,
        decreases cfg.timeout_ticks - timer.spec_ticks(),
    {
        if timer.read() >= cfg.timeout_ticks {
            // No target within the round-trip window: the protocol's
            // single failure path.
            return 0;
        }
        timer.advance();
    }

    // Echo-fall wait: restart the measured interval, then spin until the
    // line drops. This wait is deliberately unbounded: a sensor that
    // never lowers the line stalls the cycle, by design.
    timer.reset();
    while echo.is_high_awaiting_fall(timer.read())
        invariant
            timer.spec_ticks() <= echo.high_ticks,
        decreases echo.high_ticks - timer.spec_ticks(),
    {
        timer.advance();
    }

    // Convert the elapsed ticks; a saturated or maximal product collapses
    // to the zero sentinel as a bad reading.
    convert_ticks(timer.read(), cfg.tick_period)
}

/// One ranging cycle under the reference configuration: 50 000-tick rise
/// timeout, 4 µs tick period. The reported value is the round-trip echo
/// time in microseconds (ticks × 4); no conversion to a physical distance
/// unit is applied.
pub fn measure_distance(timer: &mut SimTimer, trigger: &mut TriggerLine, echo: EchoScript) -> (d: u16)
    requires
        !old(trigger).spec_is_high(),
        old(trigger).spec_held_high_us() + TRIGGER_PULSE_US <= u64::MAX,
    ensures
        d == spec_reading(echo, spec_reference_config()),
        !final(trigger).spec_is_high(),
        final(trigger).spec_held_high_us() == old(trigger).spec_held_high_us()
            + TRIGGER_PULSE_US,
{
    let cfg = reference_config();
    measure(timer, trigger, echo, cfg)
}

/// Ranging cycles are independent: the reported value is a function of
/// the echo script and the timing configuration alone, so two cycles run
/// over the same script under the same configuration report the same
/// value — no timer or trigger state carries over between cycles.
pub proof fn lemma_cycles_independent(first: EchoScript, second: EchoScript, cfg: RangeConfig)
    requires
        first == second,
    ensures
        spec_reading(first, cfg) == spec_reading(second, cfg),
{
}

} // verus!

