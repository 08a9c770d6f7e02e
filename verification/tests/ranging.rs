use sonic_ranger::ranging::convert_ticks;
use sonic_ranger::ranging::measure;
use sonic_ranger::ranging::measure_distance;
use sonic_ranger::ranging::reference_config;
use sonic_ranger::ranging::RangeConfig;
use sonic_ranger::ranging::RISE_TIMEOUT_TICKS;
use sonic_ranger::ranging::TICK_PERIOD_US;
use sonic_ranger::ranging::TRIGGER_PULSE_US;
use sonic_ranger::sim::EchoScript;
use sonic_ranger::sim::SimTimer;
use sonic_ranger::sim::TriggerLine;

fn run_reference_cycle(script: EchoScript) -> u16 {
    let mut timer = SimTimer::new();
    let mut trigger = TriggerLine::new();
    measure_distance(&mut timer, &mut trigger, script)
}

#[test]
fn t_reference_config_constants() {
    let cfg = reference_config();
    assert_eq!(cfg.timeout_ticks, 50_000);
    assert_eq!(cfg.tick_period, 4);
    assert_eq!(RISE_TIMEOUT_TICKS, 50_000);
    assert_eq!(TICK_PERIOD_US, 4);
    assert_eq!(TRIGGER_PULSE_US, 10);
}

#[test]
fn t_no_echo_returns_zero() {
    // The echo line stays low for the entire 50,000-tick window.
    let script = EchoScript { rise_at: None, high_ticks: 300 };
    assert_eq!(run_reference_cycle(script), 0);
}

#[test]
fn t_immediate_echo_hundred_ticks() {
    // Echo rises immediately after the trigger and falls after exactly
    // 100 ticks: 100 ticks x 4 us/tick.
    let script = EchoScript { rise_at: Some(0), high_ticks: 100 };
    assert_eq!(run_reference_cycle(script), 400);
}

#[test]
fn t_overlong_echo_collapses_to_zero() {
    // 20,000 ticks x 4 = 80,000 exceeds the 16-bit maximum: the saturated
    // product is treated as a bad reading.
    let script = EchoScript { rise_at: Some(0), high_ticks: 20_000 };
    assert_eq!(run_reference_cycle(script), 0);
}

#[test]
fn t_rise_one_tick_before_threshold() {
    // Echo rises exactly one tick before the timeout threshold: the cycle
    // proceeds normally into the fall wait.
    let script = EchoScript { rise_at: Some(49_999), high_ticks: 100 };
    assert_eq!(run_reference_cycle(script), 400);
}

#[test]
fn t_rise_past_threshold_times_out() {
    // Echo rises only after the counter has reached the threshold: the
    // timeout fires at exactly tick 50,000.
    let script = EchoScript { rise_at: Some(50_001), high_ticks: 5 };
    assert_eq!(run_reference_cycle(script), 0);
}

#[test]
fn t_zero_length_echo_reads_zero() {
    // A genuine zero-length echo shares the zero sentinel.
    let script = EchoScript { rise_at: Some(0), high_ticks: 0 };
    assert_eq!(run_reference_cycle(script), 0);
}

#[test]
fn t_two_cycles_identical() {
    // Two consecutive cycles over the same script, on the same timer and
    // trigger line, report the same value: no state leaks between cycles.
    let mut timer = SimTimer::new();
    let mut trigger = TriggerLine::new();
    let script = EchoScript { rise_at: Some(7), high_ticks: 250 };
    let first = measure_distance(&mut timer, &mut trigger, script);
    let second = measure_distance(&mut timer, &mut trigger, script);
    assert_eq!(first, 1000);
    assert_eq!(second, 1000);
}

#[test]
fn t_trigger_pulse_width() {
    // Whatever the echo does, each cycle holds the trigger line high for
    // exactly the fixed pulse width and leaves it low.
    let mut timer = SimTimer::new();
    let mut trigger = TriggerLine::new();
    let timed_out = EchoScript { rise_at: None, high_ticks: 0 };
    measure_distance(&mut timer, &mut trigger, timed_out);
    assert_eq!(trigger.held_high_us(), 10);
    assert!(!trigger.is_high());
    let measured = EchoScript { rise_at: Some(0), high_ticks: 40 };
    measure_distance(&mut timer, &mut trigger, measured);
    assert_eq!(trigger.held_high_us(), 20);
    assert!(!trigger.is_high());
}

#[test]
fn t_convert_exact_values() {
    assert_eq!(convert_ticks(100, 4), 400);
    assert_eq!(convert_ticks(0, 4), 0);
    // Largest non-saturating tick count at the reference period.
    assert_eq!(convert_ticks(16_383, 4), 65_532);
    // One more tick saturates and collapses to the sentinel.
    assert_eq!(convert_ticks(16_384, 4), 0);
    // A product that lands exactly on the maximum is a bad reading too.
    assert_eq!(convert_ticks(65_535, 1), 0);
    assert_eq!(convert_ticks(2, 7), 14);
}

#[test]
fn t_custom_configuration() {
    let cfg = RangeConfig { timeout_ticks: 10, tick_period: 2 };
    let mut timer = SimTimer::new();
    let mut trigger = TriggerLine::new();
    let in_window = EchoScript { rise_at: Some(5), high_ticks: 7 };
    assert_eq!(measure(&mut timer, &mut trigger, in_window, cfg), 14);
    let late = EchoScript { rise_at: Some(11), high_ticks: 7 };
    assert_eq!(measure(&mut timer, &mut trigger, late, cfg), 0);
    // A rise scripted exactly at the threshold wins the race: the echo
    // line is polled before the counter is compared.
    let at_threshold = EchoScript { rise_at: Some(10), high_ticks: 3 };
    assert_eq!(measure(&mut timer, &mut trigger, at_threshold, cfg), 6);
}

#[test]
fn t_timer_counts_and_saturates() {
    let mut timer = SimTimer::new();
    assert_eq!(timer.read(), 0);
    timer.advance();
    timer.advance();
    timer.advance();
    assert_eq!(timer.read(), 3);
    timer.reset();
    assert_eq!(timer.read(), 0);
    for _ in 0..70_000 {
        timer.advance();
    }
    assert_eq!(timer.read(), u16::MAX);
}
