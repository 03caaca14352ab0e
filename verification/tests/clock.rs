use lpc11uxx_hal::clock::ClockError;
use lpc11uxx_hal::clock::ClockSource;
use lpc11uxx_hal::clock::ClocksBuilder;
use lpc11uxx_hal::clock::FlashWaitStates;
use lpc11uxx_hal::clock::Hertz;
use lpc11uxx_hal::clock::PllInputSelect;
use lpc11uxx_hal::clock::WatchdogFrequency;
use lpc11uxx_hal::clock::calculate_m_p;
use lpc11uxx_hal::clock::flash_wait_states;
use lpc11uxx_hal::clock::quantize_watchdog;
use lpc11uxx_hal::clock::resolve_main_clock;
use lpc11uxx_hal::clock::uart_baud_divisors;
use lpc11uxx_hal::clock::watchdog_band_frequency;

#[test]
fn solver_comparator_lands_in_range() {
    // Whenever the solver succeeds, re-deriving the comparator
    // frequency from the returned post-divider lands in the valid band.
    for multiple in 1u64..=32 {
        let target = 12_000_000u64 * multiple;
        if target <= u32::MAX as u64 {
            if let Ok((m, p)) = calculate_m_p(Hertz(target as u32), None) {
                assert_eq!(m as u64, multiple - 1);
                let fcco = 2u64 * (1u64 << p) * target;
                assert!((156_000_000..320_000_000).contains(&fcco));
                // No smaller post-divider exponent would land in range.
                for q in 0..p {
                    let smaller = 2u64 * (1u64 << q) * target;
                    assert!(!(156_000_000..320_000_000).contains(&smaller));
                }
            }
        }
    }
}

#[test]
fn solver_round_trip_48_mhz() {
    // 48 MHz from the 12 MHz internal oscillator: multiple 4, so M = 3,
    // and P = 1 (192 MHz comparator), since P = 0 gives only 96 MHz.
    assert_eq!(calculate_m_p(Hertz(48_000_000), None), Ok((3, 1)));
}

#[test]
fn solver_crystal_input() {
    // 48 MHz from a 16 MHz crystal: multiple 3, M = 2, P = 1.
    assert_eq!(calculate_m_p(Hertz(48_000_000), Some(Hertz(16_000_000))), Ok((2, 1)));
}

#[test]
fn solver_rejects_non_multiple() {
    assert_eq!(
        calculate_m_p(Hertz(50_000_000), None),
        Err(ClockError::NotIntegerMultiple { target: Hertz(50_000_000), input: Hertz(12_000_000) })
    );
}

#[test]
fn solver_rejects_multiplier_out_of_range() {
    // 396 MHz = 33 x 12 MHz: the multiple no longer fits M's 5 bits.
    assert_eq!(
        calculate_m_p(Hertz(396_000_000), None),
        Err(ClockError::MultiplierOutOfRange { multiple: 33 })
    );
}

#[test]
fn solver_rejects_when_no_post_divider_fits() {
    // 168 MHz: even the smallest scale (2x) puts the comparator at
    // 336 MHz, past the top of the band.
    assert_eq!(
        calculate_m_p(Hertz(168_000_000), None),
        Err(ClockError::NoValidPostDivider { target: Hertz(168_000_000) })
    );
}

#[test]
fn watchdog_quantizer_picks_first_band_at_or_above_request() {
    // 1 MHz must select the 1.05 MHz band, never 0.6 MHz.
    let cfg = quantize_watchdog(Hertz(1_000_000)).unwrap();
    assert_eq!(cfg.band, WatchdogFrequency::Band1050Khz);
    assert_ne!(cfg.band, WatchdogFrequency::Band600Khz);
    assert_eq!(cfg.divisor, 1);
}

#[test]
fn watchdog_quantizer_edges() {
    assert_eq!(quantize_watchdog(Hertz(0)).unwrap().band, WatchdogFrequency::Band600Khz);
    assert_eq!(quantize_watchdog(Hertz(600_000)).unwrap().band, WatchdogFrequency::Band600Khz);
    assert_eq!(quantize_watchdog(Hertz(600_001)).unwrap().band, WatchdogFrequency::Band1050Khz);
    assert_eq!(quantize_watchdog(Hertz(4_600_000)).unwrap().band, WatchdogFrequency::Band4600Khz);
    assert_eq!(
        quantize_watchdog(Hertz(4_600_001)),
        Err(ClockError::FrequencyTooHigh { requested: Hertz(4_600_001) })
    );
}

#[test]
fn watchdog_band_frequencies() {
    assert_eq!(watchdog_band_frequency(WatchdogFrequency::Band600Khz), Hertz(600_000));
    assert_eq!(watchdog_band_frequency(WatchdogFrequency::Band1050Khz), Hertz(1_050_000));
    assert_eq!(watchdog_band_frequency(WatchdogFrequency::Band4600Khz), Hertz(4_600_000));
}

#[test]
fn flash_timing_thresholds() {
    assert_eq!(flash_wait_states(Hertz(19_000_000)), Ok(FlashWaitStates::One));
    assert_eq!(flash_wait_states(Hertz(30_000_000)), Ok(FlashWaitStates::Two));
    assert_eq!(flash_wait_states(Hertz(49_000_000)), Ok(FlashWaitStates::Three));
    assert_eq!(
        flash_wait_states(Hertz(51_000_000)),
        Err(ClockError::FrequencyExceedsFlashRating { system_clock: Hertz(51_000_000) })
    );
    assert_eq!(
        flash_wait_states(Hertz(50_000_000)),
        Err(ClockError::FrequencyExceedsFlashRating { system_clock: Hertz(50_000_000) })
    );
}

#[test]
fn resolver_internal_oscillator() {
    assert_eq!(resolve_main_clock(ClockSource::InternalOscillator, None, None, None), Ok(Hertz(12_000_000)));
}

#[test]
fn resolver_requires_pll() {
    assert_eq!(
        resolve_main_clock(ClockSource::PllInput, None, None, None),
        Err(ClockError::PllNotConfigured)
    );
    assert_eq!(
        resolve_main_clock(ClockSource::PllOutput, None, None, None),
        Err(ClockError::PllNotConfigured)
    );
}

#[test]
fn resolver_requires_watchdog() {
    assert_eq!(
        resolve_main_clock(ClockSource::WatchdogOscillator, None, None, None),
        Err(ClockError::WatchdogNotConfigured)
    );
}

#[test]
fn validate_default_request_runs_from_internal_oscillator() {
    let plan = ClocksBuilder::new(None).validate().unwrap();
    assert_eq!(plan.main_clock_source, ClockSource::InternalOscillator);
    assert_eq!(plan.system_pll, None);
    assert_eq!(plan.watchdog_osc, None);
    assert_eq!(plan.system_clock_div, 1);
    assert_eq!(plan.flash_wait_states, FlashWaitStates::One);
}

#[test]
fn validate_is_idempotent() {
    // Validating the same request twice yields bit-identical plans.
    let request = ClocksBuilder::new(None)
        .system_pll(PllInputSelect::InternalOscillator, Hertz(48_000_000))
        .main_clock(ClockSource::PllOutput)
        .system_clock(Hertz(12_000_000));
    let first = request.validate();
    let second = request.validate();
    assert_eq!(first, second);
    assert!(first.is_ok());
}

#[test]
fn validate_resolves_pll_output_plan() {
    let plan = ClocksBuilder::new(None)
        .system_pll(PllInputSelect::InternalOscillator, Hertz(48_000_000))
        .main_clock(ClockSource::PllOutput)
        .system_clock(Hertz(12_000_000))
        .validate()
        .unwrap();
    let pll = plan.system_pll.unwrap();
    assert_eq!(pll.input, PllInputSelect::InternalOscillator);
    assert_eq!(pll.m, 3);
    assert_eq!(pll.p, 1);
    assert_eq!(plan.system_clock_div, 4);
    // 12 MHz system clock: one flash wait-state.
    assert_eq!(plan.flash_wait_states, FlashWaitStates::One);
}

#[test]
fn validate_system_clock_divider() {
    // Main clock 48 MHz, target 12 MHz: divider exactly 4.
    let plan = ClocksBuilder::new(None)
        .system_pll(PllInputSelect::InternalOscillator, Hertz(48_000_000))
        .main_clock(ClockSource::PllOutput)
        .system_clock(Hertz(12_000_000))
        .validate()
        .unwrap();
    assert_eq!(plan.system_clock_div, 4);
    // Target 10 MHz does not divide 48 MHz.
    let err = ClocksBuilder::new(None)
        .system_pll(PllInputSelect::InternalOscillator, Hertz(48_000_000))
        .main_clock(ClockSource::PllOutput)
        .system_clock(Hertz(10_000_000))
        .validate()
        .unwrap_err();
    assert_eq!(
        err,
        ClockError::NotIntegerDivisible { main: Hertz(48_000_000), target: Hertz(10_000_000) }
    );
}

#[test]
fn validate_rejects_flash_overspeed() {
    // 60 MHz main clock with no divider request: system clock 60 MHz,
    // past the 50 MHz flash rating.
    let err = ClocksBuilder::new(None)
        .system_pll(PllInputSelect::InternalOscillator, Hertz(60_000_000))
        .main_clock(ClockSource::PllOutput)
        .validate()
        .unwrap_err();
    assert_eq!(err, ClockError::FrequencyExceedsFlashRating { system_clock: Hertz(60_000_000) });
}

#[test]
fn validate_requires_crystal_frequency() {
    let err = ClocksBuilder::new(None)
        .system_pll(PllInputSelect::ExternalCrystal, Hertz(48_000_000))
        .main_clock(ClockSource::PllOutput)
        .validate()
        .unwrap_err();
    assert_eq!(err, ClockError::MissingCrystalFrequency);
}

#[test]
fn validate_crystal_paths() {
    // PLL bypass: the main clock is the crystal itself.
    let plan = ClocksBuilder::new(Some(Hertz(16_000_000)))
        .system_pll(PllInputSelect::ExternalCrystal, Hertz(48_000_000))
        .main_clock(ClockSource::PllInput)
        .validate()
        .unwrap();
    let pll = plan.system_pll.unwrap();
    assert_eq!(pll.m, 2);
    assert_eq!(pll.p, 1);
    let (clocks, _periph) = plan.freeze().unwrap();
    assert_eq!(clocks.main_clock_freq(), Hertz(16_000_000));
    // PLL output: the crystal multiplied up to the target.
    let plan = ClocksBuilder::new(Some(Hertz(16_000_000)))
        .system_pll(PllInputSelect::ExternalCrystal, Hertz(48_000_000))
        .main_clock(ClockSource::PllOutput)
        .validate()
        .unwrap();
    let (clocks, _periph) = plan.freeze().unwrap();
    assert_eq!(clocks.main_clock_freq(), Hertz(48_000_000));
}

#[test]
fn validate_watchdog_source_without_request_fails() {
    // Selecting the watchdog oscillator without requesting it fails
    // with WatchdogNotConfigured, for various other parameters.
    let err = ClocksBuilder::new(None)
        .main_clock(ClockSource::WatchdogOscillator)
        .validate()
        .unwrap_err();
    assert_eq!(err, ClockError::WatchdogNotConfigured);
    let err = ClocksBuilder::new(Some(Hertz(16_000_000)))
        .main_clock(ClockSource::WatchdogOscillator)
        .system_clock(Hertz(1_000_000))
        .validate()
        .unwrap_err();
    assert_eq!(err, ClockError::WatchdogNotConfigured);
    let err = ClocksBuilder::new(None)
        .system_pll(PllInputSelect::InternalOscillator, Hertz(48_000_000))
        .main_clock(ClockSource::WatchdogOscillator)
        .validate()
        .unwrap_err();
    assert_eq!(err, ClockError::WatchdogNotConfigured);
}

#[test]
fn validate_pll_source_without_request_fails() {
    let err = ClocksBuilder::new(None)
        .main_clock(ClockSource::PllOutput)
        .validate()
        .unwrap_err();
    assert_eq!(err, ClockError::PllNotConfigured);
}

#[test]
fn validate_watchdog_plan_and_freeze() {
    // A 1 MHz watchdog request quantizes to the 1.05 MHz band; with the
    // divisor fixed at 1 the oscillator delivers 1.05 MHz / 4.
    let plan = ClocksBuilder::new(None)
        .watchdog_oscillator(Hertz(1_000_000))
        .main_clock(ClockSource::WatchdogOscillator)
        .validate()
        .unwrap();
    let cfg = plan.watchdog_osc.unwrap();
    assert_eq!(cfg.band, WatchdogFrequency::Band1050Khz);
    assert_eq!(cfg.divisor, 1);
    let (clocks, _periph) = plan.freeze().unwrap();
    assert_eq!(clocks.main_clock_freq(), Hertz(262_500));
}

#[test]
fn freeze_reports_resolved_frequency() {
    let plan = ClocksBuilder::new(None)
        .system_pll(PllInputSelect::InternalOscillator, Hertz(48_000_000))
        .main_clock(ClockSource::PllOutput)
        .system_clock(Hertz(12_000_000))
        .validate()
        .unwrap();
    let (clocks, _periph) = plan.freeze().unwrap();
    assert_eq!(clocks.main_clock_freq(), Hertz(48_000_000));
}

#[test]
fn peripheral_divider_from_frozen_clocks() {
    let plan = ClocksBuilder::new(None)
        .system_pll(PllInputSelect::InternalOscillator, Hertz(36_000_000))
        .main_clock(ClockSource::PllOutput)
        .validate()
        .unwrap();
    let (clocks, _periph) = plan.freeze().unwrap();
    assert_eq!(clocks.main_clock_freq(), Hertz(36_000_000));
    assert_eq!(clocks.peripheral_divider(Hertz(12_000_000)), Some(3));
    assert_eq!(clocks.peripheral_divider(Hertz(0)), None);
}

#[test]
fn usb_pll_parameters_follow_crystal_presence() {
    let plan = ClocksBuilder::new(None).validate().unwrap();
    let (clocks, _periph) = plan.freeze().unwrap();
    let params = clocks.usb_pll_parameters(Hertz(48_000_000)).unwrap();
    assert_eq!(params.input, PllInputSelect::InternalOscillator);
    assert_eq!(params.m, 3);
    assert_eq!(params.p, 1);
    let plan = ClocksBuilder::new(Some(Hertz(16_000_000))).validate().unwrap();
    let (clocks, _periph) = plan.freeze().unwrap();
    let params = clocks.usb_pll_parameters(Hertz(48_000_000)).unwrap();
    assert_eq!(params.input, PllInputSelect::ExternalCrystal);
    assert_eq!(params.m, 2);
    assert_eq!(params.p, 1);
}

#[test]
fn uart_baud_divisor_bytes() {
    // 12 MHz / (16 x 9600) = 78.125, truncated to 78 = (0, 78).
    assert_eq!(uart_baud_divisors(Hertz(12_000_000), Hertz(9_600)), Some((0, 78)));
    // 48 MHz / (16 x 10 kHz) = 300 = 1 * 256 + 44.
    assert_eq!(uart_baud_divisors(Hertz(48_000_000), Hertz(10_000)), Some((1, 44)));
    // A divisor past the 16-bit latch is refused.
    assert_eq!(uart_baud_divisors(Hertz(48_000_000), Hertz(2)), None);
    // A zero baud rate is refused.
    assert_eq!(uart_baud_divisors(Hertz(48_000_000), Hertz(0)), None);
}
