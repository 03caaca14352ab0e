//! Clock-tree configuration for the LPC11UXX.
//!
//! The LPC11UXX derives its main clock from one of four sources: the
//! internal RC oscillator (IRC, 12 MHz), the system PLL's input, the
//! system PLL's output, or the watchdog oscillator. The main clock
//! feeds an integer divider that produces the system clock, and the
//! flash controller's wait-state setting must scale with the system
//! clock frequency.
//!
//! A [`ClocksBuilder`] accumulates a declarative request for this tree.
//! [`ClocksBuilder::validate`] resolves the whole tree — PLL multiplier
//! and post-divider, watchdog-oscillator band, system-clock divider and
//! flash timing — into an immutable [`ClocksDescriptor`], or rejects the
//! request with a [`ClockError`] naming the offending value. Resolution
//! is a pure function of the request: it can run speculatively, long
//! before any hardware register is written.

use vstd::prelude::*;
use vstd::arithmetic::div_mod::lemma_fundamental_div_mod;

verus! {

/// A frequency in hertz.
#[derive(Clone, Copy, Debug, PartialEq, Eq, Structural)]
pub struct Hertz(pub u32);

/// Frequency of the internal RC oscillator (IRC), in hertz.
pub const IRC_OSCILLATOR_FREQUENCY: u32 = 12_000_000;

/// Selector for the main clock multiplexer.
#[derive(Clone, Copy, Debug, PartialEq, Eq, Structural)]
pub enum ClockSource {
    /// The internal 12 MHz RC oscillator.
    InternalOscillator,
    /// The system PLL's input clock (PLL bypass).
    PllInput,
    /// The system PLL's output clock.
    PllOutput,
    /// The watchdog oscillator.
    WatchdogOscillator,
}

/// Selector for the system PLL's input clock.
#[derive(Clone, Copy, Debug, PartialEq, Eq, Structural)]
pub enum PllInputSelect {
    /// The internal 12 MHz RC oscillator.
    InternalOscillator,
    /// An external crystal whose frequency the user supplies.
    ExternalCrystal,
}

/// Resolved system PLL parameters.
///
/// The PLL multiplies its input frequency by `m + 1`. The post-divider
/// exponent `p` does not change the output frequency; it scales the
/// PLL's internal comparator frequency (FCCO), `2 * 2^p * output`,
/// which must lie in `[156 MHz, 320 MHz)`.
#[derive(Clone, Copy, Debug, PartialEq, Eq, Structural)]
pub struct PllParameters {
    /// Input clock selector.
    pub input: PllInputSelect,
    /// Feedback multiplier value M; the output is `input * (m + 1)`.
    pub m: u8,
    /// Post-divider exponent P, in `0..=3`.
    pub p: u8,
}

/// The fifteen discrete frequency bands of the watchdog oscillator.
#[derive(Clone, Copy, Debug, PartialEq, Eq, Structural)]
pub enum WatchdogFrequency {
    Band600Khz,
    Band1050Khz,
    Band1400Khz,
    Band1750Khz,
    Band2100Khz,
    Band2400Khz,
    Band2700Khz,
    Band3000Khz,
    Band3250Khz,
    Band3500Khz,
    Band3750Khz,
    Band4000Khz,
    Band4200Khz,
    Band4400Khz,
    Band4600Khz,
}

/// Resolved watchdog-oscillator configuration.
///
/// The oscillator's output is `band / (2 * (1 + divisor))`.
#[derive(Clone, Copy, Debug, PartialEq, Eq, Structural)]
pub struct WatchdogOscillatorConfig {
    /// Selected frequency band.
    pub band: WatchdogFrequency,
    /// Output divisor; the output is the band frequency divided by
    /// `2 * (1 + divisor)`.
    pub divisor: u8,
}

/// Flash wait-state setting: how many system-clock cycles each flash
/// access takes.
#[derive(Clone, Copy, Debug, PartialEq, Eq, Structural)]
pub enum FlashWaitStates {
    /// One cycle, for system clocks below 20 MHz.
    One,
    /// Two cycles, for system clocks below 40 MHz.
    Two,
    /// Three cycles, for system clocks below 50 MHz.
    Three,
}

/// A clock-tree request that cannot be satisfied, with the offending
/// value attached.
#[derive(Clone, Copy, Debug, PartialEq, Eq, Structural)]
pub enum ClockError {
    /// The main clock selects the PLL, but no PLL was requested.
    PllNotConfigured,
    /// The main clock selects the watchdog oscillator, but no watchdog
    /// oscillator target was requested.
    WatchdogNotConfigured,
    /// The external crystal is selected as the PLL input, but its
    /// frequency was not supplied.
    MissingCrystalFrequency,
    /// The PLL target frequency is not an integer multiple of the PLL
    /// input frequency.
    NotIntegerMultiple { target: Hertz, input: Hertz },
    /// The ratio of PLL target to input frequency does not fit the
    /// 5-bit multiplier field.
    MultiplierOutOfRange { multiple: u32 },
    /// No post-divider exponent puts the PLL comparator frequency in
    /// its valid band for this target frequency.
    NoValidPostDivider { target: Hertz },
    /// The requested watchdog-oscillator frequency exceeds the highest
    /// band.
    FrequencyTooHigh { requested: Hertz },
    /// The requested system clock does not divide the main clock
    /// exactly.
    NotIntegerDivisible { main: Hertz, target: Hertz },
    /// The resolved system clock is too fast for any flash wait-state
    /// setting.
    FrequencyExceedsFlashRating { system_clock: Hertz },
}

// --------------------------------------------------------------------
// PLL parameter solver
// --------------------------------------------------------------------

/// Scale factor `2 * 2^p` applied to the PLL output frequency to obtain
/// the comparator frequency, for a post-divider exponent `p` in `0..=3`.
pub open spec fn spec_pll_post_scale(p: int) -> int {
    if p == 0 {
        2
    } else if p == 1 {
        4
    } else if p == 2 {
        8
    } else {
        16
    }
}

/// The PLL comparator frequency (FCCO) for post-divider exponent `p`
/// and output frequency `target`.
pub open spec fn spec_fcco(p: int, target: int) -> int {
    spec_pll_post_scale(p) * target
}

/// Whether the comparator frequency lies in its valid band.
pub open spec fn spec_fcco_in_range(p: int, target: int) -> bool {
    156_000_000 <= spec_fcco(p, target) && spec_fcco(p, target) < 320_000_000
}

/// The smallest post-divider exponent in `0..=3` that puts the
/// comparator frequency in range, if any. Smaller exponents draw less
/// power, so the search ascends.
pub open spec fn spec_select_post_divider(target: int) -> Option<int> {
    if spec_fcco_in_range(0, target) {
        Some(0)
    } else if spec_fcco_in_range(1, target) {
        Some(1)
    } else if spec_fcco_in_range(2, target) {
        Some(2)
    } else if spec_fcco_in_range(3, target) {
        Some(3)
    } else {
        None
    }
}

/// The PLL input frequency implied by an optional external crystal:
/// the crystal's frequency if one is given, else the internal
/// oscillator's.
pub open spec fn spec_pll_input_frequency(sys_osc: Option<Hertz>) -> Hertz {
    match sys_osc {
        Some(f) => f,
        None => Hertz(IRC_OSCILLATOR_FREQUENCY),
    }
}

/// Mathematical contract of the PLL parameter solver: the `(m, p)` pair
/// for `target`, or the error that rules it out.
pub open spec fn spec_calculate_m_p(target: Hertz, sys_osc: Option<Hertz>) -> Result<
    (u8, u8),
    ClockError,
> {
    let input = spec_pll_input_frequency(sys_osc);
    if input.0 == 0 || target.0 as int % input.0 as int != 0 {
        Err(ClockError::NotIntegerMultiple { target, input })
    } else {
        let multiple = target.0 as int / input.0 as int;
        if multiple < 1 || multiple > 32 {
            Err(ClockError::MultiplierOutOfRange { multiple: multiple as u32 })
        } else {
            match spec_select_post_divider(target.0 as int) {
                Some(p) => Ok(((multiple - 1) as u8, p as u8)),
                None => Err(ClockError::NoValidPostDivider { target }),
            }
        }
    }
}

/// Solves for the system PLL's multiplier and post-divider.
///
/// The input frequency is the supplied crystal frequency, or the
/// internal oscillator's 12 MHz when `sys_osc` is `None`. The target
/// must be an exact integer multiple of the input, the multiplier must
/// fit its 5-bit field, and some post-divider exponent in `0..=3` must
/// put the comparator frequency in `[156 MHz, 320 MHz)`; the exponent
/// returned is the smallest that does.
pub fn calculate_m_p(freq: Hertz, sys_osc: Option<Hertz>) -> (r: Result<(u8, u8), ClockError>)
    ensures
        r == spec_calculate_m_p(freq, sys_osc),
{
    let input: u32 = match sys_osc {
        Some(f) => f.0,
        None => IRC_OSCILLATOR_FREQUENCY,
    };
    if input == 0 || freq.0 % input != 0 {
        return Err(ClockError::NotIntegerMultiple { target: freq, input: Hertz(input) });
    }
    let multiple: u32 = freq.0 / input;
    if multiple < 1 || multiple > 32 {
        return Err(ClockError::MultiplierOutOfRange { multiple });
    }
    let m: u8 = (multiple - 1) as u8;
    let target: u64 = freq.0 as u64;
    if 156_000_000 <= 2 * target && 2 * target < 320_000_000 {
        Ok((m, 0))
    } else if 156_000_000 <= 4 * target && 4 * target < 320_000_000 {
        Ok((m, 1))
    } else if 156_000_000 <= 8 * target && 8 * target < 320_000_000 {
        Ok((m, 2))
    } else if 156_000_000 <= 16 * target && 16 * target < 320_000_000 {
        Ok((m, 3))
    } else {
        Err(ClockError::NoValidPostDivider { target: freq })
    }
}

// --------------------------------------------------------------------
// Watchdog oscillator quantizer
// --------------------------------------------------------------------

/// Nominal frequency of a watchdog-oscillator band, in hertz.
pub open spec fn spec_band_frequency(band: WatchdogFrequency) -> int {
    match band {
        WatchdogFrequency::Band600Khz => 600_000,
        WatchdogFrequency::Band1050Khz => 1_050_000,
        WatchdogFrequency::Band1400Khz => 1_400_000,
        WatchdogFrequency::Band1750Khz => 1_750_000,
        WatchdogFrequency::Band2100Khz => 2_100_000,
        WatchdogFrequency::Band2400Khz => 2_400_000,
        WatchdogFrequency::Band2700Khz => 2_700_000,
        WatchdogFrequency::Band3000Khz => 3_000_000,
        WatchdogFrequency::Band3250Khz => 3_250_000,
        WatchdogFrequency::Band3500Khz => 3_500_000,
        WatchdogFrequency::Band3750Khz => 3_750_000,
        WatchdogFrequency::Band4000Khz => 4_000_000,
        WatchdogFrequency::Band4200Khz => 4_200_000,
        WatchdogFrequency::Band4400Khz => 4_400_000,
        WatchdogFrequency::Band4600Khz => 4_600_000,
    }
}

/// Nominal frequency of a watchdog-oscillator band.
pub fn watchdog_band_frequency(band: WatchdogFrequency) -> (r: Hertz)
    ensures
        r.0 == spec_band_frequency(band),
{
    match band {
        WatchdogFrequency::Band600Khz => Hertz(600_000),
        WatchdogFrequency::Band1050Khz => Hertz(1_050_000),
        WatchdogFrequency::Band1400Khz => Hertz(1_400_000),
        WatchdogFrequency::Band1750Khz => Hertz(1_750_000),
        WatchdogFrequency::Band2100Khz => Hertz(2_100_000),
        WatchdogFrequency::Band2400Khz => Hertz(2_400_000),
        WatchdogFrequency::Band2700Khz => Hertz(2_700_000),
        WatchdogFrequency::Band3000Khz => Hertz(3_000_000),
        WatchdogFrequency::Band3250Khz => Hertz(3_250_000),
        WatchdogFrequency::Band3500Khz => Hertz(3_500_000),
        WatchdogFrequency::Band3750Khz => Hertz(3_750_000),
        WatchdogFrequency::Band4000Khz => Hertz(4_000_000),
        WatchdogFrequency::Band4200Khz => Hertz(4_200_000),
        WatchdogFrequency::Band4400Khz => Hertz(4_400_000),
        WatchdogFrequency::Band4600Khz => Hertz(4_600_000),
    }
}

/// Mathematical contract of the watchdog quantizer: the first band
/// whose nominal frequency is at least the request, with the divisor
/// fixed at 1, or `FrequencyTooHigh` when the request exceeds the top
/// band.
pub open spec fn spec_quantize_watchdog(requested: Hertz) -> Result<
    WatchdogOscillatorConfig,
    ClockError,
> {
    if requested.0 <= 600_000 {
        Ok(WatchdogOscillatorConfig { band: WatchdogFrequency::Band600Khz, divisor: 1 })
    } else if requested.0 <= 1_050_000 {
        Ok(WatchdogOscillatorConfig { band: WatchdogFrequency::Band1050Khz, divisor: 1 })
    } else if requested.0 <= 1_400_000 {
        Ok(WatchdogOscillatorConfig { band: WatchdogFrequency::Band1400Khz, divisor: 1 })
    } else if requested.0 <= 1_750_000 {
        Ok(WatchdogOscillatorConfig { band: WatchdogFrequency::Band1750Khz, divisor: 1 })
    } else if requested.0 <= 2_100_000 {
        Ok(WatchdogOscillatorConfig { band: WatchdogFrequency::Band2100Khz, divisor: 1 })
    } else if requested.0 <= 2_400_000 {
        Ok(WatchdogOscillatorConfig { band: WatchdogFrequency::Band2400Khz, divisor: 1 })
    } else if requested.0 <= 2_700_000 {
        Ok(WatchdogOscillatorConfig { band: WatchdogFrequency::Band2700Khz, divisor: 1 })
    } else if requested.0 <= 3_000_000 {
        Ok(WatchdogOscillatorConfig { band: WatchdogFrequency::Band3000Khz, divisor: 1 })
    } else if requested.0 <= 3_250_000 {
        Ok(WatchdogOscillatorConfig { band: WatchdogFrequency::Band3250Khz, divisor: 1 })
    } else if requested.0 <= 3_500_000 {
        Ok(WatchdogOscillatorConfig { band: WatchdogFrequency::Band3500Khz, divisor: 1 })
    } else if requested.0 <= 3_750_000 {
        Ok(WatchdogOscillatorConfig { band: WatchdogFrequency::Band3750Khz, divisor: 1 })
    } else if requested.0 <= 4_000_000 {
        Ok(WatchdogOscillatorConfig { band: WatchdogFrequency::Band4000Khz, divisor: 1 })
    } else if requested.0 <= 4_200_000 {
        Ok(WatchdogOscillatorConfig { band: WatchdogFrequency::Band4200Khz, divisor: 1 })
    } else if requested.0 <= 4_400_000 {
        Ok(WatchdogOscillatorConfig { band: WatchdogFrequency::Band4400Khz, divisor: 1 })
    } else if requested.0 <= 4_600_000 {
        Ok(WatchdogOscillatorConfig { band: WatchdogFrequency::Band4600Khz, divisor: 1 })
    } else {
        Err(ClockError::FrequencyTooHigh { requested })
    }
}

/// Quantizes a requested watchdog-oscillator frequency to the smallest
/// supported band whose nominal frequency is at least the request.
///
/// The output divisor is fixed at 1, so the oscillator's actual output
/// is the band frequency divided by 4; searching divisors for the
/// smallest quantization error is a possible refinement, not done here.
pub fn quantize_watchdog(requested: Hertz) -> (r: Result<WatchdogOscillatorConfig, ClockError>)
    ensures
        r == spec_quantize_watchdog(requested),
{
    if requested.0 <= 600_000 {
        Ok(WatchdogOscillatorConfig { band: WatchdogFrequency::Band600Khz, divisor: 1 })
    } else if requested.0 <= 1_050_000 {
        Ok(WatchdogOscillatorConfig { band: WatchdogFrequency::Band1050Khz, divisor: 1 })
    } else if requested.0 <= 1_400_000 {
        Ok(WatchdogOscillatorConfig { band: WatchdogFrequency::Band1400Khz, divisor: 1 })
    } else if requested.0 <= 1_750_000 {
        Ok(WatchdogOscillatorConfig { band: WatchdogFrequency::Band1750Khz, divisor: 1 })
    } else if requested.0 <= 2_100_000 {
        Ok(WatchdogOscillatorConfig { band: WatchdogFrequency::Band2100Khz, divisor: 1 })
    } else if requested.0 <= 2_400_000 {
        Ok(WatchdogOscillatorConfig { band: WatchdogFrequency::Band2400Khz, divisor: 1 })
    } else if requested.0 <= 2_700_000 {
        Ok(WatchdogOscillatorConfig { band: WatchdogFrequency::Band2700Khz, divisor: 1 })
    } else if requested.0 <= 3_000_000 {
        Ok(WatchdogOscillatorConfig { band: WatchdogFrequency::Band3000Khz, divisor: 1 })
    } else if requested.0 <= 3_250_000 {
        Ok(WatchdogOscillatorConfig { band: WatchdogFrequency::Band3250Khz, divisor: 1 })
    } else if requested.0 <= 3_500_000 {
        Ok(WatchdogOscillatorConfig { band: WatchdogFrequency::Band3500Khz, divisor: 1 })
    } else if requested.0 <= 3_750_000 {
        Ok(WatchdogOscillatorConfig { band: WatchdogFrequency::Band3750Khz, divisor: 1 })
    } else if requested.0 <= 4_000_000 {
        Ok(WatchdogOscillatorConfig { band: WatchdogFrequency::Band4000Khz, divisor: 1 })
    } else if requested.0 <= 4_200_000 {
        Ok(WatchdogOscillatorConfig { band: WatchdogFrequency::Band4200Khz, divisor: 1 })
    } else if requested.0 <= 4_400_000 {
        Ok(WatchdogOscillatorConfig { band: WatchdogFrequency::Band4400Khz, divisor: 1 })
    } else if requested.0 <= 4_600_000 {
        Ok(WatchdogOscillatorConfig { band: WatchdogFrequency::Band4600Khz, divisor: 1 })
    } else {
        Err(ClockError::FrequencyTooHigh { requested })
    }
}

/// Law of the watchdog quantizer: on success the divisor is fixed at
/// 1 and the selected band is the smallest whose nominal frequency
/// reaches the request — strictly "first band at or above the
/// request", never "nearest" — and failure occurs exactly when the
/// request exceeds the top band.
pub proof fn lemma_quantizer_selects_first_band(requested: Hertz)
    ensures
        match spec_quantize_watchdog(requested) {
            Ok(cfg) => {
                &&& cfg.divisor == 1
                &&& spec_band_frequency(cfg.band) >= requested.0
                &&& forall|other: WatchdogFrequency|
                    #[trigger] spec_band_frequency(other) >= requested.0 ==> spec_band_frequency(
                        cfg.band,
                    ) <= spec_band_frequency(other)
            },
            Err(e) => requested.0 > 4_600_000 && e == (ClockError::FrequencyTooHigh { requested }),
        },
{
}

// --------------------------------------------------------------------
// Flash timing
// --------------------------------------------------------------------

/// Mathematical contract of flash-timing selection over the system
/// clock frequency.
pub open spec fn spec_flash_wait_states(system_clock: Hertz) -> Result<
    FlashWaitStates,
    ClockError,
> {
    if system_clock.0 < 20_000_000 {
        Ok(FlashWaitStates::One)
    } else if system_clock.0 < 40_000_000 {
        Ok(FlashWaitStates::Two)
    } else if system_clock.0 < 50_000_000 {
        Ok(FlashWaitStates::Three)
    } else {
        Err(ClockError::FrequencyExceedsFlashRating { system_clock })
    }
}

/// Selects the flash wait-state setting for a system clock frequency:
/// one cycle below 20 MHz, two below 40 MHz, three below 50 MHz;
/// anything at or above 50 MHz exceeds the flash rating.
pub fn flash_wait_states(system_clock: Hertz) -> (r: Result<FlashWaitStates, ClockError>)
    ensures
        r == spec_flash_wait_states(system_clock),
{
    if system_clock.0 < 20_000_000 {
        Ok(FlashWaitStates::One)
    } else if system_clock.0 < 40_000_000 {
        Ok(FlashWaitStates::Two)
    } else if system_clock.0 < 50_000_000 {
        Ok(FlashWaitStates::Three)
    } else {
        Err(ClockError::FrequencyExceedsFlashRating { system_clock })
    }
}

// --------------------------------------------------------------------
// Main-clock resolver
// --------------------------------------------------------------------

/// Mathematical contract of main-clock resolution: the frequency the
/// selected source delivers given the states of the PLL and watchdog
/// subsystems, or the error naming the missing prerequisite.
pub open spec fn spec_resolve_main_clock(
    source: ClockSource,
    pll: Option<PllParameters>,
    watchdog: Option<WatchdogOscillatorConfig>,
    crystal: Option<Hertz>,
) -> Result<int, ClockError> {
    match source {
        ClockSource::InternalOscillator => Ok(IRC_OSCILLATOR_FREQUENCY as int),
        ClockSource::PllInput => match pll {
            None => Err(ClockError::PllNotConfigured),
            Some(params) => match params.input {
                PllInputSelect::InternalOscillator => Ok(IRC_OSCILLATOR_FREQUENCY as int),
                PllInputSelect::ExternalCrystal => match crystal {
                    None => Err(ClockError::MissingCrystalFrequency),
                    Some(f) => Ok(f.0 as int),
                },
            },
        },
        ClockSource::PllOutput => match pll {
            None => Err(ClockError::PllNotConfigured),
            Some(params) => match params.input {
                PllInputSelect::InternalOscillator => Ok(
                    IRC_OSCILLATOR_FREQUENCY as int * (params.m as int + 1),
                ),
                PllInputSelect::ExternalCrystal => match crystal {
                    None => Err(ClockError::MissingCrystalFrequency),
                    Some(f) => Ok(f.0 as int * (params.m as int + 1)),
                },
            },
        },
        ClockSource::WatchdogOscillator => match watchdog {
            None => Err(ClockError::WatchdogNotConfigured),
            Some(cfg) => Ok(spec_band_frequency(cfg.band) / (2 * (1 + cfg.divisor as int))),
        },
    }
}

/// Resolves the main clock frequency from the selected source and the
/// states of the PLL and watchdog-oscillator subsystems.
///
/// The internal oscillator delivers its fixed 12 MHz; the PLL input
/// delivers its own input (12 MHz or the crystal); the PLL output
/// multiplies that input by `m + 1`; the watchdog oscillator delivers
/// its band frequency divided by `2 * (1 + divisor)`. Selecting a
/// source whose subsystem is absent, or a crystal path without a
/// crystal frequency, is an error.
pub fn resolve_main_clock(
    source: ClockSource,
    pll: Option<PllParameters>,
    watchdog: Option<WatchdogOscillatorConfig>,
    crystal: Option<Hertz>,
) -> (r: Result<Hertz, ClockError>)
    requires
        spec_resolve_main_clock(source, pll, watchdog, crystal) matches Ok(v) ==> v <= u32::MAX,
    ensures
        match r {
            Ok(f) => spec_resolve_main_clock(source, pll, watchdog, crystal) == Ok::<
                int,
                ClockError,
            >(f.0 as int),
            Err(e) => spec_resolve_main_clock(source, pll, watchdog, crystal) == Err::<
                int,
                ClockError,
            >(e),
        },
{
    match source {
        ClockSource::InternalOscillator => Ok(Hertz(IRC_OSCILLATOR_FREQUENCY)),
        ClockSource::PllInput => match pll {
            None => Err(ClockError::PllNotConfigured),
            Some(params) => match params.input {
                PllInputSelect::InternalOscillator => Ok(Hertz(IRC_OSCILLATOR_FREQUENCY)),
                PllInputSelect::ExternalCrystal => match crystal {
                    None => Err(ClockError::MissingCrystalFrequency),
                    Some(f) => Ok(f),
                },
            },
        },
        ClockSource::PllOutput => match pll {
            None => Err(ClockError::PllNotConfigured),
            Some(params) => match params.input {
                PllInputSelect::InternalOscillator => Ok(
                    Hertz(IRC_OSCILLATOR_FREQUENCY * (params.m as u32 + 1)),
                ),
                PllInputSelect::ExternalCrystal => match crystal {
                    None => Err(ClockError::MissingCrystalFrequency),
                    Some(f) => Ok(Hertz(f.0 * (params.m as u32 + 1))),
                },
            },
        },
        ClockSource::WatchdogOscillator => match watchdog {
            None => Err(ClockError::WatchdogNotConfigured),
            Some(cfg) => {
                let band: Hertz = watchdog_band_frequency(cfg.band);
                Ok(Hertz(band.0 / (2 * (1 + cfg.divisor as u32))))
            },
        },
    }
}

// --------------------------------------------------------------------
// Configuration builder and validator
// --------------------------------------------------------------------

/// A declarative clock-tree request, accumulated through chained
/// setters and consumed by [`ClocksBuilder::validate`].
#[derive(Clone, Copy, Debug, PartialEq, Eq)]
pub struct ClocksBuilder {
    /// Requested main clock source.
    pub main_clock_source: ClockSource,
    /// Requested system PLL input and target output frequency.
    pub system_pll: Option<(PllInputSelect, Hertz)>,
    /// Requested system clock frequency; defaults to the main clock.
    pub system_clock_freq: Option<Hertz>,
    /// Frequency of the external crystal, when one is fitted.
    pub system_osc_freq: Option<Hertz>,
    /// Requested watchdog-oscillator frequency.
    pub watchdog_osc_freq: Option<Hertz>,
}

/// The PLL part of validation: solves the requested PLL target, after
/// checking that a crystal frequency is on hand when the crystal is
/// the selected input.
pub open spec fn spec_resolve_pll_request(b: ClocksBuilder) -> Result<
    Option<PllParameters>,
    ClockError,
> {
    match b.system_pll {
        None => Ok(None),
        Some((input, freq)) => {
            if input is ExternalCrystal && b.system_osc_freq is None {
                Err(ClockError::MissingCrystalFrequency)
            } else {
                let sys_osc = if input is ExternalCrystal {
                    b.system_osc_freq
                } else {
                    None
                };
                match spec_calculate_m_p(freq, sys_osc) {
                    Ok((m, p)) => Ok(Some(PllParameters { input, m, p })),
                    Err(e) => Err(e),
                }
            }
        },
    }
}

/// The watchdog part of validation: quantizes the requested frequency,
/// if any.
pub open spec fn spec_resolve_watchdog_request(b: ClocksBuilder) -> Result<
    Option<WatchdogOscillatorConfig>,
    ClockError,
> {
    match b.watchdog_osc_freq {
        None => Ok(None),
        Some(f) => match spec_quantize_watchdog(f) {
            Ok(cfg) => Ok(Some(cfg)),
            Err(e) => Err(e),
        },
    }
}

/// The divider part of validation: the main clock divided down to the
/// requested system clock, which must be an exact nonzero quotient;
/// without a request the divider defaults to 1.
pub open spec fn spec_system_clock_divider(main: int, target: Option<Hertz>) -> Result<
    u32,
    ClockError,
> {
    match target {
        None => Ok(1u32),
        Some(f) => {
            if f.0 == 0 || main % (f.0 as int) != 0 || main / (f.0 as int) == 0 {
                Err(ClockError::NotIntegerDivisible { main: Hertz(main as u32), target: f })
            } else {
                Ok((main / (f.0 as int)) as u32)
            }
        },
    }
}

/// Mathematical contract of full validation: the resolved plan for a
/// request, or the first error in the fixed order PLL solve, watchdog
/// quantization, main-clock resolution, divider computation, flash
/// timing.
pub open spec fn spec_validate(b: ClocksBuilder) -> Result<ClocksDescriptor, ClockError> {
    match spec_resolve_pll_request(b) {
        Err(e) => Err(e),
        Ok(pll) => match spec_resolve_watchdog_request(b) {
            Err(e) => Err(e),
            Ok(watchdog) => match spec_resolve_main_clock(
                b.main_clock_source,
                pll,
                watchdog,
                b.system_osc_freq,
            ) {
                Err(e) => Err(e),
                Ok(main) => match spec_system_clock_divider(main, b.system_clock_freq) {
                    Err(e) => Err(e),
                    Ok(div) => match spec_flash_wait_states(Hertz((main / div as int) as u32)) {
                        Err(e) => Err(e),
                        Ok(flash) => Ok(
                            ClocksDescriptor {
                                main_clock_source: b.main_clock_source,
                                system_osc_freq: b.system_osc_freq,
                                system_pll: pll,
                                system_clock_div: div,
                                watchdog_osc: watchdog,
                                flash_wait_states: flash,
                            },
                        ),
                    },
                },
            },
        },
    }
}

/// A plan whose PLL parameters came out of the solver resolves to a
/// main clock frequency that fits a `u32`: for the PLL output path the
/// resolved frequency is exactly the requested target, and every other
/// source is bounded by construction. The solver's bounds on the
/// parameters come along.
pub proof fn lemma_resolved_plan_frequency_fits(
    b: ClocksBuilder,
    pll: Option<PllParameters>,
    watchdog: Option<WatchdogOscillatorConfig>,
)
    requires
        spec_resolve_pll_request(b) == Ok::<Option<PllParameters>, ClockError>(pll),
    ensures
        spec_resolve_main_clock(b.main_clock_source, pll, watchdog, b.system_osc_freq) matches Ok(
            v,
        ) ==> 0 <= v <= u32::MAX,
        pll matches Some(params) ==> params.m < 32 && params.p <= 3,
{
    if let Some((input, freq)) = b.system_pll {
        if let Ok(Some(params)) = spec_resolve_pll_request(b) {
            let sys_osc = if input is ExternalCrystal {
                b.system_osc_freq
            } else {
                None
            };
            lemma_solver_fcco_in_range(freq, sys_osc, params.m, params.p);
        }
    }
}

impl ClocksBuilder {
    /// Starts a request with the internal oscillator as main clock
    /// source and no PLL, system-clock or watchdog-oscillator targets.
    /// `system_osc_freq` is the external crystal's frequency, when one
    /// is fitted.
    pub fn new(system_osc_freq: Option<Hertz>) -> (r: ClocksBuilder)
        ensures
            r == (ClocksBuilder {
                main_clock_source: ClockSource::InternalOscillator,
                system_pll: None,
                system_clock_freq: None,
                system_osc_freq,
                watchdog_osc_freq: None,
            }),
    {
        ClocksBuilder {
            main_clock_source: ClockSource::InternalOscillator,
            system_pll: None,
            system_clock_freq: None,
            system_osc_freq,
            watchdog_osc_freq: None,
        }
    }

    /// Requests the system PLL, driven from `pll_input`, to produce
    /// `freq`.
    pub fn system_pll(self, pll_input: PllInputSelect, freq: Hertz) -> (r: Self)
        ensures
            r == (ClocksBuilder { system_pll: Some((pll_input, freq)), ..self }),
    {
        ClocksBuilder { system_pll: Some((pll_input, freq)), ..self }
    }

    /// Requests a system clock of `freq`, to be derived from the main
    /// clock by an exact integer divider.
    pub fn system_clock(self, freq: Hertz) -> (r: Self)
        ensures
            r == (ClocksBuilder { system_clock_freq: Some(freq), ..self }),
    {
        ClocksBuilder { system_clock_freq: Some(freq), ..self }
    }

    /// Requests the watchdog oscillator, quantized to `freq`.
    pub fn watchdog_oscillator(self, freq: Hertz) -> (r: Self)
        ensures
            r == (ClocksBuilder { watchdog_osc_freq: Some(freq), ..self }),
    {
        ClocksBuilder { watchdog_osc_freq: Some(freq), ..self }
    }

    /// Selects the main clock source.
    pub fn main_clock(self, main_clock_source: ClockSource) -> (r: Self)
        ensures
            r == (ClocksBuilder { main_clock_source, ..self }),
    {
        ClocksBuilder { main_clock_source, ..self }
    }

    /// Resolves the whole request into an immutable plan, or rejects it.
    ///
    /// In order: solves the PLL request (requiring a crystal frequency
    /// when the crystal is its input), quantizes the watchdog request,
    /// resolves the main clock frequency, computes the system-clock
    /// divider (default 1), and selects the flash wait-states. Pure and
    /// side-effect free: safe to call speculatively, and equal requests
    /// yield equal plans.
    pub fn validate(self) -> (r: Result<ClocksDescriptor, ClockError>)
        ensures
            r == spec_validate(self),
            r matches Ok(d) ==> d.well_formed(),
    {
        let pll: Option<PllParameters> = match self.system_pll {
            None => None,
            Some((input, freq)) => {
                let sys_osc: Option<Hertz> = match input {
                    PllInputSelect::ExternalCrystal => match self.system_osc_freq {
                        Some(f) => Some(f),
                        None => {
                            return Err(ClockError::MissingCrystalFrequency);
                        },
                    },
                    PllInputSelect::InternalOscillator => None,
                };
                match calculate_m_p(freq, sys_osc) {
                    Ok((m, p)) => Some(PllParameters { input, m, p }),
                    Err(e) => {
                        return Err(e);
                    },
                }
            },
        };
        let watchdog: Option<WatchdogOscillatorConfig> = match self.watchdog_osc_freq {
            None => None,
            Some(f) => match quantize_watchdog(f) {
                Ok(cfg) => Some(cfg),
                Err(e) => {
                    return Err(e);
                },
            },
        };
        proof {
            lemma_resolved_plan_frequency_fits(self, pll, watchdog);
        }
        let main: Hertz = match resolve_main_clock(
            self.main_clock_source,
            pll,
            watchdog,
            self.system_osc_freq,
        ) {
            Ok(f) => f,
            Err(e) => {
                return Err(e);
            },
        };
        let div: u32 = match self.system_clock_freq {
            None => 1,
            Some(f) => {
                if f.0 == 0 || main.0 % f.0 != 0 || main.0 / f.0 == 0 {
                    return Err(ClockError::NotIntegerDivisible { main, target: f });
                }
                main.0 / f.0
            },
        };
        let flash: FlashWaitStates = match flash_wait_states(Hertz(main.0 / div)) {
            Ok(f) => f,
            Err(e) => {
                return Err(e);
            },
        };
        Ok(
            ClocksDescriptor {
                main_clock_source: self.main_clock_source,
                system_osc_freq: self.system_osc_freq,
                system_pll: pll,
                system_clock_div: div,
                watchdog_osc: watchdog,
                flash_wait_states: flash,
            },
        )
    }
}

/// Law of validation determinism: resolution is a pure function of the
/// request, so bit-identical requests always resolve to bit-identical
/// plans (or fail identically).
pub proof fn lemma_validate_deterministic(a: ClocksBuilder, b: ClocksBuilder)
    requires
        a == b,
    ensures
        spec_validate(a) == spec_validate(b),
{
}

/// Law of prerequisite checking: a request that selects the watchdog
/// oscillator as main clock source without requesting the watchdog
/// oscillator fails with `WatchdogNotConfigured`, whatever its other
/// parameters — provided any PLL request it carries passes its own
/// step, since PLL errors surface first in the validation order.
pub proof fn lemma_watchdog_source_needs_config(b: ClocksBuilder)
    requires
        b.main_clock_source == ClockSource::WatchdogOscillator,
        b.watchdog_osc_freq is None,
        spec_resolve_pll_request(b) is Ok,
    ensures
        spec_validate(b) == Err::<ClocksDescriptor, ClockError>(ClockError::WatchdogNotConfigured),
{
}

// --------------------------------------------------------------------
// Resolved plan and frozen clocks
// --------------------------------------------------------------------

/// An immutable, fully resolved clock plan, produced only by
/// [`ClocksBuilder::validate`] and consumed by the hardware
/// application step.
#[derive(Clone, Copy, Debug, PartialEq, Eq)]
pub struct ClocksDescriptor {
    /// Main clock source to select.
    pub main_clock_source: ClockSource,
    /// Frequency of the external crystal, when one is fitted.
    pub system_osc_freq: Option<Hertz>,
    /// Resolved system PLL parameters, when the PLL was requested.
    pub system_pll: Option<PllParameters>,
    /// Integer divider from the main clock to the system clock.
    pub system_clock_div: u32,
    /// Resolved watchdog-oscillator configuration, when requested.
    pub watchdog_osc: Option<WatchdogOscillatorConfig>,
    /// Flash wait-state setting for the resolved system clock.
    pub flash_wait_states: FlashWaitStates,
}

impl ClocksDescriptor {
    /// Internal consistency of a resolved plan: the divider is at
    /// least 1, the PLL parameters fit their register fields, the main
    /// clock resolves to a representable frequency, and the flash
    /// wait-states match the system clock that the divider yields.
    pub open spec fn well_formed(self) -> bool {
        &&& self.system_clock_div >= 1
        &&& (self.system_pll matches Some(params) ==> params.m < 32 && params.p <= 3)
        &&& match spec_resolve_main_clock(
            self.main_clock_source,
            self.system_pll,
            self.watchdog_osc,
            self.system_osc_freq,
        ) {
            Ok(v) => 0 <= v <= u32::MAX && spec_flash_wait_states(
                Hertz((v / self.system_clock_div as int) as u32),
            ) == Ok::<FlashWaitStates, ClockError>(self.flash_wait_states),
            Err(_) => false,
        }
    }

    /// Completes hardware application: re-derives the main clock
    /// frequency from the plan and hands out the frozen clock handle
    /// together with the one-shot peripheral-clock capabilities.
    ///
    /// Returns `None` only for a plan that resolution rejects or whose
    /// resolved frequency overflows — something no plan produced by
    /// validation exhibits, so hitting it is a programming error, not
    /// a runtime fault.
    pub fn freeze(self) -> (r: Option<(Clocks, PeriphClocks)>)
        ensures
            self.well_formed() ==> r is Some,
            r matches Some((clocks, _)) ==> {
                &&& spec_resolve_main_clock(
                    self.main_clock_source,
                    self.system_pll,
                    self.watchdog_osc,
                    self.system_osc_freq,
                ) == Ok::<int, ClockError>(clocks.spec_main_clock_freq().0 as int)
                &&& clocks.spec_system_osc_freq() == self.system_osc_freq
            },
    {
        if let ClockSource::PllOutput = self.main_clock_source {
            if let Some(params) = self.system_pll {
                let input: u32 = match params.input {
                    PllInputSelect::InternalOscillator => IRC_OSCILLATOR_FREQUENCY,
                    PllInputSelect::ExternalCrystal => match self.system_osc_freq {
                        Some(f) => f.0,
                        // Resolution fails below for this combination.
                        None => 0,
                    },
                };
                proof {
                    assert((input as int) * (params.m as int + 1) <= 0xFFFF_FFFF * 256)
                        by (nonlinear_arith)
                        requires
                            input <= 0xFFFF_FFFF,
                            params.m <= 255,
                    ;
                }
                if (input as u64) * (params.m as u64 + 1) > u32::MAX as u64 {
                    return None;
                }
            }
        }
        match resolve_main_clock(
            self.main_clock_source,
            self.system_pll,
            self.watchdog_osc,
            self.system_osc_freq,
        ) {
            Err(_) => None,
            Ok(main) => Some(
                (
                    Clocks { system_osc_freq: self.system_osc_freq, main_clock_freq: main },
                    PeriphClocks {
                        usart: USARTClock { _private: () },
                        usb: USBClock { _private: () },
                        syscon: Syscon { _private: () },
                    },
                ),
            ),
        }
    }
}

/// Proof that the top-level clocks are configured and frozen. Once a
/// value of this type exists, no safe path reconfigures or disables
/// the top-level clocks; its read-only frequency query is the sole
/// trustworthy source for peripheral-clock computation.
#[derive(Clone, Copy, Debug)]
pub struct Clocks {
    system_osc_freq: Option<Hertz>,
    main_clock_freq: Hertz,
}

impl Clocks {
    /// The frequency of the external crystal, if one was supplied.
    pub closed spec fn spec_system_osc_freq(self) -> Option<Hertz> {
        self.system_osc_freq
    }

    /// The frozen main clock frequency.
    pub closed spec fn spec_main_clock_freq(self) -> Hertz {
        self.main_clock_freq
    }

    /// Read-only query of the frozen main clock frequency.
    pub fn main_clock_freq(&self) -> (r: Hertz)
        ensures
            r == self.spec_main_clock_freq(),
    {
        self.main_clock_freq
    }

    /// Integer divider from the frozen main clock down to `target`:
    /// `main / target`, or `None` when `target` is zero.
    pub fn peripheral_divider(&self, target: Hertz) -> (r: Option<u32>)
        ensures
            match r {
                Some(d) => target.0 > 0 && d == self.spec_main_clock_freq().0 as int / (
                target.0 as int),
                None => target.0 == 0,
            },
    {
        if target.0 == 0 {
            None
        } else {
            Some(self.main_clock_freq.0 / target.0)
        }
    }

    /// PLL input selector and `(m, p)` parameters for driving the USB
    /// PLL to `target`: the external crystal drives the USB PLL when
    /// one is fitted, else the internal oscillator does.
    pub fn usb_pll_parameters(&self, target: Hertz) -> (r: Result<PllParameters, ClockError>)
        ensures
            match spec_calculate_m_p(target, self.spec_system_osc_freq()) {
                Ok((m, p)) => r == Ok::<PllParameters, ClockError>(
                    PllParameters {
                        input: if self.spec_system_osc_freq() is None {
                            PllInputSelect::InternalOscillator
                        } else {
                            PllInputSelect::ExternalCrystal
                        },
                        m,
                        p,
                    },
                ),
                Err(e) => r == Err::<PllParameters, ClockError>(e),
            },
    {
        let input: PllInputSelect = match self.system_osc_freq {
            None => PllInputSelect::InternalOscillator,
            Some(_) => PllInputSelect::ExternalCrystal,
        };
        match calculate_m_p(target, self.system_osc_freq) {
            Ok((m, p)) => Ok(PllParameters { input, m, p }),
            Err(e) => Err(e),
        }
    }
}

/// One-shot capability to configure the USART peripheral clock.
pub struct USARTClock {
    _private: (),
}

/// One-shot capability to configure the USB clock and its PLL.
pub struct USBClock {
    _private: (),
}

/// Capability over the shared system-control clock-gate register.
pub struct Syscon {
    _private: (),
}

/// The set of one-shot peripheral-clock capabilities handed out
/// together with the frozen clock handle.
pub struct PeriphClocks {
    pub usart: USARTClock,
    pub usb: USBClock,
    pub syscon: Syscon,
}

// --------------------------------------------------------------------
// UART baud-rate divisor
// --------------------------------------------------------------------

/// Divisor-latch bytes for the UART baud-rate generator.
///
/// The divisor is `main / (16 * baudrate)`; it must fit the 16-bit
/// divisor latch, and is returned split into its high and low bytes.
/// `None` when the baud rate is zero or the divisor does not fit.
pub fn uart_baud_divisors(main: Hertz, baudrate: Hertz) -> (r: Option<(u8, u8)>)
    ensures
        baudrate.0 == 0 ==> r is None,
        baudrate.0 > 0 ==> {
            let d = main.0 as int / (16 * baudrate.0 as int);
            if d < 65536 {
                r == Some::<(u8, u8)>(((d / 256) as u8, (d % 256) as u8))
            } else {
                r is None
            }
        },
{
    if baudrate.0 == 0 {
        return None;
    }
    let denom: u64 = 16u64 * (baudrate.0 as u64);
    let d: u64 = (main.0 as u64) / denom;
    if d >= 65536 {
        return None;
    }
    Some(((d / 256) as u8, (d % 256) as u8))
}

/// Law of the PLL solver: whenever it succeeds, the returned
/// post-divider exponent is at most 3, re-deriving the comparator
/// frequency from it lands in the valid band, no smaller exponent
/// would, and the multiplier exactly reconstructs the target from the
/// input frequency.
pub proof fn lemma_solver_fcco_in_range(target: Hertz, sys_osc: Option<Hertz>, m: u8, p: u8)
    requires
        spec_calculate_m_p(target, sys_osc) == Ok::<(u8, u8), ClockError>((m, p)),
    ensures
        p <= 3,
        spec_fcco_in_range(p as int, target.0 as int),
        forall|q: int| 0 <= q < p ==> !spec_fcco_in_range(q, target.0 as int),
        target.0 == spec_pll_input_frequency(sys_osc).0 * (m as int + 1),
        m < 32,
{
    let input = spec_pll_input_frequency(sys_osc).0 as int;
    let t = target.0 as int;
    lemma_fundamental_div_mod(t, input);
}

} // verus!

