//! The clock (RCC) resolver: reads the optional system-clock and PLL source
//! selections and the optional target frequencies, and cross-validates the
//! external-oscillator configuration when it is selected.
use vstd::prelude::*;

use crate::error::{view_res, Error, ErrorV};
use crate::rawconfig::{find_param, find_section, RawConfig, SectionV};
use crate::text::chars_of_str;
use crate::utils::{
    parse_mandatory_u32, parse_optional_param, parse_optional_u32, spec_mandatory_u32,
    spec_optional, spec_optional_u32, ParamValue, ValueFail,
};

verus! {

/// The resolved clock source: an internal oscillator, the internal 48 MHz
/// oscillator, or the external oscillator with its mode and frequency.
#[derive(Debug, Copy, Clone, PartialEq, Eq, Structural)]
pub enum ClockSource {
    HSI,
    HSI48,
    HSE(HSEMode),
}

/// How the external oscillator is driven, with its frequency in hertz.
#[derive(Debug, Copy, Clone, PartialEq, Eq, Structural)]
pub enum HSEMode {
    NotBypassed(u32),
    Bypassed(u32),
}

impl View for ClockSource {
    type V = ClockSource;

    open spec fn view(&self) -> ClockSource {
        *self
    }
}

impl View for HSEMode {
    type V = HSEMode;

    open spec fn view(&self) -> HSEMode {
        *self
    }
}

/// The resolved clock configuration.
#[derive(Debug, Copy, Clone, PartialEq, Eq, Structural)]
pub struct RCC {
    pub clock_source: ClockSource,
    pub sysclk_freq: Option<u32>,
    pub hclk_freq: Option<u32>,
    pub apb1_freq: Option<u32>,
}

impl View for RCC {
    type V = RCC;

    open spec fn view(&self) -> RCC {
        *self
    }
}

/// The recognized values of the system-clock source selection.
#[allow(non_camel_case_types)]
#[derive(Debug, Copy, Clone, PartialEq, Eq, Structural)]
pub enum SYSCLKSourceType {
    RCC_SYSCLKSOURCE_HSI,
    RCC_SYSCLKSOURCE_HSI48,
    RCC_SYSCLKSOURCE_PLLCLK,
    RCC_SYSCLKSOURCE_HSE,
}

impl View for SYSCLKSourceType {
    type V = SYSCLKSourceType;

    open spec fn view(&self) -> SYSCLKSourceType {
        *self
    }
}

impl ParamValue for SYSCLKSourceType {
    open spec fn spec_from_text(s: Seq<char>) -> Result<SYSCLKSourceType, ValueFail> {
        if s == "RCC_SYSCLKSOURCE_HSI"@ {
            Ok(SYSCLKSourceType::RCC_SYSCLKSOURCE_HSI)
        } else if s == "RCC_SYSCLKSOURCE_HSI48"@ {
            Ok(SYSCLKSourceType::RCC_SYSCLKSOURCE_HSI48)
        } else if s == "RCC_SYSCLKSOURCE_PLLCLK"@ {
            Ok(SYSCLKSourceType::RCC_SYSCLKSOURCE_PLLCLK)
        } else if s == "RCC_SYSCLKSOURCE_HSE"@ {
            Ok(SYSCLKSourceType::RCC_SYSCLKSOURCE_HSE)
        } else {
            Err(ValueFail::NotRecognized)
        }
    }

    fn from_text(s: &Vec<char>) -> (r: Result<SYSCLKSourceType, ValueFail>) {
        if crate::text::chars_eq_str(s, "RCC_SYSCLKSOURCE_HSI") {
            Ok(SYSCLKSourceType::RCC_SYSCLKSOURCE_HSI)
        } else if crate::text::chars_eq_str(s, "RCC_SYSCLKSOURCE_HSI48") {
            Ok(SYSCLKSourceType::RCC_SYSCLKSOURCE_HSI48)
        } else if crate::text::chars_eq_str(s, "RCC_SYSCLKSOURCE_PLLCLK") {
            Ok(SYSCLKSourceType::RCC_SYSCLKSOURCE_PLLCLK)
        } else if crate::text::chars_eq_str(s, "RCC_SYSCLKSOURCE_HSE") {
            Ok(SYSCLKSourceType::RCC_SYSCLKSOURCE_HSE)
        } else {
            Err(ValueFail::NotRecognized)
        }
    }
}

impl Default for SYSCLKSourceType {
    /// The system clock defaults to the internal oscillator.
    fn default() -> (r: SYSCLKSourceType)
        ensures
            r == SYSCLKSourceType::RCC_SYSCLKSOURCE_HSI,
    {
        SYSCLKSourceType::RCC_SYSCLKSOURCE_HSI
    }
}

/// The recognized values of the PLL source selection.
#[allow(non_camel_case_types)]
#[derive(Debug, Copy, Clone, PartialEq, Eq, Structural)]
pub enum PLLSourceType {
    RCC_PLLSOURCE_HSI,
    RCC_PLLSOURCE_HSI48,
    RCC_PLLSOURCE_HSE,
}

impl View for PLLSourceType {
    type V = PLLSourceType;

    open spec fn view(&self) -> PLLSourceType {
        *self
    }
}

impl ParamValue for PLLSourceType {
    open spec fn spec_from_text(s: Seq<char>) -> Result<PLLSourceType, ValueFail> {
        if s == "RCC_PLLSOURCE_HSI"@ {
            Ok(PLLSourceType::RCC_PLLSOURCE_HSI)
        } else if s == "RCC_PLLSOURCE_HSI48"@ {
            Ok(PLLSourceType::RCC_PLLSOURCE_HSI48)
        } else if s == "RCC_PLLSOURCE_HSE"@ {
            Ok(PLLSourceType::RCC_PLLSOURCE_HSE)
        } else {
            Err(ValueFail::NotRecognized)
        }
    }

    fn from_text(s: &Vec<char>) -> (r: Result<PLLSourceType, ValueFail>) {
        if crate::text::chars_eq_str(s, "RCC_PLLSOURCE_HSI") {
            Ok(PLLSourceType::RCC_PLLSOURCE_HSI)
        } else if crate::text::chars_eq_str(s, "RCC_PLLSOURCE_HSI48") {
            Ok(PLLSourceType::RCC_PLLSOURCE_HSI48)
        } else if crate::text::chars_eq_str(s, "RCC_PLLSOURCE_HSE") {
            Ok(PLLSourceType::RCC_PLLSOURCE_HSE)
        } else {
            Err(ValueFail::NotRecognized)
        }
    }
}

/// Outcome of resolving the external-oscillator configuration: the mode
/// string of the oscillator pin chooses bypassed or not-bypassed operation,
/// and the clock section must hold an integer frequency for it. A missing
/// pin, a missing mode, a missing or non-integer frequency, and an
/// unrecognized mode string are each distinct failures, in that order of
/// discovery.
pub open spec fn spec_get_hse_mode(secs: Seq<SectionV>) -> Result<HSEMode, ErrorV> {
    match find_section(secs, "PF0-OSC_IN"@) {
        Option::None => Err(
            ErrorV::MissingKey { object: "PF0-OSC_IN"@, key: Seq::empty() },
        ),
        Option::Some(pin) => match find_param(pin.params, "Mode"@) {
            Option::None => Err(ErrorV::MissingKey { object: "PF0-OSC_IN"@, key: "Mode"@ }),
            Option::Some(mode) => match find_section(secs, "RCC"@) {
                Option::None => Err(
                    ErrorV::MissingKey { object: "RCC"@, key: "VCOOutput2Freq_Value"@ },
                ),
                Option::Some(rcc) => match spec_mandatory_u32(rcc, "VCOOutput2Freq_Value"@) {
                    Err(e) => Err(e),
                    Ok(freq) => if mode == "HSE-External-Oscillator"@ {
                        Ok(HSEMode::NotBypassed(freq))
                    } else if mode == "HSE-External-Clock-Source"@ {
                        Ok(HSEMode::Bypassed(freq))
                    } else {
                        Err(ErrorV::InvalidEnumValue { key: "Mode"@, value: mode })
                    },
                },
            },
        },
    }
}

/// The effective base clock source: the system-clock selection decides
/// directly, except that selecting the PLL defers to the PLL source
/// selection; either selection defaults to the internal oscillator when
/// absent. The external oscillator brings in its cross-validated mode.
pub open spec fn spec_get_clock_source(
    sys: Option<SYSCLKSourceType>,
    pll: Option<PLLSourceType>,
    secs: Seq<SectionV>,
) -> Result<ClockSource, ErrorV> {
    match sys {
        Option::None => Ok(ClockSource::HSI),
        Option::Some(SYSCLKSourceType::RCC_SYSCLKSOURCE_HSI) => Ok(ClockSource::HSI),
        Option::Some(SYSCLKSourceType::RCC_SYSCLKSOURCE_HSI48) => Ok(ClockSource::HSI48),
        Option::Some(SYSCLKSourceType::RCC_SYSCLKSOURCE_HSE) => match spec_get_hse_mode(secs) {
            Ok(m) => Ok(ClockSource::HSE(m)),
            Err(e) => Err(e),
        },
        Option::Some(SYSCLKSourceType::RCC_SYSCLKSOURCE_PLLCLK) => match pll {
            Option::None => Ok(ClockSource::HSI),
            Option::Some(PLLSourceType::RCC_PLLSOURCE_HSI) => Ok(ClockSource::HSI),
            Option::Some(PLLSourceType::RCC_PLLSOURCE_HSI48) => Ok(ClockSource::HSI48),
            Option::Some(PLLSourceType::RCC_PLLSOURCE_HSE) => match spec_get_hse_mode(secs) {
                Ok(m) => Ok(ClockSource::HSE(m)),
                Err(e) => Err(e),
            },
        },
    }
}

/// Outcome of the whole clock resolution over the flat mapping.
pub open spec fn spec_get_rcc(secs: Seq<SectionV>) -> Result<RCC, ErrorV> {
    match find_section(secs, "RCC"@) {
        Option::None => Err(ErrorV::MissingKey { object: "RCC"@, key: Seq::empty() }),
        Option::Some(rcc) => match spec_optional(
            rcc,
            "SYSCLKSource"@,
            |s: Seq<char>| SYSCLKSourceType::spec_from_text(s),
        ) {
            Err(e) => Err(e),
            Ok(sys) => match spec_optional(
                rcc,
                "PLLSourceVirtual"@,
                |s: Seq<char>| PLLSourceType::spec_from_text(s),
            ) {
                Err(e) => Err(e),
                Ok(pll) => match spec_optional_u32(rcc, "SYSCLKFreq_VALUE"@) {
                    Err(e) => Err(e),
                    Ok(sysclk_freq) => match spec_optional_u32(rcc, "HCLKFreq_Value"@) {
                        Err(e) => Err(e),
                        Ok(hclk_freq) => match spec_optional_u32(rcc, "APB1Freq_Value"@) {
                            Err(e) => Err(e),
                            Ok(apb1_freq) => match spec_get_clock_source(sys, pll, secs) {
                                Err(e) => Err(e),
                                Ok(clock_source) => Ok(
                                    RCC { clock_source, sysclk_freq, hclk_freq, apb1_freq },
                                ),
                            },
                        },
                    },
                },
            },
        },
    }
}

/// Resolves the external-oscillator mode and frequency, exactly as
/// [`spec_get_hse_mode`] describes.
fn get_hse_mode(config: &RawConfig) -> (r: Result<HSEMode, Error>)
    ensures
        view_res(r) == spec_get_hse_mode(config@),
{
    let pin = match config.get("PF0-OSC_IN") {
        None => {
            return Err(
                Error::MissingKey { object: chars_of_str("PF0-OSC_IN"), key: Vec::new() },
            );
        },
        Some(pin) => pin,
    };
    let mode = match pin.get("Mode") {
        None => {
            return Err(
                Error::MissingKey { object: chars_of_str("PF0-OSC_IN"), key: chars_of_str("Mode") },
            );
        },
        Some(mode) => mode,
    };
    let rcc = match config.get("RCC") {
        None => {
            return Err(
                Error::MissingKey {
                    object: chars_of_str("RCC"),
                    key: chars_of_str("VCOOutput2Freq_Value"),
                },
            );
        },
        Some(rcc) => rcc,
    };
    let freq = match parse_mandatory_u32(rcc, "VCOOutput2Freq_Value") {
        Err(e) => {
            return Err(e);
        },
        Ok(freq) => freq,
    };
    if crate::text::chars_eq_str(mode, "HSE-External-Oscillator") {
        Ok(HSEMode::NotBypassed(freq))
    } else if crate::text::chars_eq_str(mode, "HSE-External-Clock-Source") {
        Ok(HSEMode::Bypassed(freq))
    } else {
        Err(
            Error::InvalidEnumValue {
                key: chars_of_str("Mode"),
                value: crate::text::clone_chars(mode),
            },
        )
    }
}

/// Resolves the effective clock source, exactly as
/// [`spec_get_clock_source`] describes.
fn get_clock_source(
    sys_clock_source: &Option<SYSCLKSourceType>,
    pll_clock_source: &Option<PLLSourceType>,
    config: &RawConfig,
) -> (r: Result<ClockSource, Error>)
    ensures
        view_res(r) == spec_get_clock_source(*sys_clock_source, *pll_clock_source, config@),
{
    match sys_clock_source {
        None | Some(SYSCLKSourceType::RCC_SYSCLKSOURCE_HSI) => Ok(ClockSource::HSI),
        Some(SYSCLKSourceType::RCC_SYSCLKSOURCE_HSI48) => Ok(ClockSource::HSI48),
        Some(SYSCLKSourceType::RCC_SYSCLKSOURCE_HSE) => match get_hse_mode(config) {
            Ok(m) => Ok(ClockSource::HSE(m)),
            Err(e) => Err(e),
        },
        Some(SYSCLKSourceType::RCC_SYSCLKSOURCE_PLLCLK) => match pll_clock_source {
            None | Some(PLLSourceType::RCC_PLLSOURCE_HSI) => Ok(ClockSource::HSI),
            Some(PLLSourceType::RCC_PLLSOURCE_HSI48) => Ok(ClockSource::HSI48),
            Some(PLLSourceType::RCC_PLLSOURCE_HSE) => match get_hse_mode(config) {
                Ok(m) => Ok(ClockSource::HSE(m)),
                Err(e) => Err(e),
            },
        },
    }
}

/// Resolves the clock configuration from the flat mapping, exactly as
/// [`spec_get_rcc`] describes.
pub fn get_rcc(config: &RawConfig) -> (r: Result<RCC, Error>)
    ensures
        view_res(r) == spec_get_rcc(config@),
{
    let rcc_params = match config.get("RCC") {
        None => {
            return Err(Error::MissingKey { object: chars_of_str("RCC"), key: Vec::new() });
        },
        Some(rcc) => rcc,
    };
    let sys_clock_source: Option<SYSCLKSourceType> =
        match parse_optional_param(rcc_params, "SYSCLKSource") {
        Err(e) => {
            return Err(e);
        },
        Ok(v) => v,
    };
    let pll_clock_source: Option<PLLSourceType> =
        match parse_optional_param(rcc_params, "PLLSourceVirtual") {
        Err(e) => {
            return Err(e);
        },
        Ok(v) => v,
    };
    let sysclk_freq = match parse_optional_u32(rcc_params, "SYSCLKFreq_VALUE") {
        Err(e) => {
            return Err(e);
        },
        Ok(v) => v,
    };
    let hclk_freq = match parse_optional_u32(rcc_params, "HCLKFreq_Value") {
        Err(e) => {
            return Err(e);
        },
        Ok(v) => v,
    };
    let apb1_freq = match parse_optional_u32(rcc_params, "APB1Freq_Value") {
        Err(e) => {
            return Err(e);
        },
        Ok(v) => v,
    };
    let clock_source = match get_clock_source(&sys_clock_source, &pll_clock_source, config) {
        Err(e) => {
            return Err(e);
        },
        Ok(v) => v,
    };
    Ok(RCC { clock_source, sysclk_freq, hclk_freq, apb1_freq })
}

} // verus!
