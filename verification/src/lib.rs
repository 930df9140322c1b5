//! Turns a flat, line-oriented hardware-configuration text into a
//! validated, strongly-typed model of a microcontroller's peripheral
//! wiring: clock tree, pin roles, and SPI, I2C and USART controllers.
//!
//! [`rawconfig::parse_ioc`] builds the flat two-level mapping from the
//! text; [`load_ioc`] resolves it into a [`Config`], all or nothing, with
//! the failure taxonomy of [`error::Error`]. The per-family lookup tables
//! live in [`db`]. Every resolution step is specified exactly, so the
//! model is a pure function of the input text.
use vstd::prelude::*;

pub mod db;
pub mod error;
pub mod gpio;
pub mod i2c;
pub mod rawconfig;
pub mod rcc;
pub mod spi;
pub mod text;
pub mod usart;
pub mod utils;

use crate::error::{Error, ErrorV};
use crate::gpio::{GpioPin, GpioPinV};
use crate::i2c::{I2cV, I2C};
use crate::rawconfig::{find_param, find_section, parse_ioc, spec_parse_ioc, RawConfig};
use crate::rcc::RCC;
use crate::spi::{SpiV, SPI};
use crate::text::{chars_eq_str, chars_of_str, clone_chars};
use crate::usart::{UsartV, USART};
use crate::utils::{ParamValue, ValueFail};

verus! {

/// The chip family named by the configuration. Lookup data exists for the
/// `STM32F0` family only; every other family is reported as unsupported by
/// the lookup functions, as normal control flow.
#[allow(non_camel_case_types)]
#[derive(Debug, Copy, Clone, PartialEq, Eq, Structural)]
pub enum MCUFamily {
    STM32F0,
    STM32F1,
    STM32F2,
    STM32F3,
    STM32F4,
    STM32F7,
    STM32G0,
    STM32G4,
    STM32H7,
    STM32L0,
    STM32L1,
    STM32L4,
    STM32L5,
    STM32MP1,
    STM32WB,
    STM32WL,
}

impl View for MCUFamily {
    type V = MCUFamily;

    open spec fn view(&self) -> MCUFamily {
        *self
    }
}

impl ParamValue for MCUFamily {
    open spec fn spec_from_text(s: Seq<char>) -> Result<MCUFamily, ValueFail> {
        if s == "STM32F0"@ {
            Ok(MCUFamily::STM32F0)
        } else if s == "STM32F1"@ {
            Ok(MCUFamily::STM32F1)
        } else if s == "STM32F2"@ {
            Ok(MCUFamily::STM32F2)
        } else if s == "STM32F3"@ {
            Ok(MCUFamily::STM32F3)
        } else if s == "STM32F4"@ {
            Ok(MCUFamily::STM32F4)
        } else if s == "STM32F7"@ {
            Ok(MCUFamily::STM32F7)
        } else if s == "STM32G0"@ {
            Ok(MCUFamily::STM32G0)
        } else if s == "STM32G4"@ {
            Ok(MCUFamily::STM32G4)
        } else if s == "STM32H7"@ {
            Ok(MCUFamily::STM32H7)
        } else if s == "STM32L0"@ {
            Ok(MCUFamily::STM32L0)
        } else if s == "STM32L1"@ {
            Ok(MCUFamily::STM32L1)
        } else if s == "STM32L4"@ {
            Ok(MCUFamily::STM32L4)
        } else if s == "STM32L5"@ {
            Ok(MCUFamily::STM32L5)
        } else if s == "STM32MP1"@ {
            Ok(MCUFamily::STM32MP1)
        } else if s == "STM32WB"@ {
            Ok(MCUFamily::STM32WB)
        } else if s == "STM32WL"@ {
            Ok(MCUFamily::STM32WL)
        } else {
            Err(ValueFail::NotRecognized)
        }
    }

    fn from_text(s: &Vec<char>) -> (r: Result<MCUFamily, ValueFail>) {
        if chars_eq_str(s, "STM32F0") {
            Ok(MCUFamily::STM32F0)
        } else if chars_eq_str(s, "STM32F1") {
            Ok(MCUFamily::STM32F1)
        } else if chars_eq_str(s, "STM32F2") {
            Ok(MCUFamily::STM32F2)
        } else if chars_eq_str(s, "STM32F3") {
            Ok(MCUFamily::STM32F3)
        } else if chars_eq_str(s, "STM32F4") {
            Ok(MCUFamily::STM32F4)
        } else if chars_eq_str(s, "STM32F7") {
            Ok(MCUFamily::STM32F7)
        } else if chars_eq_str(s, "STM32G0") {
            Ok(MCUFamily::STM32G0)
        } else if chars_eq_str(s, "STM32G4") {
            Ok(MCUFamily::STM32G4)
        } else if chars_eq_str(s, "STM32H7") {
            Ok(MCUFamily::STM32H7)
        } else if chars_eq_str(s, "STM32L0") {
            Ok(MCUFamily::STM32L0)
        } else if chars_eq_str(s, "STM32L1") {
            Ok(MCUFamily::STM32L1)
        } else if chars_eq_str(s, "STM32L4") {
            Ok(MCUFamily::STM32L4)
        } else if chars_eq_str(s, "STM32L5") {
            Ok(MCUFamily::STM32L5)
        } else if chars_eq_str(s, "STM32MP1") {
            Ok(MCUFamily::STM32MP1)
        } else if chars_eq_str(s, "STM32WB") {
            Ok(MCUFamily::STM32WB)
        } else if chars_eq_str(s, "STM32WL") {
            Ok(MCUFamily::STM32WL)
        } else {
            Err(ValueFail::NotRecognized)
        }
    }
}

/// The validated hardware model: everything the configuration text
/// describes, resolved and typed. Built once by [`load_ioc`] and never
/// mutated afterwards.
#[derive(Debug, Clone, PartialEq)]
pub struct Config {
    pub version: Vec<char>,
    pub mcu_family: MCUFamily,
    pub mcu_name: Vec<char>,
    pub rcc: RCC,
    pub gpios: Vec<GpioPin>,
    pub ports: Vec<char>,
    pub spis: Vec<SPI>,
    pub usarts: Vec<USART>,
    pub i2cs: Vec<I2C>,
}

/// The mathematical image of a [`Config`].
pub struct ConfigV {
    pub version: Seq<char>,
    pub mcu_family: MCUFamily,
    pub mcu_name: Seq<char>,
    pub rcc: RCC,
    pub gpios: Seq<GpioPinV>,
    pub ports: Seq<char>,
    pub spis: Seq<SpiV>,
    pub usarts: Seq<UsartV>,
    pub i2cs: Seq<I2cV>,
}

impl View for Config {
    type V = ConfigV;

    open spec fn view(&self) -> ConfigV {
        ConfigV {
            version: self.version@,
            mcu_family: self.mcu_family,
            mcu_name: self.mcu_name@,
            rcc: self.rcc,
            gpios: self.gpios@.map_values(|g: GpioPin| g@),
            ports: self.ports@,
            spis: self.spis@.map_values(|s: SPI| s@),
            usarts: self.usarts@.map_values(|u: USART| u@),
            i2cs: self.i2cs@.map_values(|x: I2C| x@),
        }
    }
}

/// What a whole configuration text resolves to: the format version must be
/// the one supported value, chip family and name must be present, and each
/// resolver must succeed, in the fixed order version, family, name, clock,
/// pins, SPI, USART, I2C. The first failure is the result.
pub open spec fn spec_load_ioc(text: Seq<char>) -> Result<ConfigV, ErrorV> {
    let secs = spec_parse_ioc(text);
    match crate::rawconfig::spec_lookup(secs, "File"@, "Version"@) {
        Option::None => Err(ErrorV::MissingKey { object: "File"@, key: "Version"@ }),
        Option::Some(version) => if version != "6"@ {
            Err(ErrorV::FormatVersionMismatch { found: version })
        } else {
            match find_section(secs, "Mcu"@) {
                Option::None => Err(ErrorV::MissingKey { object: "Mcu"@, key: Seq::empty() }),
                Option::Some(mcu) => match crate::utils::spec_mandatory(
                    mcu,
                    "Family"@,
                    |s: Seq<char>| MCUFamily::spec_from_text(s),
                ) {
                    Err(e) => Err(e),
                    Ok(mcu_family) => match find_param(mcu.params, "UserName"@) {
                        Option::None => Err(
                            ErrorV::MissingKey { object: "Mcu"@, key: "UserName"@ },
                        ),
                        Option::Some(mcu_name) => match crate::rcc::spec_get_rcc(secs) {
                            Err(e) => Err(e),
                            Ok(rcc) => match crate::gpio::spec_get_gpios(secs) {
                                Err(e) => Err(e),
                                Ok(pg) => match crate::spi::spec_get_spis(secs) {
                                    Err(e) => Err(e),
                                    Ok(spis) => match crate::usart::spec_get_usarts(secs) {
                                        Err(e) => Err(e),
                                        Ok(usarts) => match crate::i2c::spec_get_i2cs(secs) {
                                            Err(e) => Err(e),
                                            Ok(i2cs) => Ok(
                                                ConfigV {
                                                    version,
                                                    mcu_family,
                                                    mcu_name,
                                                    rcc,
                                                    gpios: pg.1,
                                                    ports: pg.0,
                                                    spis,
                                                    usarts,
                                                    i2cs,
                                                },
                                            ),
                                        },
                                    },
                                },
                            },
                        },
                    },
                },
            }
        },
    }
}

/// Loads a whole hardware model from the configuration text, exactly as
/// [`spec_load_ioc`] describes: resolution is all-or-nothing and a pure
/// function of the text.
pub fn load_ioc(file_content: &str) -> (r: Result<Config, Error>)
    ensures
        error::view_res(r) == spec_load_ioc(file_content@),
{
    let config_params: RawConfig = parse_ioc(file_content);
    let file_sec = match config_params.get("File") {
        None => {
            return Err(
                Error::MissingKey { object: chars_of_str("File"), key: chars_of_str("Version") },
            );
        },
        Some(sec) => sec,
    };
    let version = match file_sec.get("Version") {
        None => {
            return Err(
                Error::MissingKey { object: chars_of_str("File"), key: chars_of_str("Version") },
            );
        },
        Some(v) => clone_chars(v),
    };
    if !chars_eq_str(&version, "6") {
        return Err(Error::FormatVersionMismatch { found: version });
    }
    let mcu = match config_params.get("Mcu") {
        None => {
            return Err(Error::MissingKey { object: chars_of_str("Mcu"), key: Vec::new() });
        },
        Some(sec) => sec,
    };
    let mcu_family: MCUFamily = match crate::utils::parse_mandatory_param(mcu, "Family") {
        Err(e) => {
            return Err(e);
        },
        Ok(v) => v,
    };
    let mcu_name = match mcu.get("UserName") {
        None => {
            return Err(
                Error::MissingKey { object: chars_of_str("Mcu"), key: chars_of_str("UserName") },
            );
        },
        Some(v) => clone_chars(v),
    };
    let rcc = match crate::rcc::get_rcc(&config_params) {
        Err(e) => {
            return Err(e);
        },
        Ok(v) => v,
    };
    let (ports, gpios) = match crate::gpio::get_gpios(&config_params) {
        Err(e) => {
            return Err(e);
        },
        Ok(v) => v,
    };
    let spis = match crate::spi::get_spis(&config_params) {
        Err(e) => {
            return Err(e);
        },
        Ok(v) => v,
    };
    let usarts = match crate::usart::get_usarts(&config_params) {
        Err(e) => {
            return Err(e);
        },
        Ok(v) => v,
    };
    let i2cs = match crate::i2c::get_i2cs(&config_params) {
        Err(e) => {
            return Err(e);
        },
        Ok(v) => v,
    };
    Ok(Config { version, mcu_family, mcu_name, rcc, gpios, ports, spis, usarts, i2cs })
}

/// Resolution is deterministic: any two results that meet [`load_ioc`]'s
/// contract for the same text are the same model (or the same failure).
/// With the contract stating the result as a function of the text alone,
/// repeated resolutions of identical input cannot differ.
pub proof fn lemma_resolution_deterministic(
    r1: Result<Config, Error>,
    r2: Result<Config, Error>,
    text: Seq<char>,
)
    requires
        error::view_res(r1) == spec_load_ioc(text),
        error::view_res(r2) == spec_load_ioc(text),
    ensures
        error::view_res(r1) == error::view_res(r2),
{
}

} // verus!
