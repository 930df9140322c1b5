//! The per-family hardware lookup database: alternate-function routing,
//! memory sizes, and feature-name patterns. Tables exist for the
//! `STM32F0` family; any other family is reported as unsupported, which
//! is distinct from a miss inside a supported family's table.
use vstd::prelude::*;

use crate::error::{Error, ErrorV};
use crate::text::{chars_of_str, lower_chars, spec_lower};
use crate::MCUFamily;

pub mod af_f0;
pub mod features;
pub mod mem_f0;

verus! {

/// The flash and RAM sizes of a chip, in kilobytes.
#[derive(Debug, Copy, Clone, PartialEq, Eq, Structural)]
pub struct MemSize {
    pub flash: usize,
    pub ram: usize,
}

impl View for MemSize {
    type V = MemSize;

    open spec fn view(&self) -> MemSize {
        *self
    }
}

/// Outcome of an alternate-function lookup: an unsupported family first;
/// then a function the table does not know at all (carrying the function
/// name); then a pin that does not support the function (carrying the
/// register name); else the index.
pub open spec fn spec_get_alternate_function(
    mcu_family: MCUFamily,
    func: Seq<char>,
    reg: Seq<char>,
) -> Result<u8, ErrorV> {
    if mcu_family != MCUFamily::STM32F0 {
        Err(ErrorV::UnsupportedFamily)
    } else if !af_f0::spec_af_known(func) {
        Err(ErrorV::UnknownLookupEntry { entry: func })
    } else {
        match af_f0::spec_af(func, reg) {
            Option::None => Err(ErrorV::UnknownLookupEntry { entry: reg }),
            Option::Some(af) => Ok(af),
        }
    }
}

/// Looks up the alternate-function index that routes `peripheral_function`
/// to the pin register `pin_register`, exactly as
/// [`spec_get_alternate_function`] describes.
pub fn get_alternate_function(
    mcu_family: MCUFamily,
    peripheral_function: &str,
    pin_register: &str,
) -> (r: Result<u8, Error>)
    ensures
        match (r, spec_get_alternate_function(
            mcu_family,
            peripheral_function@,
            pin_register@,
        )) {
            (Ok(v), Ok(w)) => v == w,
            (Err(e), Err(f)) => e@ == f,
            _ => false,
        },
{
    if !(mcu_family == MCUFamily::STM32F0) {
        return Err(Error::UnsupportedFamily);
    }
    if !af_f0::af_known(peripheral_function) {
        return Err(Error::UnknownLookupEntry { entry: chars_of_str(peripheral_function) });
    }
    match af_f0::af_value(peripheral_function, pin_register) {
        None => Err(Error::UnknownLookupEntry { entry: chars_of_str(pin_register) }),
        Some(af) => Ok(af),
    }
}

/// Outcome of a memory-size lookup: an unsupported family, an unknown
/// chip name, or the sizes.
pub open spec fn spec_get_mem_size(mcu_family: MCUFamily, name: Seq<char>) -> Result<
    MemSize,
    ErrorV,
> {
    if mcu_family != MCUFamily::STM32F0 {
        Err(ErrorV::UnsupportedFamily)
    } else {
        match mem_f0::spec_mem(name) {
            Option::None => Err(ErrorV::UnknownLookupEntry { entry: name }),
            Option::Some(m) => Ok(m),
        }
    }
}

/// Looks up a chip's flash and RAM sizes by its exact name, exactly as
/// [`spec_get_mem_size`] describes.
pub fn get_mem_size(mcu_family: MCUFamily, mcu_name: &str) -> (r: Result<MemSize, Error>)
    ensures
        match (r, spec_get_mem_size(mcu_family, mcu_name@)) {
            (Ok(v), Ok(w)) => v == w,
            (Err(e), Err(f)) => e@ == f,
            _ => false,
        },
{
    if !(mcu_family == MCUFamily::STM32F0) {
        return Err(Error::UnsupportedFamily);
    }
    match mem_f0::mem_value(mcu_name) {
        None => Err(Error::UnknownLookupEntry { entry: chars_of_str(mcu_name) }),
        Some(m) => Ok(m),
    }
}

/// Outcome of a feature lookup: an unsupported family, no pattern
/// matching the lower-cased chip name, or the first matching pattern as
/// the canonical feature string.
pub open spec fn spec_get_feature(mcu_family: MCUFamily, name: Seq<char>) -> Result<
    Seq<char>,
    ErrorV,
> {
    if mcu_family != MCUFamily::STM32F0 {
        Err(ErrorV::UnsupportedFamily)
    } else {
        match features::spec_feature(spec_lower(name)) {
            Option::None => Err(ErrorV::UnknownLookupEntry { entry: spec_lower(name) }),
            Option::Some(f) => Ok(f),
        }
    }
}

/// Looks up the canonical feature string of a chip name, in any letter
/// case, exactly as [`spec_get_feature`] describes.
pub fn get_feature(mcu_family: MCUFamily, mcu_name: &str) -> (r: Result<String, Error>)
    ensures
        match (r, spec_get_feature(mcu_family, mcu_name@)) {
            (Ok(s), Ok(f)) => s@ == f,
            (Err(e), Err(f)) => e@ == f,
            _ => false,
        },
{
    if !(mcu_family == MCUFamily::STM32F0) {
        return Err(Error::UnsupportedFamily);
    }
    let name_chars = chars_of_str(mcu_name);
    let name_lc = lower_chars(&name_chars);
    match features::feature_value(&name_lc) {
        None => Err(Error::UnknownLookupEntry { entry: name_lc }),
        Some(f) => Ok(f),
    }
}

} // verus!
