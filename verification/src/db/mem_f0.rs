//! The memory-size table of the `STM32F0` family: exact chip name to
//! flash and RAM size in kilobytes.
use vstd::prelude::*;

use crate::db::MemSize;
use crate::text::str_eq;

verus! {

/// The flash and RAM sizes of a chip, when the table knows its name.
pub open spec fn spec_mem(name: Seq<char>) -> Option<MemSize> {
    if name == "STM32F030C6Tx"@ {
        Some(MemSize { flash: 32, ram: 4 })
    } else if name == "STM32F030C8Tx"@ {
        Some(MemSize { flash: 64, ram: 8 })
    } else if name == "STM32F030CCTx"@ {
        Some(MemSize { flash: 256, ram: 32 })
    } else if name == "STM32F030F4Px"@ {
        Some(MemSize { flash: 16, ram: 4 })
    } else if name == "STM32F030K6Tx"@ {
        Some(MemSize { flash: 32, ram: 4 })
    } else if name == "STM32F030R8Tx"@ {
        Some(MemSize { flash: 64, ram: 8 })
    } else if name == "STM32F030RCTx"@ {
        Some(MemSize { flash: 256, ram: 32 })
    } else if name == "STM32F031F4Px"@ {
        Some(MemSize { flash: 16, ram: 4 })
    } else if name == "STM32F031F6Px"@ {
        Some(MemSize { flash: 32, ram: 4 })
    } else if name == "STM32F031K6Tx"@ {
        Some(MemSize { flash: 32, ram: 4 })
    } else if name == "STM32F038F6Px"@ {
        Some(MemSize { flash: 32, ram: 4 })
    } else if name == "STM32F042F4Px"@ {
        Some(MemSize { flash: 16, ram: 6 })
    } else if name == "STM32F042F6Px"@ {
        Some(MemSize { flash: 32, ram: 6 })
    } else if name == "STM32F042K6Tx"@ {
        Some(MemSize { flash: 32, ram: 6 })
    } else if name == "STM32F048G6Ux"@ {
        Some(MemSize { flash: 32, ram: 6 })
    } else if name == "STM32F051C8Tx"@ {
        Some(MemSize { flash: 64, ram: 8 })
    } else if name == "STM32F051K8Tx"@ {
        Some(MemSize { flash: 64, ram: 8 })
    } else if name == "STM32F051R8Tx"@ {
        Some(MemSize { flash: 64, ram: 8 })
    } else if name == "STM32F058R8Tx"@ {
        Some(MemSize { flash: 64, ram: 8 })
    } else if name == "STM32F070C6Tx"@ {
        Some(MemSize { flash: 32, ram: 6 })
    } else if name == "STM32F070CBTx"@ {
        Some(MemSize { flash: 128, ram: 16 })
    } else if name == "STM32F070F6Px"@ {
        Some(MemSize { flash: 32, ram: 6 })
    } else if name == "STM32F070RBTx"@ {
        Some(MemSize { flash: 128, ram: 16 })
    } else if name == "STM32F071CBTx"@ {
        Some(MemSize { flash: 128, ram: 16 })
    } else if name == "STM32F072C8Tx"@ {
        Some(MemSize { flash: 64, ram: 16 })
    } else if name == "STM32F072CBTx"@ {
        Some(MemSize { flash: 128, ram: 16 })
    } else if name == "STM32F072RBTx"@ {
        Some(MemSize { flash: 128, ram: 16 })
    } else if name == "STM32F078CBTx"@ {
        Some(MemSize { flash: 128, ram: 16 })
    } else if name == "STM32F091RCTx"@ {
        Some(MemSize { flash: 256, ram: 32 })
    } else if name == "STM32F098RCTx"@ {
        Some(MemSize { flash: 256, ram: 32 })
    } else {
        None
    }
}

/// Looks up a chip's memory sizes, exactly as [`spec_mem`] describes.
pub fn mem_value(name: &str) -> (r: Option<MemSize>)
    ensures
        r == spec_mem(name@),
{
    if str_eq(name, "STM32F030C6Tx") {
        Some(MemSize { flash: 32, ram: 4 })
    } else if str_eq(name, "STM32F030C8Tx") {
        Some(MemSize { flash: 64, ram: 8 })
    } else if str_eq(name, "STM32F030CCTx") {
        Some(MemSize { flash: 256, ram: 32 })
    } else if str_eq(name, "STM32F030F4Px") {
        Some(MemSize { flash: 16, ram: 4 })
    } else if str_eq(name, "STM32F030K6Tx") {
        Some(MemSize { flash: 32, ram: 4 })
    } else if str_eq(name, "STM32F030R8Tx") {
        Some(MemSize { flash: 64, ram: 8 })
    } else if str_eq(name, "STM32F030RCTx") {
        Some(MemSize { flash: 256, ram: 32 })
    } else if str_eq(name, "STM32F031F4Px") {
        Some(MemSize { flash: 16, ram: 4 })
    } else if str_eq(name, "STM32F031F6Px") {
        Some(MemSize { flash: 32, ram: 4 })
    } else if str_eq(name, "STM32F031K6Tx") {
        Some(MemSize { flash: 32, ram: 4 })
    } else if str_eq(name, "STM32F038F6Px") {
        Some(MemSize { flash: 32, ram: 4 })
    } else if str_eq(name, "STM32F042F4Px") {
        Some(MemSize { flash: 16, ram: 6 })
    } else if str_eq(name, "STM32F042F6Px") {
        Some(MemSize { flash: 32, ram: 6 })
    } else if str_eq(name, "STM32F042K6Tx") {
        Some(MemSize { flash: 32, ram: 6 })
    } else if str_eq(name, "STM32F048G6Ux") {
        Some(MemSize { flash: 32, ram: 6 })
    } else if str_eq(name, "STM32F051C8Tx") {
        Some(MemSize { flash: 64, ram: 8 })
    } else if str_eq(name, "STM32F051K8Tx") {
        Some(MemSize { flash: 64, ram: 8 })
    } else if str_eq(name, "STM32F051R8Tx") {
        Some(MemSize { flash: 64, ram: 8 })
    } else if str_eq(name, "STM32F058R8Tx") {
        Some(MemSize { flash: 64, ram: 8 })
    } else if str_eq(name, "STM32F070C6Tx") {
        Some(MemSize { flash: 32, ram: 6 })
    } else if str_eq(name, "STM32F070CBTx") {
        Some(MemSize { flash: 128, ram: 16 })
    } else if str_eq(name, "STM32F070F6Px") {
        Some(MemSize { flash: 32, ram: 6 })
    } else if str_eq(name, "STM32F070RBTx") {
        Some(MemSize { flash: 128, ram: 16 })
    } else if str_eq(name, "STM32F071CBTx") {
        Some(MemSize { flash: 128, ram: 16 })
    } else if str_eq(name, "STM32F072C8Tx") {
        Some(MemSize { flash: 64, ram: 16 })
    } else if str_eq(name, "STM32F072CBTx") {
        Some(MemSize { flash: 128, ram: 16 })
    } else if str_eq(name, "STM32F072RBTx") {
        Some(MemSize { flash: 128, ram: 16 })
    } else if str_eq(name, "STM32F078CBTx") {
        Some(MemSize { flash: 128, ram: 16 })
    } else if str_eq(name, "STM32F091RCTx") {
        Some(MemSize { flash: 256, ram: 32 })
    } else if str_eq(name, "STM32F098RCTx") {
        Some(MemSize { flash: 256, ram: 32 })
    } else {
        None
    }
}

} // verus!
