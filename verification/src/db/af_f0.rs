//! The alternate-function index table of the `STM32F0` family: for each
//! routable peripheral function, which pins can carry it and under which
//! alternate-function index (0-7).
use vstd::prelude::*;

use crate::text::str_eq;

verus! {

/// True when the family's table has alternate-function data for this
/// peripheral function at all.
pub open spec fn spec_af_known(func: Seq<char>) -> bool {
    func == "I2C1_SCL"@
        || func == "I2C1_SDA"@
        || func == "I2C2_SCL"@
        || func == "I2C2_SDA"@
        || func == "SPI1_MISO"@
        || func == "SPI1_MOSI"@
        || func == "SPI1_SCK"@
        || func == "SPI2_MISO"@
        || func == "SPI2_MOSI"@
        || func == "SPI2_SCK"@
        || func == "USART1_RX"@
        || func == "USART1_TX"@
        || func == "USART2_RX"@
        || func == "USART2_TX"@
        || func == "USART3_RX"@
        || func == "USART3_TX"@
        || func == "USART4_RX"@
        || func == "USART4_TX"@
        || func == "USART5_RX"@
        || func == "USART5_TX"@
        || func == "USART6_RX"@
        || func == "USART6_TX"@
        || func == "USART7_RX"@
        || func == "USART7_TX"@
        || func == "USART8_RX"@
        || func == "USART8_TX"@
}

/// The alternate-function index of `func` on pin register `reg`, when the
/// pin supports the function.
pub open spec fn spec_af(func: Seq<char>, reg: Seq<char>) -> Option<u8> {
    if func == "I2C1_SCL"@ {
        if reg == "pa9"@ {
            Some(4u8)
        } else if reg == "pa11"@ {
            Some(5u8)
        } else if reg == "pb6"@ {
            Some(1u8)
        } else if reg == "pb8"@ {
            Some(1u8)
        } else if reg == "pb10"@ {
            Some(1u8)
        } else if reg == "pb13"@ {
            Some(5u8)
        } else if reg == "pf1"@ {
            Some(1u8)
        } else {
            None
        }
    } else if func == "I2C1_SDA"@ {
        if reg == "pa10"@ {
            Some(4u8)
        } else if reg == "pa12"@ {
            Some(5u8)
        } else if reg == "pb7"@ {
            Some(1u8)
        } else if reg == "pb9"@ {
            Some(1u8)
        } else if reg == "pb11"@ {
            Some(1u8)
        } else if reg == "pb14"@ {
            Some(5u8)
        } else if reg == "pf0"@ {
            Some(1u8)
        } else {
            None
        }
    } else if func == "I2C2_SCL"@ {
        if reg == "pa11"@ {
            Some(5u8)
        } else if reg == "pb10"@ {
            Some(1u8)
        } else if reg == "pb13"@ {
            Some(5u8)
        } else {
            None
        }
    } else if func == "I2C2_SDA"@ {
        if reg == "pa12"@ {
            Some(5u8)
        } else if reg == "pb11"@ {
            Some(1u8)
        } else if reg == "pb14"@ {
            Some(5u8)
        } else {
            None
        }
    } else if func == "SPI1_MISO"@ {
        if reg == "pa6"@ {
            Some(0u8)
        } else if reg == "pb4"@ {
            Some(0u8)
        } else if reg == "pb14"@ {
            Some(0u8)
        } else if reg == "pe14"@ {
            Some(1u8)
        } else {
            None
        }
    } else if func == "SPI1_MOSI"@ {
        if reg == "pa7"@ {
            Some(0u8)
        } else if reg == "pb5"@ {
            Some(0u8)
        } else if reg == "pb15"@ {
            Some(0u8)
        } else if reg == "pe15"@ {
            Some(1u8)
        } else {
            None
        }
    } else if func == "SPI1_SCK"@ {
        if reg == "pa5"@ {
            Some(0u8)
        } else if reg == "pb3"@ {
            Some(0u8)
        } else if reg == "pb13"@ {
            Some(0u8)
        } else if reg == "pe13"@ {
            Some(1u8)
        } else {
            None
        }
    } else if func == "SPI2_MISO"@ {
        if reg == "pb14"@ {
            Some(0u8)
        } else if reg == "pc2"@ {
            Some(1u8)
        } else if reg == "pd3"@ {
            Some(1u8)
        } else {
            None
        }
    } else if func == "SPI2_MOSI"@ {
        if reg == "pb15"@ {
            Some(0u8)
        } else if reg == "pc3"@ {
            Some(1u8)
        } else if reg == "pd4"@ {
            Some(1u8)
        } else {
            None
        }
    } else if func == "SPI2_SCK"@ {
        if reg == "pb10"@ {
            Some(5u8)
        } else if reg == "pb13"@ {
            Some(0u8)
        } else if reg == "pd1"@ {
            Some(1u8)
        } else {
            None
        }
    } else if func == "USART1_RX"@ {
        if reg == "pa3"@ {
            Some(1u8)
        } else if reg == "pa10"@ {
            Some(1u8)
        } else if reg == "pa15"@ {
            Some(1u8)
        } else if reg == "pb7"@ {
            Some(0u8)
        } else {
            None
        }
    } else if func == "USART1_TX"@ {
        if reg == "pa2"@ {
            Some(1u8)
        } else if reg == "pa9"@ {
            Some(1u8)
        } else if reg == "pa14"@ {
            Some(1u8)
        } else if reg == "pb6"@ {
            Some(0u8)
        } else {
            None
        }
    } else if func == "USART2_RX"@ {
        if reg == "pa3"@ {
            Some(1u8)
        } else if reg == "pa15"@ {
            Some(1u8)
        } else if reg == "pd6"@ {
            Some(0u8)
        } else {
            None
        }
    } else if func == "USART2_TX"@ {
        if reg == "pa2"@ {
            Some(1u8)
        } else if reg == "pa14"@ {
            Some(1u8)
        } else if reg == "pd5"@ {
            Some(0u8)
        } else {
            None
        }
    } else if func == "USART3_RX"@ {
        if reg == "pb11"@ {
            Some(4u8)
        } else if reg == "pc5"@ {
            Some(1u8)
        } else if reg == "pc11"@ {
            Some(1u8)
        } else if reg == "pd9"@ {
            Some(0u8)
        } else {
            None
        }
    } else if func == "USART3_TX"@ {
        if reg == "pb10"@ {
            Some(4u8)
        } else if reg == "pc4"@ {
            Some(1u8)
        } else if reg == "pc10"@ {
            Some(1u8)
        } else if reg == "pd8"@ {
            Some(0u8)
        } else {
            None
        }
    } else if func == "USART4_RX"@ {
        if reg == "pa1"@ {
            Some(4u8)
        } else if reg == "pc11"@ {
            Some(0u8)
        } else if reg == "pe9"@ {
            Some(1u8)
        } else {
            None
        }
    } else if func == "USART4_TX"@ {
        if reg == "pa0"@ {
            Some(4u8)
        } else if reg == "pc10"@ {
            Some(0u8)
        } else if reg == "pe8"@ {
            Some(1u8)
        } else {
            None
        }
    } else if func == "USART5_RX"@ {
        if reg == "pb4"@ {
            Some(4u8)
        } else if reg == "pd2"@ {
            Some(2u8)
        } else if reg == "pe11"@ {
            Some(1u8)
        } else {
            None
        }
    } else if func == "USART5_TX"@ {
        if reg == "pb3"@ {
            Some(4u8)
        } else if reg == "pc12"@ {
            Some(2u8)
        } else if reg == "pe10"@ {
            Some(1u8)
        } else {
            None
        }
    } else if func == "USART6_RX"@ {
        if reg == "pa5"@ {
            Some(5u8)
        } else if reg == "pc1"@ {
            Some(2u8)
        } else if reg == "pf10"@ {
            Some(1u8)
        } else {
            None
        }
    } else if func == "USART6_TX"@ {
        if reg == "pa4"@ {
            Some(5u8)
        } else if reg == "pc0"@ {
            Some(2u8)
        } else if reg == "pf9"@ {
            Some(1u8)
        } else {
            None
        }
    } else if func == "USART7_RX"@ {
        if reg == "pc1"@ {
            Some(1u8)
        } else if reg == "pc7"@ {
            Some(1u8)
        } else if reg == "pf3"@ {
            Some(1u8)
        } else {
            None
        }
    } else if func == "USART7_TX"@ {
        if reg == "pc0"@ {
            Some(1u8)
        } else if reg == "pc6"@ {
            Some(1u8)
        } else if reg == "pf2"@ {
            Some(1u8)
        } else {
            None
        }
    } else if func == "USART8_RX"@ {
        if reg == "pc3"@ {
            Some(2u8)
        } else if reg == "pc9"@ {
            Some(1u8)
        } else if reg == "pd14"@ {
            Some(0u8)
        } else {
            None
        }
    } else if func == "USART8_TX"@ {
        if reg == "pc2"@ {
            Some(2u8)
        } else if reg == "pc8"@ {
            Some(1u8)
        } else if reg == "pd13"@ {
            Some(0u8)
        } else {
            None
        }
    } else {
        None
    }
}

/// Tests whether the table knows this peripheral function.
pub fn af_known(func: &str) -> (r: bool)
    ensures
        r == spec_af_known(func@),
{
    str_eq(func, "I2C1_SCL")
        || str_eq(func, "I2C1_SDA")
        || str_eq(func, "I2C2_SCL")
        || str_eq(func, "I2C2_SDA")
        || str_eq(func, "SPI1_MISO")
        || str_eq(func, "SPI1_MOSI")
        || str_eq(func, "SPI1_SCK")
        || str_eq(func, "SPI2_MISO")
        || str_eq(func, "SPI2_MOSI")
        || str_eq(func, "SPI2_SCK")
        || str_eq(func, "USART1_RX")
        || str_eq(func, "USART1_TX")
        || str_eq(func, "USART2_RX")
        || str_eq(func, "USART2_TX")
        || str_eq(func, "USART3_RX")
        || str_eq(func, "USART3_TX")
        || str_eq(func, "USART4_RX")
        || str_eq(func, "USART4_TX")
        || str_eq(func, "USART5_RX")
        || str_eq(func, "USART5_TX")
        || str_eq(func, "USART6_RX")
        || str_eq(func, "USART6_TX")
        || str_eq(func, "USART7_RX")
        || str_eq(func, "USART7_TX")
        || str_eq(func, "USART8_RX")
        || str_eq(func, "USART8_TX")
}

/// Looks up the alternate-function index, exactly as [`spec_af`]
/// describes.
pub fn af_value(func: &str, reg: &str) -> (r: Option<u8>)
    ensures
        r == spec_af(func@, reg@),
{
    if str_eq(func, "I2C1_SCL") {
        if str_eq(reg, "pa9") {
            Some(4)
        } else if str_eq(reg, "pa11") {
            Some(5)
        } else if str_eq(reg, "pb6") {
            Some(1)
        } else if str_eq(reg, "pb8") {
            Some(1)
        } else if str_eq(reg, "pb10") {
            Some(1)
        } else if str_eq(reg, "pb13") {
            Some(5)
        } else if str_eq(reg, "pf1") {
            Some(1)
        } else {
            None
        }
    } else if str_eq(func, "I2C1_SDA") {
        if str_eq(reg, "pa10") {
            Some(4)
        } else if str_eq(reg, "pa12") {
            Some(5)
        } else if str_eq(reg, "pb7") {
            Some(1)
        } else if str_eq(reg, "pb9") {
            Some(1)
        } else if str_eq(reg, "pb11") {
            Some(1)
        } else if str_eq(reg, "pb14") {
            Some(5)
        } else if str_eq(reg, "pf0") {
            Some(1)
        } else {
            None
        }
    } else if str_eq(func, "I2C2_SCL") {
        if str_eq(reg, "pa11") {
            Some(5)
        } else if str_eq(reg, "pb10") {
            Some(1)
        } else if str_eq(reg, "pb13") {
            Some(5)
        } else {
            None
        }
    } else if str_eq(func, "I2C2_SDA") {
        if str_eq(reg, "pa12") {
            Some(5)
        } else if str_eq(reg, "pb11") {
            Some(1)
        } else if str_eq(reg, "pb14") {
            Some(5)
        } else {
            None
        }
    } else if str_eq(func, "SPI1_MISO") {
        if str_eq(reg, "pa6") {
            Some(0)
        } else if str_eq(reg, "pb4") {
            Some(0)
        } else if str_eq(reg, "pb14") {
            Some(0)
        } else if str_eq(reg, "pe14") {
            Some(1)
        } else {
            None
        }
    } else if str_eq(func, "SPI1_MOSI") {
        if str_eq(reg, "pa7") {
            Some(0)
        } else if str_eq(reg, "pb5") {
            Some(0)
        } else if str_eq(reg, "pb15") {
            Some(0)
        } else if str_eq(reg, "pe15") {
            Some(1)
        } else {
            None
        }
    } else if str_eq(func, "SPI1_SCK") {
        if str_eq(reg, "pa5") {
            Some(0)
        } else if str_eq(reg, "pb3") {
            Some(0)
        } else if str_eq(reg, "pb13") {
            Some(0)
        } else if str_eq(reg, "pe13") {
            Some(1)
        } else {
            None
        }
    } else if str_eq(func, "SPI2_MISO") {
        if str_eq(reg, "pb14") {
            Some(0)
        } else if str_eq(reg, "pc2") {
            Some(1)
        } else if str_eq(reg, "pd3") {
            Some(1)
        } else {
            None
        }
    } else if str_eq(func, "SPI2_MOSI") {
        if str_eq(reg, "pb15") {
            Some(0)
        } else if str_eq(reg, "pc3") {
            Some(1)
        } else if str_eq(reg, "pd4") {
            Some(1)
        } else {
            None
        }
    } else if str_eq(func, "SPI2_SCK") {
        if str_eq(reg, "pb10") {
            Some(5)
        } else if str_eq(reg, "pb13") {
            Some(0)
        } else if str_eq(reg, "pd1") {
            Some(1)
        } else {
            None
        }
    } else if str_eq(func, "USART1_RX") {
        if str_eq(reg, "pa3") {
            Some(1)
        } else if str_eq(reg, "pa10") {
            Some(1)
        } else if str_eq(reg, "pa15") {
            Some(1)
        } else if str_eq(reg, "pb7") {
            Some(0)
        } else {
            None
        }
    } else if str_eq(func, "USART1_TX") {
        if str_eq(reg, "pa2") {
            Some(1)
        } else if str_eq(reg, "pa9") {
            Some(1)
        } else if str_eq(reg, "pa14") {
            Some(1)
        } else if str_eq(reg, "pb6") {
            Some(0)
        } else {
            None
        }
    } else if str_eq(func, "USART2_RX") {
        if str_eq(reg, "pa3") {
            Some(1)
        } else if str_eq(reg, "pa15") {
            Some(1)
        } else if str_eq(reg, "pd6") {
            Some(0)
        } else {
            None
        }
    } else if str_eq(func, "USART2_TX") {
        if str_eq(reg, "pa2") {
            Some(1)
        } else if str_eq(reg, "pa14") {
            Some(1)
        } else if str_eq(reg, "pd5") {
            Some(0)
        } else {
            None
        }
    } else if str_eq(func, "USART3_RX") {
        if str_eq(reg, "pb11") {
            Some(4)
        } else if str_eq(reg, "pc5") {
            Some(1)
        } else if str_eq(reg, "pc11") {
            Some(1)
        } else if str_eq(reg, "pd9") {
            Some(0)
        } else {
            None
        }
    } else if str_eq(func, "USART3_TX") {
        if str_eq(reg, "pb10") {
            Some(4)
        } else if str_eq(reg, "pc4") {
            Some(1)
        } else if str_eq(reg, "pc10") {
            Some(1)
        } else if str_eq(reg, "pd8") {
            Some(0)
        } else {
            None
        }
    } else if str_eq(func, "USART4_RX") {
        if str_eq(reg, "pa1") {
            Some(4)
        } else if str_eq(reg, "pc11") {
            Some(0)
        } else if str_eq(reg, "pe9") {
            Some(1)
        } else {
            None
        }
    } else if str_eq(func, "USART4_TX") {
        if str_eq(reg, "pa0") {
            Some(4)
        } else if str_eq(reg, "pc10") {
            Some(0)
        } else if str_eq(reg, "pe8") {
            Some(1)
        } else {
            None
        }
    } else if str_eq(func, "USART5_RX") {
        if str_eq(reg, "pb4") {
            Some(4)
        } else if str_eq(reg, "pd2") {
            Some(2)
        } else if str_eq(reg, "pe11") {
            Some(1)
        } else {
            None
        }
    } else if str_eq(func, "USART5_TX") {
        if str_eq(reg, "pb3") {
            Some(4)
        } else if str_eq(reg, "pc12") {
            Some(2)
        } else if str_eq(reg, "pe10") {
            Some(1)
        } else {
            None
        }
    } else if str_eq(func, "USART6_RX") {
        if str_eq(reg, "pa5") {
            Some(5)
        } else if str_eq(reg, "pc1") {
            Some(2)
        } else if str_eq(reg, "pf10") {
            Some(1)
        } else {
            None
        }
    } else if str_eq(func, "USART6_TX") {
        if str_eq(reg, "pa4") {
            Some(5)
        } else if str_eq(reg, "pc0") {
            Some(2)
        } else if str_eq(reg, "pf9") {
            Some(1)
        } else {
            None
        }
    } else if str_eq(func, "USART7_RX") {
        if str_eq(reg, "pc1") {
            Some(1)
        } else if str_eq(reg, "pc7") {
            Some(1)
        } else if str_eq(reg, "pf3") {
            Some(1)
        } else {
            None
        }
    } else if str_eq(func, "USART7_TX") {
        if str_eq(reg, "pc0") {
            Some(1)
        } else if str_eq(reg, "pc6") {
            Some(1)
        } else if str_eq(reg, "pf2") {
            Some(1)
        } else {
            None
        }
    } else if str_eq(func, "USART8_RX") {
        if str_eq(reg, "pc3") {
            Some(2)
        } else if str_eq(reg, "pc9") {
            Some(1)
        } else if str_eq(reg, "pd14") {
            Some(0)
        } else {
            None
        }
    } else if str_eq(func, "USART8_TX") {
        if str_eq(reg, "pc2") {
            Some(2)
        } else if str_eq(reg, "pc8") {
            Some(1)
        } else if str_eq(reg, "pd13") {
            Some(0)
        } else {
            None
        }
    } else {
        None
    }
}

} // verus!
