use cube2rust::db::{get_alternate_function, get_feature, get_mem_size, MemSize};
use cube2rust::error::Error;
use cube2rust::gpio::parse_name;
use cube2rust::spi::BaudRate;
use cube2rust::utils::{ParamValue, ValueFail};
use cube2rust::MCUFamily;

fn cv(s: &str) -> Vec<char> {
    s.chars().collect()
}

/// Alternate-function routing: known function and pin give the index,
/// an unsupported pin gives an unknown-entry failure.
#[test]
fn alternate_function_lookup() {
    assert_eq!(
        get_alternate_function(MCUFamily::STM32F0, "I2C1_SCL", "pa9"),
        Ok(4)
    );
    assert_eq!(
        get_alternate_function(MCUFamily::STM32F0, "I2C1_SCL", "pa11"),
        Ok(5)
    );
    assert_eq!(
        get_alternate_function(MCUFamily::STM32F0, "I2C1_SCL", "pa1"),
        Err(Error::UnknownLookupEntry { entry: cv("pa1") })
    );
}

/// A peripheral function the table does not know at all is reported with
/// the function's name.
#[test]
fn alternate_function_unknown_function() {
    assert_eq!(
        get_alternate_function(MCUFamily::STM32F0, "CAN1_TX", "pa12"),
        Err(Error::UnknownLookupEntry { entry: cv("CAN1_TX") })
    );
    assert_eq!(
        get_alternate_function(MCUFamily::STM32F0, "SPI1_SCK", "pa5"),
        Ok(0)
    );
    assert_eq!(
        get_alternate_function(MCUFamily::STM32F0, "USART3_TX", "pb10"),
        Ok(4)
    );
}

/// A family without lookup data is unsupported, distinctly from any miss
/// inside the supported family.
#[test]
fn unsupported_family() {
    assert_eq!(
        get_alternate_function(MCUFamily::STM32F4, "I2C1_SCL", "pa9"),
        Err(Error::UnsupportedFamily)
    );
    assert_eq!(
        get_mem_size(MCUFamily::STM32L0, "STM32F042K6Tx"),
        Err(Error::UnsupportedFamily)
    );
    assert_eq!(
        get_feature(MCUFamily::STM32G0, "STM32F030x4"),
        Err(Error::UnsupportedFamily)
    );
}

/// Memory sizes by exact chip name; a name the table lacks is an unknown
/// entry.
#[test]
fn memory_size_lookup() {
    assert_eq!(
        get_mem_size(MCUFamily::STM32F0, "STM32F042K6Tx"),
        Ok(MemSize { flash: 32, ram: 6 })
    );
    assert_eq!(
        get_mem_size(MCUFamily::STM32F0, "STM32F030F4Px"),
        Ok(MemSize { flash: 16, ram: 4 })
    );
    assert_eq!(
        get_mem_size(MCUFamily::STM32F0, "STM32F9ZZZZZZ"),
        Err(Error::UnknownLookupEntry { entry: cv("STM32F9ZZZZZZ") })
    );
}

/// Feature patterns: the wildcard-digit pattern resolves the chip name in
/// any letter case, and a name matching no pattern is an unknown entry.
#[test]
fn feature_pattern_lookup() {
    let f = get_feature(MCUFamily::STM32F0, "STM32F030x4").unwrap();
    assert_eq!(f, "stm32f030x4".to_string());
    let f2 = get_feature(MCUFamily::STM32F0, "stm32f030X4").unwrap();
    assert_eq!(f2, "stm32f030x4".to_string());
    let f3 = get_feature(MCUFamily::STM32F0, "STM32F030C6Tx").unwrap();
    assert_eq!(f3, "stm32f030x6".to_string());
    let f4 = get_feature(MCUFamily::STM32F0, "STM32F042K6Tx").unwrap();
    assert_eq!(f4, "stm32f042".to_string());
    assert_eq!(
        get_feature(MCUFamily::STM32F0, "STM32F999"),
        Err(Error::UnknownLookupEntry { entry: cv("stm32f999") })
    );
}

/// Baud-rate texts scale to exact integer hertz, fractional hertz
/// truncated; an unrecognized unit is rejected with the raw value.
#[test]
fn baud_rate_parsing() {
    assert_eq!(
        <BaudRate as ParamValue>::from_text(&cv("3.0 MBits/s")),
        Ok(BaudRate(3_000_000))
    );
    assert_eq!(
        <BaudRate as ParamValue>::from_text(&cv("115.2 kBits/s")),
        Ok(BaudRate(115_200))
    );
    assert_eq!(
        <BaudRate as ParamValue>::from_text(&cv("9600 Bits/s")),
        Ok(BaudRate(9600))
    );
    assert_eq!(
        <BaudRate as ParamValue>::from_text(&cv("1.5 Baud/s")),
        Err(ValueFail::NotRecognized)
    );
    assert_eq!(
        <BaudRate as ParamValue>::from_text(&cv("x.y MBits/s")),
        Err(ValueFail::NotInteger)
    );
}

/// The fraction beyond the unit's resolution is truncated, never rounded.
#[test]
fn baud_rate_truncation() {
    assert_eq!(
        <BaudRate as ParamValue>::from_text(&cv("0.0009 kBits/s")),
        Ok(BaudRate(0))
    );
    assert_eq!(
        <BaudRate as ParamValue>::from_text(&cv("1.2345 kBits/s")),
        Ok(BaudRate(1234))
    );
    assert_eq!(
        <BaudRate as ParamValue>::from_text(&cv("2.9999999 MBits/s")),
        Ok(BaudRate(2_999_999))
    );
}

/// The parameter types with a documented default yield it.
#[test]
fn parameter_defaults() {
    assert_eq!(
        cube2rust::gpio::PullType::default(),
        cube2rust::gpio::PullType::GPIO_NOPULL
    );
    assert_eq!(
        cube2rust::gpio::ModeOutputType::default(),
        cube2rust::gpio::ModeOutputType::GPIO_MODE_OUTPUT_PP
    );
    assert_eq!(
        cube2rust::gpio::SpeedType::default(),
        cube2rust::gpio::SpeedType::GPIO_SPEED_FREQ_LOW
    );
    assert_eq!(
        cube2rust::spi::CLKPhase::default(),
        cube2rust::spi::CLKPhase::SPI_PHASE_1EDGE
    );
    assert_eq!(
        cube2rust::spi::CLKPolarity::default(),
        cube2rust::spi::CLKPolarity::SPI_POLARITY_LOW
    );
    assert_eq!(
        cube2rust::i2c::Mode::default(),
        cube2rust::i2c::Mode::I2C_Standard
    );
    assert_eq!(
        cube2rust::rcc::SYSCLKSourceType::default(),
        cube2rust::rcc::SYSCLKSourceType::RCC_SYSCLKSOURCE_HSI
    );
}

/// A baud rate beyond the 32-bit range is rejected as a numeric failure.
#[test]
fn baud_rate_overflow() {
    assert_eq!(
        <BaudRate as ParamValue>::from_text(&cv("5000 MBits/s")),
        Err(ValueFail::NotInteger)
    );
    assert_eq!(
        <BaudRate as ParamValue>::from_text(&cv("4294 MBits/s")),
        Ok(BaudRate(4_294_000_000))
    );
}

/// Pin names parse into port and register identifiers; anything else is
/// malformed.
#[test]
fn pin_name_parsing() {
    assert_eq!(parse_name(&cv("PA7")), Ok((cv("GPIOA"), cv("pa7"))));
    assert_eq!(parse_name(&cv("PB11")), Ok((cv("GPIOB"), cv("pb11"))));
    assert_eq!(
        parse_name(&cv("PX")),
        Err(Error::MalformedPinName { name: cv("PX") })
    );
    assert_eq!(
        parse_name(&cv("PAx")),
        Err(Error::MalformedPinName { name: cv("PAx") })
    );
    assert_eq!(parse_name(&cv("PA123")), Ok((cv("GPIOA"), cv("pa123"))));
    assert_eq!(
        parse_name(&cv("PA256")),
        Err(Error::MalformedPinName { name: cv("PA256") })
    );
    assert_eq!(parse_name(&cv("PA07")), Ok((cv("GPIOA"), cv("pa7"))));
}
