use cube2rust::error::Error;
use cube2rust::gpio::SignalType;
use cube2rust::load_ioc;
use cube2rust::rawconfig::parse_ioc;
use cube2rust::rcc::{ClockSource, HSEMode};
use cube2rust::MCUFamily;

fn cv(s: &str) -> Vec<char> {
    s.chars().collect()
}

fn sample_ioc() -> &'static str {
    "File.Version=6\n\
     Mcu.Family=STM32F0\n\
     Mcu.UserName=STM32F042K6Tx\n\
     RCC.SYSCLKSource=RCC_SYSCLKSOURCE_HSI\n\
     RCC.SYSCLKFreq_VALUE=8000000\n\
     PA2.Signal=USART2_TX\n\
     PA3.Signal=USART2_RX\n\
     PB3.Signal=GPIO_Output\n\
     PB3.GPIO_Label=led\n\
     PB7.Signal=I2C1_SDA\n\
     PB8.Signal=I2C1_SCL\n\
     SPI1.BaudRatePrescaler=SPI_BAUDRATEPRESCALER_8\n\
     SPI1.CalculateBaudRate=6.0 MBits/s\n\
     USART2.BaudRate=115200\n\
     I2C1.I2C_Speed_Mode=I2C_Fast\n"
}

/// Loads the sample configuration and checks the resolved model end to
/// end.
#[test]
fn test_config() {
    let config = load_ioc(sample_ioc());
    assert!(config.is_ok());
    let config = config.unwrap();
    assert_eq!(config.version, cv("6"));
    assert_eq!(config.mcu_family, MCUFamily::STM32F0);
    assert_eq!(config.mcu_name, cv("STM32F042K6Tx"));
    assert_eq!(config.ports, vec!['A', 'B']);
    assert_eq!(config.gpios.len(), 5);
    assert_eq!(config.gpios[0].register, cv("pa2"));
    assert_eq!(config.gpios[1].register, cv("pa3"));
    assert_eq!(config.gpios[2].register, cv("pb3"));
    assert_eq!(config.gpios[3].register, cv("pb7"));
    assert_eq!(config.gpios[4].register, cv("pb8"));
    assert_eq!(config.spis.len(), 1);
    assert_eq!(config.spis[0].name_upper, cv("SPI1"));
    assert_eq!(config.spis[0].baudrate.0, 6_000_000);
    assert_eq!(config.usarts.len(), 1);
    assert_eq!(config.usarts[0].baudrate, Some(115200));
    assert_eq!(config.i2cs.len(), 1);
    assert_eq!(config.i2cs[0].name_lower, cv("i2c1"));
    assert_eq!(
        config.i2cs[0].mode,
        Some(cube2rust::i2c::Mode::I2C_Fast)
    );
}

/// Parses the sample configuration into the flat mapping and reads a few
/// raw values back.
#[test]
fn test_params() {
    let params = parse_ioc(sample_ioc());
    let mcu = params.get("Mcu").expect("Mcu object");
    assert_eq!(mcu.get("Family"), Some(&cv("STM32F0")));
    assert_eq!(mcu.get("UserName"), Some(&cv("STM32F042K6Tx")));
    let spi = params.get("SPI1").expect("SPI1 object");
    assert_eq!(spi.get("CalculateBaudRate"), Some(&cv("6.0 MBits/s")));
    assert!(params.get("SPI2").is_none());
}

/// Resolving the same text twice yields identical models.
#[test]
fn determinism_same_text_same_model() {
    let a = load_ioc(sample_ioc());
    let b = load_ioc(sample_ioc());
    assert_eq!(a, b);
    let c = load_ioc("File.Version=5\n");
    let d = load_ioc("File.Version=5\n");
    assert_eq!(c, d);
}

/// Pins PA1, PA2, PA11, PB1 in scrambled input order come out in
/// numeric-aware order, on ports A and B.
#[test]
fn numeric_aware_pin_order() {
    let text = "File.Version=6\n\
                Mcu.Family=STM32F0\n\
                Mcu.UserName=STM32F042K6Tx\n\
                RCC.SYSCLKSource=RCC_SYSCLKSOURCE_HSI\n\
                PA11.Signal=GPIO_Output\n\
                PB1.Signal=GPIO_Output\n\
                PA1.Signal=GPIO_Output\n\
                PA2.Signal=GPIO_Output\n";
    let config = load_ioc(text).unwrap();
    assert_eq!(config.ports, vec!['A', 'B']);
    let regs: Vec<Vec<char>> = config.gpios.iter().map(|g| g.register.clone()).collect();
    assert_eq!(regs, vec![cv("pa1"), cv("pa2"), cv("pa11"), cv("pb1")]);
}

/// An unsupported format version aborts before any model is built.
#[test]
fn format_version_guard() {
    let text = "File.Version=5\n\
                Mcu.Family=STM32F0\n\
                Mcu.UserName=STM32F042K6Tx\n\
                RCC.SYSCLKSource=RCC_SYSCLKSOURCE_HSI\n";
    let r = load_ioc(text);
    assert_eq!(
        r,
        Err(Error::FormatVersionMismatch { found: cv("5") })
    );
}

/// Selecting the external oscillator without a configured oscillator pin
/// fails with a missing key naming that pin; a pin present without its
/// mode string fails distinctly, naming the mode parameter.
#[test]
fn hse_without_oscillator_pin() {
    let text = "File.Version=6\n\
                Mcu.Family=STM32F0\n\
                Mcu.UserName=STM32F042K6Tx\n\
                RCC.SYSCLKSource=RCC_SYSCLKSOURCE_HSE\n";
    let r = load_ioc(text);
    assert_eq!(
        r,
        Err(Error::MissingKey {
            object: cv("PF0-OSC_IN"),
            key: cv(""),
        })
    );
    let text2 = "File.Version=6\n\
                 Mcu.Family=STM32F0\n\
                 Mcu.UserName=STM32F042K6Tx\n\
                 RCC.SYSCLKSource=RCC_SYSCLKSOURCE_HSE\n\
                 RCC.VCOOutput2Freq_Value=8000000\n\
                 PF0-OSC_IN.Signal=RCC_OSC_IN\n";
    let r2 = load_ioc(text2);
    assert_eq!(
        r2,
        Err(Error::MissingKey {
            object: cv("PF0-OSC_IN"),
            key: cv("Mode"),
        })
    );
}

/// A fully configured external oscillator resolves with its mode and
/// frequency.
#[test]
fn hse_resolved() {
    let text = "File.Version=6\n\
                Mcu.Family=STM32F0\n\
                Mcu.UserName=STM32F042K6Tx\n\
                RCC.SYSCLKSource=RCC_SYSCLKSOURCE_HSE\n\
                RCC.VCOOutput2Freq_Value=8000000\n\
                PF0-OSC_IN.Mode=HSE-External-Oscillator\n\
                PF0-OSC_IN.Signal=RCC_OSC_IN\n";
    let config = load_ioc(text).unwrap();
    assert_eq!(
        config.rcc.clock_source,
        ClockSource::HSE(HSEMode::NotBypassed(8_000_000))
    );
    assert!(config.gpios.is_empty());
    assert!(config.ports.is_empty());
}

/// The PLL selection defers to the PLL source, and a bypassed external
/// clock is recognized.
#[test]
fn pll_defers_to_pll_source() {
    let text = "File.Version=6\n\
                Mcu.Family=STM32F0\n\
                Mcu.UserName=STM32F042K6Tx\n\
                RCC.SYSCLKSource=RCC_SYSCLKSOURCE_PLLCLK\n\
                RCC.PLLSourceVirtual=RCC_PLLSOURCE_HSE\n\
                RCC.VCOOutput2Freq_Value=16000000\n\
                PF0-OSC_IN.Mode=HSE-External-Clock-Source\n\
                PF0-OSC_IN.Signal=RCC_OSC_IN\n";
    let config = load_ioc(text).unwrap();
    assert_eq!(
        config.rcc.clock_source,
        ClockSource::HSE(HSEMode::Bypassed(16_000_000))
    );
    let text2 = "File.Version=6\n\
                 Mcu.Family=STM32F0\n\
                 Mcu.UserName=STM32F042K6Tx\n\
                 RCC.SYSCLKSource=RCC_SYSCLKSOURCE_PLLCLK\n";
    let config2 = load_ioc(text2).unwrap();
    assert_eq!(config2.rcc.clock_source, ClockSource::HSI);
}

/// An unrecognized oscillator mode string is an invalid value carrying
/// the key and the raw text.
#[test]
fn hse_unknown_mode() {
    let text = "File.Version=6\n\
                Mcu.Family=STM32F0\n\
                Mcu.UserName=STM32F042K6Tx\n\
                RCC.SYSCLKSource=RCC_SYSCLKSOURCE_HSE\n\
                RCC.VCOOutput2Freq_Value=8000000\n\
                PF0-OSC_IN.Mode=Strange\n";
    let r = load_ioc(text);
    assert_eq!(
        r,
        Err(Error::InvalidEnumValue {
            key: cv("Mode"),
            value: cv("Strange"),
        })
    );
}

/// A later line for the same object and parameter overwrites the earlier
/// value.
#[test]
fn duplicate_key_last_wins() {
    let text = "File.Version=5\nFile.Version=6\n\
                Mcu.Family=STM32F0\n\
                Mcu.UserName=STM32F042K6Tx\n\
                RCC.SYSCLKSource=RCC_SYSCLKSOURCE_HSI\n";
    let config = load_ioc(text).unwrap();
    assert_eq!(config.version, cv("6"));
}

/// Lines without exactly one `=`, or whose left side lacks exactly one
/// `.`, are ignored.
#[test]
fn malformed_lines_ignored() {
    let text = "just a comment\n\
                File.Version=6\n\
                a=b\n\
                a.b.c=d\n\
                x=y=z\n\
                Mcu.Family=STM32F0\n\
                Mcu.UserName=STM32F042K6Tx\n\
                RCC.SYSCLKSource=RCC_SYSCLKSOURCE_HSI\n";
    let params = parse_ioc(text);
    assert_eq!(params.sections.len(), 3);
    let config = load_ioc(text).unwrap();
    assert_eq!(config.version, cv("6"));
}

/// A pin without the mandatory `Signal` parameter is a missing key naming
/// the pin object.
#[test]
fn missing_signal_is_missing_key() {
    let text = "File.Version=6\n\
                Mcu.Family=STM32F0\n\
                Mcu.UserName=STM32F042K6Tx\n\
                RCC.SYSCLKSource=RCC_SYSCLKSOURCE_HSI\n\
                PA5.GPIO_Label=oops\n";
    let r = load_ioc(text);
    assert_eq!(
        r,
        Err(Error::MissingKey {
            object: cv("PA5"),
            key: cv("Signal"),
        })
    );
}

/// A present parameter with an unrecognized variant is an invalid value.
#[test]
fn invalid_enum_value_reported() {
    let text = "File.Version=6\n\
                Mcu.Family=STM32F0\n\
                Mcu.UserName=STM32F042K6Tx\n\
                RCC.SYSCLKSource=RCC_SYSCLKSOURCE_HSI\n\
                PA5.Signal=GPIO_Output\n\
                PA5.PinState=GPIO_PIN_MAYBE\n";
    let r = load_ioc(text);
    assert_eq!(
        r,
        Err(Error::InvalidEnumValue {
            key: cv("PinState"),
            value: cv("GPIO_PIN_MAYBE"),
        })
    );
}

/// A non-integer USART baud rate is an invalid integer.
#[test]
fn invalid_integer_reported() {
    let text = "File.Version=6\n\
                Mcu.Family=STM32F0\n\
                Mcu.UserName=STM32F042K6Tx\n\
                RCC.SYSCLKSource=RCC_SYSCLKSOURCE_HSI\n\
                USART1.BaudRate=fast\n";
    let r = load_ioc(text);
    assert_eq!(r, Err(Error::InvalidInteger { key: cv("BaudRate") }));
}

/// Signal roles map to the fixed variants, everything else to a
/// peripheral function carrying the exact text.
#[test]
fn signal_roles() {
    let text = "File.Version=6\n\
                Mcu.Family=STM32F0\n\
                Mcu.UserName=STM32F042K6Tx\n\
                RCC.SYSCLKSource=RCC_SYSCLKSOURCE_HSI\n\
                PA0.Signal=GPIO_Input\n\
                PA1.Signal=GPIO_Output\n\
                PA2.Signal=GPIO_Analog\n\
                PA3.Signal=USART2_RX\n";
    let config = load_ioc(text).unwrap();
    assert_eq!(config.gpios[0].signal, SignalType::GpioInput);
    assert_eq!(config.gpios[1].signal, SignalType::GpioOutput);
    assert_eq!(config.gpios[2].signal, SignalType::AdcInput);
    assert_eq!(
        config.gpios[3].signal,
        SignalType::Peripheral(cv("USART2_RX"))
    );
}

/// A pin display name: the label when set, the lower-cased peripheral
/// name, or the prefixed register name.
#[test]
fn pin_display_names() {
    let text = "File.Version=6\n\
                Mcu.Family=STM32F0\n\
                Mcu.UserName=STM32F042K6Tx\n\
                RCC.SYSCLKSource=RCC_SYSCLKSOURCE_HSI\n\
                PA0.Signal=GPIO_Output\n\
                PA0.GPIO_Label=relay\n\
                PA1.Signal=USART2_RX\n\
                PA2.Signal=GPIO_Analog\n\
                PA3.Signal=GPIO_Input\n";
    let config = load_ioc(text).unwrap();
    assert_eq!(config.gpios[0].get_name(), cv("relay"));
    assert_eq!(config.gpios[1].get_name(), cv("usart2_rx"));
    assert_eq!(config.gpios[2].get_name(), cv("adc_pa2"));
    assert_eq!(config.gpios[3].get_name(), cv("gpio_pa3"));
}

/// An I2C controller is discovered from a pin signal even when it has no
/// object of its own.
#[test]
fn i2c_discovered_without_object() {
    let text = "File.Version=6\n\
                Mcu.Family=STM32F0\n\
                Mcu.UserName=STM32F042K6Tx\n\
                RCC.SYSCLKSource=RCC_SYSCLKSOURCE_HSI\n\
                PB7.Signal=I2C1_SDA\n\
                PB8.Signal=I2C1_SCL\n";
    let config = load_ioc(text).unwrap();
    assert_eq!(config.i2cs.len(), 1);
    assert_eq!(config.i2cs[0].name_upper, cv("I2C1"));
    assert_eq!(config.i2cs[0].name_lower, cv("i2c1"));
    assert_eq!(config.i2cs[0].mode, None);
}

/// An SPI object without its mandatory prescaler is a missing key.
#[test]
fn spi_missing_prescaler() {
    let text = "File.Version=6\n\
                Mcu.Family=STM32F0\n\
                Mcu.UserName=STM32F042K6Tx\n\
                RCC.SYSCLKSource=RCC_SYSCLKSOURCE_HSI\n\
                SPI1.CalculateBaudRate=6.0 MBits/s\n";
    let r = load_ioc(text);
    assert_eq!(
        r,
        Err(Error::MissingKey {
            object: cv("SPI1"),
            key: cv("BaudRatePrescaler"),
        })
    );
}

/// Carriage-return line endings parse like plain newlines.
#[test]
fn crlf_line_endings() {
    let text = "File.Version=6\r\n\
                Mcu.Family=STM32F0\r\n\
                Mcu.UserName=STM32F042K6Tx\r\n\
                RCC.SYSCLKSource=RCC_SYSCLKSOURCE_HSI\r\n";
    let config = load_ioc(text).unwrap();
    assert_eq!(config.version, cv("6"));
    assert_eq!(config.mcu_name, cv("STM32F042K6Tx"));
}

/// Two objects whose names match the same pin token keep their input
/// order, so resolution stays deterministic on ties.
#[test]
fn tied_pin_tokens_keep_input_order() {
    let text = "File.Version=6\n\
                Mcu.Family=STM32F0\n\
                Mcu.UserName=STM32F042K6Tx\n\
                RCC.SYSCLKSource=RCC_SYSCLKSOURCE_HSI\n\
                PA1-ALT.Signal=GPIO_Input\n\
                PA1.Signal=GPIO_Output\n";
    let config = load_ioc(text).unwrap();
    assert_eq!(config.gpios.len(), 2);
    assert_eq!(config.gpios[0].signal, SignalType::GpioInput);
    assert_eq!(config.gpios[1].signal, SignalType::GpioOutput);
}

/// A pin number written with a leading zero orders before the same number
/// written without one, and normalizes to the same register.
#[test]
fn leading_zero_pin_number() {
    let text = "File.Version=6\n\
                Mcu.Family=STM32F0\n\
                Mcu.UserName=STM32F042K6Tx\n\
                RCC.SYSCLKSource=RCC_SYSCLKSOURCE_HSI\n\
                PA1.Signal=GPIO_Output\n\
                PA01.Signal=GPIO_Input\n";
    let config = load_ioc(text).unwrap();
    assert_eq!(config.gpios.len(), 2);
    assert_eq!(config.gpios[0].signal, SignalType::GpioInput);
    assert_eq!(config.gpios[0].register, cv("pa1"));
    assert_eq!(config.gpios[1].signal, SignalType::GpioOutput);
    assert_eq!(config.gpios[1].register, cv("pa1"));
}

/// Empty input resolves to nothing: the format-version key is missing.
#[test]
fn empty_input() {
    let r = load_ioc("");
    assert_eq!(
        r,
        Err(Error::MissingKey {
            object: cv("File"),
            key: cv("Version"),
        })
    );
    assert!(parse_ioc("").sections.is_empty());
}

/// Integer parameters accept the full 32-bit range and nothing beyond it.
#[test]
fn integer_bounds() {
    let text = "File.Version=6\n\
                Mcu.Family=STM32F0\n\
                Mcu.UserName=STM32F042K6Tx\n\
                RCC.SYSCLKSource=RCC_SYSCLKSOURCE_HSI\n\
                USART1.BaudRate=4294967295\n";
    let config = load_ioc(text).unwrap();
    assert_eq!(config.usarts[0].baudrate, Some(u32::MAX));
    let text2 = "File.Version=6\n\
                 Mcu.Family=STM32F0\n\
                 Mcu.UserName=STM32F042K6Tx\n\
                 RCC.SYSCLKSource=RCC_SYSCLKSOURCE_HSI\n\
                 USART1.BaudRate=4294967296\n";
    let r = load_ioc(text2);
    assert_eq!(r, Err(Error::InvalidInteger { key: cv("BaudRate") }));
}

/// A missing RCC object aborts resolution.
#[test]
fn missing_rcc_object() {
    let text = "File.Version=6\n\
                Mcu.Family=STM32F0\n\
                Mcu.UserName=STM32F042K6Tx\n";
    let r = load_ioc(text);
    assert_eq!(
        r,
        Err(Error::MissingKey {
            object: cv("RCC"),
            key: cv(""),
        })
    );
}
