//! The SPI resolver: probes the configuration for objects literally named
//! `SPI1` .. `SPI6` and builds one controller entry per hit. The baud rate
//! is given as text of the form `<number> <unit>/s` and is scaled to an
//! exact integer hertz count, fractional hertz truncated.
use vstd::prelude::*;

use crate::error::{view_res_seq, Error, ErrorV};
use crate::rawconfig::{
    count_char, find_section, first_occ, lemma_count_none, lemma_first_occ, scan_char, sub_chars,
    RawConfig, SectionV,
};
use crate::text::{
    chars_eq_str, chars_of_str, lemma_digits_val_nonneg, parse_u32_chars, spec_all_digits,
    spec_digits_val, spec_is_digit,
};
use crate::utils::{
    parse_mandatory_param, parse_optional_param, spec_mandatory, spec_optional, ParamValue,
    ValueFail,
};

verus! {

/// The recognized clock-phase values.
#[allow(non_camel_case_types)]
#[derive(Debug, Copy, Clone, PartialEq, Eq, Structural)]
pub enum CLKPhase {
    SPI_PHASE_1EDGE,
    SPI_PHASE_2EDGE,
}

impl View for CLKPhase {
    type V = CLKPhase;

    open spec fn view(&self) -> CLKPhase {
        *self
    }
}

impl ParamValue for CLKPhase {
    open spec fn spec_from_text(s: Seq<char>) -> Result<CLKPhase, ValueFail> {
        if s == "SPI_PHASE_1EDGE"@ {
            Ok(CLKPhase::SPI_PHASE_1EDGE)
        } else if s == "SPI_PHASE_2EDGE"@ {
            Ok(CLKPhase::SPI_PHASE_2EDGE)
        } else {
            Err(ValueFail::NotRecognized)
        }
    }

    fn from_text(s: &Vec<char>) -> (r: Result<CLKPhase, ValueFail>) {
        if chars_eq_str(s, "SPI_PHASE_1EDGE") {
            Ok(CLKPhase::SPI_PHASE_1EDGE)
        } else if chars_eq_str(s, "SPI_PHASE_2EDGE") {
            Ok(CLKPhase::SPI_PHASE_2EDGE)
        } else {
            Err(ValueFail::NotRecognized)
        }
    }
}

impl Default for CLKPhase {
    /// The phase defaults to a capture on the first transition.
    fn default() -> (r: CLKPhase)
        ensures
            r == CLKPhase::SPI_PHASE_1EDGE,
    {
        CLKPhase::SPI_PHASE_1EDGE
    }
}

/// The recognized clock-polarity values.
#[allow(non_camel_case_types)]
#[derive(Debug, Copy, Clone, PartialEq, Eq, Structural)]
pub enum CLKPolarity {
    SPI_POLARITY_LOW,
    SPI_POLARITY_HIGH,
}

impl View for CLKPolarity {
    type V = CLKPolarity;

    open spec fn view(&self) -> CLKPolarity {
        *self
    }
}

impl ParamValue for CLKPolarity {
    open spec fn spec_from_text(s: Seq<char>) -> Result<CLKPolarity, ValueFail> {
        if s == "SPI_POLARITY_LOW"@ {
            Ok(CLKPolarity::SPI_POLARITY_LOW)
        } else if s == "SPI_POLARITY_HIGH"@ {
            Ok(CLKPolarity::SPI_POLARITY_HIGH)
        } else {
            Err(ValueFail::NotRecognized)
        }
    }

    fn from_text(s: &Vec<char>) -> (r: Result<CLKPolarity, ValueFail>) {
        if chars_eq_str(s, "SPI_POLARITY_LOW") {
            Ok(CLKPolarity::SPI_POLARITY_LOW)
        } else if chars_eq_str(s, "SPI_POLARITY_HIGH") {
            Ok(CLKPolarity::SPI_POLARITY_HIGH)
        } else {
            Err(ValueFail::NotRecognized)
        }
    }
}

impl Default for CLKPolarity {
    /// The polarity defaults to idle low.
    fn default() -> (r: CLKPolarity)
        ensures
            r == CLKPolarity::SPI_POLARITY_LOW,
    {
        CLKPolarity::SPI_POLARITY_LOW
    }
}

/// The recognized baud-rate prescaler values.
#[allow(non_camel_case_types)]
#[derive(Debug, Copy, Clone, PartialEq, Eq, Structural)]
pub enum BaudRatePrescaler {
    SPI_BAUDRATEPRESCALER_2,
    SPI_BAUDRATEPRESCALER_4,
    SPI_BAUDRATEPRESCALER_8,
    SPI_BAUDRATEPRESCALER_16,
    SPI_BAUDRATEPRESCALER_32,
    SPI_BAUDRATEPRESCALER_64,
    SPI_BAUDRATEPRESCALER_128,
    SPI_BAUDRATEPRESCALER_256,
}

impl View for BaudRatePrescaler {
    type V = BaudRatePrescaler;

    open spec fn view(&self) -> BaudRatePrescaler {
        *self
    }
}

impl ParamValue for BaudRatePrescaler {
    open spec fn spec_from_text(s: Seq<char>) -> Result<BaudRatePrescaler, ValueFail> {
        if s == "SPI_BAUDRATEPRESCALER_2"@ {
            Ok(BaudRatePrescaler::SPI_BAUDRATEPRESCALER_2)
        } else if s == "SPI_BAUDRATEPRESCALER_4"@ {
            Ok(BaudRatePrescaler::SPI_BAUDRATEPRESCALER_4)
        } else if s == "SPI_BAUDRATEPRESCALER_8"@ {
            Ok(BaudRatePrescaler::SPI_BAUDRATEPRESCALER_8)
        } else if s == "SPI_BAUDRATEPRESCALER_16"@ {
            Ok(BaudRatePrescaler::SPI_BAUDRATEPRESCALER_16)
        } else if s == "SPI_BAUDRATEPRESCALER_32"@ {
            Ok(BaudRatePrescaler::SPI_BAUDRATEPRESCALER_32)
        } else if s == "SPI_BAUDRATEPRESCALER_64"@ {
            Ok(BaudRatePrescaler::SPI_BAUDRATEPRESCALER_64)
        } else if s == "SPI_BAUDRATEPRESCALER_128"@ {
            Ok(BaudRatePrescaler::SPI_BAUDRATEPRESCALER_128)
        } else if s == "SPI_BAUDRATEPRESCALER_256"@ {
            Ok(BaudRatePrescaler::SPI_BAUDRATEPRESCALER_256)
        } else {
            Err(ValueFail::NotRecognized)
        }
    }

    fn from_text(s: &Vec<char>) -> (r: Result<BaudRatePrescaler, ValueFail>) {
        if chars_eq_str(s, "SPI_BAUDRATEPRESCALER_2") {
            Ok(BaudRatePrescaler::SPI_BAUDRATEPRESCALER_2)
        } else if chars_eq_str(s, "SPI_BAUDRATEPRESCALER_4") {
            Ok(BaudRatePrescaler::SPI_BAUDRATEPRESCALER_4)
        } else if chars_eq_str(s, "SPI_BAUDRATEPRESCALER_8") {
            Ok(BaudRatePrescaler::SPI_BAUDRATEPRESCALER_8)
        } else if chars_eq_str(s, "SPI_BAUDRATEPRESCALER_16") {
            Ok(BaudRatePrescaler::SPI_BAUDRATEPRESCALER_16)
        } else if chars_eq_str(s, "SPI_BAUDRATEPRESCALER_32") {
            Ok(BaudRatePrescaler::SPI_BAUDRATEPRESCALER_32)
        } else if chars_eq_str(s, "SPI_BAUDRATEPRESCALER_64") {
            Ok(BaudRatePrescaler::SPI_BAUDRATEPRESCALER_64)
        } else if chars_eq_str(s, "SPI_BAUDRATEPRESCALER_128") {
            Ok(BaudRatePrescaler::SPI_BAUDRATEPRESCALER_128)
        } else if chars_eq_str(s, "SPI_BAUDRATEPRESCALER_256") {
            Ok(BaudRatePrescaler::SPI_BAUDRATEPRESCALER_256)
        } else {
            Err(ValueFail::NotRecognized)
        }
    }
}

/// A baud rate in hertz.
#[derive(Debug, Copy, Clone, PartialEq, Eq, Structural)]
pub struct BaudRate(pub u32);

impl View for BaudRate {
    type V = BaudRate;

    open spec fn view(&self) -> BaudRate {
        *self
    }
}

/// The fractional digits adjusted to exactly `digits` places: truncated
/// when longer, right-padded with zeros when shorter. Reading the result as
/// an integer gives exactly the floor of `0.frac * 10^digits`.
pub open spec fn spec_pad_frac(frac: Seq<char>, digits: nat) -> Seq<char> {
    if frac.len() >= digits {
        frac.take(digits as int)
    } else {
        frac + Seq::new((digits - frac.len()) as nat, |i: int| '0')
    }
}

/// Value of the decimal text `freq` scaled by `scale = 10^digits`, as an
/// exact integer with the fraction truncated; `None` when the text is not
/// a plain decimal number (digits with at most one point, at least one
/// digit in all).
pub open spec fn spec_dec_scaled(freq: Seq<char>, scale: int, digits: nat) -> Option<int> {
    let dots = count_char(freq, '.');
    if dots == 0 {
        if freq.len() > 0 && spec_all_digits(freq) {
            Some(spec_digits_val(freq) * scale)
        } else {
            None
        }
    } else if dots == 1 {
        let j = first_occ(freq, '.');
        let whole = freq.take(j);
        let frac = freq.skip(j + 1);
        if spec_all_digits(whole) && spec_all_digits(frac) && whole.len() + frac.len() > 0 {
            Some(spec_digits_val(whole) * scale + spec_digits_val(spec_pad_frac(frac, digits)))
        } else {
            None
        }
    } else {
        None
    }
}

/// What a raw baud-rate text parses to: `<number> <unit>/s` with unit one
/// of `Bits`, `kBits`, `MBits`. An unknown unit or a malformed shape is a
/// rejected value; a malformed or out-of-`u32`-range number is a numeric
/// failure.
pub open spec fn spec_baud(s: Seq<char>) -> Result<BaudRate, ValueFail> {
    if count_char(s, ' ') != 1 {
        Err(ValueFail::NotRecognized)
    } else {
        let i = first_occ(s, ' ');
        let freq = s.take(i);
        let unit = s.skip(i + 1);
        let scale: int = if unit == "Bits/s"@ {
            1
        } else if unit == "kBits/s"@ {
            1000
        } else if unit == "MBits/s"@ {
            1000000
        } else {
            0
        };
        let digits: nat = if unit == "Bits/s"@ {
            0
        } else if unit == "kBits/s"@ {
            3
        } else {
            6
        };
        if scale == 0 {
            Err(ValueFail::NotRecognized)
        } else {
            match spec_dec_scaled(freq, scale, digits) {
                Option::None => Err(ValueFail::NotInteger),
                Option::Some(v) => if v <= u32::MAX {
                    Ok(BaudRate(v as u32))
                } else {
                    Err(ValueFail::NotInteger)
                },
            }
        }
    }
}

/// A digit sequence of at most six places reads to less than a million.
proof fn lemma_digits_val_small(s: Seq<char>)
    requires
        spec_all_digits(s),
        s.len() <= 6,
    ensures
        spec_digits_val(s) < 1000000,
    decreases s.len(),
{
    if s.len() == 0 {
    } else {
        lemma_digits_val_small_rec(s);
    }
}

/// A digit sequence reads below the sixth power of ten step by step.
proof fn lemma_digits_val_small_rec(s: Seq<char>)
    requires
        spec_all_digits(s),
        1 <= s.len() <= 6,
    ensures
        s.len() == 1 ==> spec_digits_val(s) < 10,
        s.len() == 2 ==> spec_digits_val(s) < 100,
        s.len() == 3 ==> spec_digits_val(s) < 1000,
        s.len() == 4 ==> spec_digits_val(s) < 10000,
        s.len() == 5 ==> spec_digits_val(s) < 100000,
        s.len() == 6 ==> spec_digits_val(s) < 1000000,
    decreases s.len(),
{
    assert(spec_is_digit(s[s.len() - 1]));
    assert(s.last() == s[s.len() - 1]);
    if s.len() > 1 {
        assert forall|j: int| 0 <= j < s.drop_last().len() implies spec_is_digit(
            #[trigger] s.drop_last()[j],
        ) by {
            assert(s.drop_last()[j] == s[j]);
        }
        lemma_digits_val_small_rec(s.drop_last());
    } else {
        assert(s.drop_last().len() == 0);
        assert(spec_digits_val(s.drop_last()) == 0);
    }
}

/// Builds the padded fraction of [`spec_pad_frac`] as a vector.
fn pad_frac(frac: &Vec<char>, digits: usize) -> (r: Vec<char>)
    requires
        digits <= 6,
    ensures
        r@ == spec_pad_frac(frac@, digits as nat),
        r@.len() == digits,
{
    let mut r: Vec<char> = Vec::new();
    let mut i: usize = 0;
    while i < digits
        invariant
            i <= digits,
            r@.len() == i,
            forall|j: int|
                0 <= j < i ==> r@[j] == (if j < frac@.len() {
                    frac@[j]
                } else {
                    '0'
                }),
        decreases digits - i,
    {
        if i < frac.len() {
            r.push(frac[i]);
        } else {
            r.push('0');
        }
        i = i + 1;
    }
    proof {
        assert(r@ =~= spec_pad_frac(frac@, digits as nat));
    }
    r
}

/// Parses the decimal text `freq` scaled by `scale`, exactly as
/// [`spec_dec_scaled`] describes; reports the value only when it fits a
/// `u32`, the spec value being above `u32::MAX` otherwise.
fn dec_scaled(freq: &Vec<char>, scale: u32, digits: usize) -> (r: Option<u32>)
    requires
        scale == 1 && digits == 0 || scale == 1000 && digits == 3 || scale == 1000000 && digits
            == 6,
    ensures
        match (r, spec_dec_scaled(freq@, scale as int, digits as nat)) {
            (Option::Some(v), Option::Some(w)) => v == w,
            (Option::None, Option::None) => true,
            (Option::None, Option::Some(w)) => w > u32::MAX,
            _ => false,
        },
{
    let (dots, dot_at) = scan_char(freq, '.');
    if dots == 0 {
        let whole_val = match parse_u32_chars(freq) {
            None => {
                proof {
                    if freq@.len() > 0 && spec_all_digits(freq@) {
                        lemma_digits_val_nonneg(freq@);
                        assert(spec_digits_val(freq@) > u32::MAX);
                        assert(spec_digits_val(freq@) * scale >= spec_digits_val(freq@) * 1) by (
                        nonlinear_arith)
                            requires
                                scale >= 1,
                                spec_digits_val(freq@) >= 0,
                        ;
                    }
                }
                return None;
            },
            Some(v) => v,
        };
        proof {
            lemma_digits_val_nonneg(freq@);
            assert(spec_digits_val(freq@) == whole_val);
            assert((whole_val as int) * (scale as int) <= (u32::MAX as int) * 1000000int) by (
            nonlinear_arith)
                requires
                    0 <= whole_val <= u32::MAX,
                    0 <= scale <= 1000000,
            ;
        }
        let total: u64 = (whole_val as u64) * (scale as u64);
        if total > u32::MAX as u64 {
            return None;
        }
        Some(total as u32)
    } else if dots == 1 {
        proof {
            lemma_first_occ(freq@, '.');
            if first_occ(freq@, '.') == freq@.len() {
                lemma_count_none(freq@, '.');
                assert(false);
            }
        }
        let n = freq.len();
        let whole = sub_chars(freq, 0, dot_at);
        let frac = sub_chars(freq, dot_at + 1, n);
        if !crate::text::all_digits_chars(&whole) || !crate::text::all_digits_chars(&frac) {
            return None;
        }
        if whole.len() == 0 && frac.len() == 0 {
            return None;
        }
        let whole_val = if whole.len() == 0 {
            0
        } else {
            match parse_u32_chars(&whole) {
                None => {
                    proof {
                        lemma_digits_val_nonneg(whole@);
                        let pad = spec_pad_frac(frac@, digits as nat);
                        assert(spec_all_digits(pad));
                        lemma_digits_val_nonneg(pad);
                        assert(spec_digits_val(whole@) * scale >= spec_digits_val(whole@) * 1) by (
                        nonlinear_arith)
                            requires
                                scale >= 1,
                                spec_digits_val(whole@) >= 0,
                        ;
                    }
                    return None;
                },
                Some(v) => v,
            }
        };
        proof {
            if whole@.len() == 0 {
                assert(spec_digits_val(whole@) == 0);
            } else {
                lemma_digits_val_nonneg(whole@);
            }
            assert(spec_digits_val(whole@) == whole_val);
        }
        let padded = pad_frac(&frac, digits);
        proof {
            assert forall|j: int| 0 <= j < padded@.len() implies spec_is_digit(
                #[trigger] padded@[j],
            ) by {
                if j < frac@.len() {
                    assert(padded@[j] == frac@[j]);
                } else {
                    assert(padded@[j] == '0');
                }
            }
        }
        let frac_val: u32 = if digits == 0 {
            proof {
                assert(padded@.len() == 0);
                assert(spec_digits_val(padded@) == 0);
            }
            0
        } else {
            match parse_u32_chars(&padded) {
                None => {
                    proof {
                        lemma_digits_val_small(padded@);
                        assert(false);
                    }
                    0
                },
                Some(v) => v,
            }
        };
        proof {
            lemma_digits_val_small(padded@);
            lemma_digits_val_nonneg(padded@);
            assert(frac_val == spec_digits_val(padded@));
            assert((whole_val as int) * (scale as int) <= (u32::MAX as int) * 1000000int) by (
            nonlinear_arith)
                requires
                    0 <= whole_val <= u32::MAX,
                    0 <= scale <= 1000000,
            ;
        }
        let total: u64 = (whole_val as u64) * (scale as u64) + (frac_val as u64);
        if total > u32::MAX as u64 {
            return None;
        }
        Some(total as u32)
    } else {
        None
    }
}

impl ParamValue for BaudRate {
    open spec fn spec_from_text(s: Seq<char>) -> Result<BaudRate, ValueFail> {
        spec_baud(s)
    }

    fn from_text(s: &Vec<char>) -> (r: Result<BaudRate, ValueFail>) {
        let (spaces, sp_at) = scan_char(s, ' ');
        if spaces != 1 {
            return Err(ValueFail::NotRecognized);
        }
        proof {
            lemma_first_occ(s@, ' ');
            if first_occ(s@, ' ') == s@.len() {
                lemma_count_none(s@, ' ');
                assert(false);
            }
        }
        let n = s.len();
        let freq = sub_chars(s, 0, sp_at);
        let unit = sub_chars(s, sp_at + 1, n);
        let (scale, digits): (u32, usize) = if chars_eq_str(&unit, "Bits/s") {
            (1, 0)
        } else if chars_eq_str(&unit, "kBits/s") {
            (1000, 3)
        } else if chars_eq_str(&unit, "MBits/s") {
            (1000000, 6)
        } else {
            return Err(ValueFail::NotRecognized);
        };
        match dec_scaled(&freq, scale, digits) {
            None => Err(ValueFail::NotInteger),
            Some(v) => Ok(BaudRate(v)),
        }
    }
}

/// One resolved SPI controller.
#[derive(Debug, Clone, PartialEq, Eq)]
pub struct SPI {
    pub name_lower: Vec<char>,
    pub name_upper: Vec<char>,
    pub phase: Option<CLKPhase>,
    pub polarity: Option<CLKPolarity>,
    pub prescaler: BaudRatePrescaler,
    pub baudrate: BaudRate,
}

/// The mathematical image of an [`SPI`].
pub struct SpiV {
    pub name_lower: Seq<char>,
    pub name_upper: Seq<char>,
    pub phase: Option<CLKPhase>,
    pub polarity: Option<CLKPolarity>,
    pub prescaler: BaudRatePrescaler,
    pub baudrate: BaudRate,
}

impl View for SPI {
    type V = SpiV;

    open spec fn view(&self) -> SpiV {
        SpiV {
            name_lower: self.name_lower@,
            name_upper: self.name_upper@,
            phase: self.phase,
            polarity: self.polarity,
            prescaler: self.prescaler,
            baudrate: self.baudrate,
        }
    }
}

/// The probed object name of index `i`, upper case.
pub open spec fn spi_name_upper(i: int) -> Seq<char> {
    if i == 0 {
        "SPI1"@
    } else if i == 1 {
        "SPI2"@
    } else if i == 2 {
        "SPI3"@
    } else if i == 3 {
        "SPI4"@
    } else if i == 4 {
        "SPI5"@
    } else {
        "SPI6"@
    }
}

/// The controller name of index `i`, lower case.
pub open spec fn spi_name_lower(i: int) -> Seq<char> {
    if i == 0 {
        "spi1"@
    } else if i == 1 {
        "spi2"@
    } else if i == 2 {
        "spi3"@
    } else if i == 3 {
        "spi4"@
    } else if i == 4 {
        "spi5"@
    } else {
        "spi6"@
    }
}

/// Outcome of probing one SPI name: no object of that name is simply no
/// controller; a present object must carry a prescaler and a baud rate and
/// may carry phase and polarity.
pub open spec fn spec_spi_one(secs: Seq<SectionV>, i: int) -> Result<Option<SpiV>, ErrorV> {
    match find_section(secs, spi_name_upper(i)) {
        Option::None => Ok(None),
        Option::Some(sec) => match spec_mandatory(
            sec,
            "BaudRatePrescaler"@,
            |s: Seq<char>| BaudRatePrescaler::spec_from_text(s),
        ) {
            Err(e) => Err(e),
            Ok(prescaler) => match spec_mandatory(
                sec,
                "CalculateBaudRate"@,
                |s: Seq<char>| BaudRate::spec_from_text(s),
            ) {
                Err(e) => Err(e),
                Ok(baudrate) => match spec_optional(
                    sec,
                    "CLKPhase"@,
                    |s: Seq<char>| CLKPhase::spec_from_text(s),
                ) {
                    Err(e) => Err(e),
                    Ok(phase) => match spec_optional(
                        sec,
                        "CLKPolarity"@,
                        |s: Seq<char>| CLKPolarity::spec_from_text(s),
                    ) {
                        Err(e) => Err(e),
                        Ok(polarity) => Ok(
                            Some(
                                SpiV {
                                    name_lower: spi_name_lower(i),
                                    name_upper: spi_name_upper(i),
                                    phase,
                                    polarity,
                                    prescaler,
                                    baudrate,
                                },
                            ),
                        ),
                    },
                },
            },
        },
    }
}

/// The controllers found from probe index `i` on, in index order; the
/// first failure aborts.
pub open spec fn spec_spis_from(secs: Seq<SectionV>, i: int) -> Result<Seq<SpiV>, ErrorV>
    decreases 6 - i,
{
    if i < 0 || i >= 6 {
        Ok(Seq::empty())
    } else {
        match spec_spi_one(secs, i) {
            Err(e) => Err(e),
            Ok(Option::None) => spec_spis_from(secs, i + 1),
            Ok(Option::Some(s)) => match spec_spis_from(secs, i + 1) {
                Err(e) => Err(e),
                Ok(rest) => Ok(seq![s] + rest),
            },
        }
    }
}

/// Outcome of the whole SPI resolution over the flat mapping.
pub open spec fn spec_get_spis(secs: Seq<SectionV>) -> Result<Seq<SpiV>, ErrorV> {
    spec_spis_from(secs, 0)
}

/// Probes one SPI name, exactly as [`spec_spi_one`] describes.
fn spi_one(config: &RawConfig, i: usize) -> (r: Result<Option<SPI>, Error>)
    requires
        i < 6,
    ensures
        match (r, spec_spi_one(config@, i as int)) {
            (Ok(Option::None), Ok(Option::None)) => true,
            (Ok(Option::Some(v)), Ok(Option::Some(w))) => v@ == w,
            (Err(e), Err(f)) => e@ == f,
            _ => false,
        },
{
    let (name_upper_str, name_lower_str): (&str, &str) = if i == 0 {
        ("SPI1", "spi1")
    } else if i == 1 {
        ("SPI2", "spi2")
    } else if i == 2 {
        ("SPI3", "spi3")
    } else if i == 3 {
        ("SPI4", "spi4")
    } else if i == 4 {
        ("SPI5", "spi5")
    } else {
        ("SPI6", "spi6")
    };
    proof {
        assert(name_upper_str@ == spi_name_upper(i as int));
        assert(name_lower_str@ == spi_name_lower(i as int));
    }
    let sec = match config.get(name_upper_str) {
        None => {
            return Ok(None);
        },
        Some(sec) => sec,
    };
    let prescaler: BaudRatePrescaler = match parse_mandatory_param(sec, "BaudRatePrescaler") {
        Err(e) => {
            return Err(e);
        },
        Ok(v) => v,
    };
    let baudrate: BaudRate = match parse_mandatory_param(sec, "CalculateBaudRate") {
        Err(e) => {
            return Err(e);
        },
        Ok(v) => v,
    };
    let phase: Option<CLKPhase> = match parse_optional_param(sec, "CLKPhase") {
        Err(e) => {
            return Err(e);
        },
        Ok(v) => v,
    };
    let polarity: Option<CLKPolarity> = match parse_optional_param(sec, "CLKPolarity") {
        Err(e) => {
            return Err(e);
        },
        Ok(v) => v,
    };
    Ok(
        Some(
            SPI {
                name_lower: chars_of_str(name_lower_str),
                name_upper: chars_of_str(name_upper_str),
                phase,
                polarity,
                prescaler,
                baudrate,
            },
        ),
    )
}

/// Resolves every configured SPI controller in index order, exactly as
/// [`spec_get_spis`] describes.
pub fn get_spis(config: &RawConfig) -> (r: Result<Vec<SPI>, Error>)
    ensures
        view_res_seq(r) == spec_get_spis(config@),
{
    let mut spis: Vec<SPI> = Vec::new();
    let mut i: usize = 0;
    proof {
        assert(spis@.map_values(|x: SPI| x@) =~= Seq::<SpiV>::empty());
    }
    while i < 6
        invariant
            i <= 6,
            spec_get_spis(config@) == (match spec_spis_from(config@, i as int) {
                Ok(rest) => Ok::<Seq<SpiV>, ErrorV>(spis@.map_values(|x: SPI| x@) + rest),
                Err(e) => Err(e),
            }),
        decreases 6 - i,
    {
        let ghost pre = spis@.map_values(|x: SPI| x@);
        match spi_one(config, i) {
            Err(e) => {
                return Err(e);
            },
            Ok(None) => {},
            Ok(Some(s)) => {
                let ghost sv = s@;
                spis.push(s);
                proof {
                    assert(spis@.map_values(|x: SPI| x@) =~= pre.push(sv));
                    let r2 = spec_spis_from(config@, i + 1);
                    if r2 is Ok {
                        assert(pre + (seq![sv] + r2->Ok_0) =~= pre.push(sv) + r2->Ok_0);
                    }
                }
            },
        }
        i = i + 1;
    }
    proof {
        assert(spis@.map_values(|x: SPI| x@) + Seq::<SpiV>::empty() =~= spis@.map_values(
            |x: SPI| x@,
        ));
    }
    Ok(spis)
}

} // verus!
