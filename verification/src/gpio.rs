//! The GPIO resolver: every object whose name starts with a port letter
//! `A`..`K` after `P` and a one- or two-digit pin number is a pin. Pins are
//! ordered by a numeric-aware comparison of those names (pin 2 before pin
//! 11), built into typed pin descriptions, and the two reserved external-
//! oscillator signals are handed to the clock resolver instead.
use vstd::prelude::*;

use crate::error::{Error, ErrorV};
use crate::rawconfig::{find_param, sub_chars, RawConfig, Section, SectionV};
use crate::text::{
    append_chars, chars_eq_str, chars_of_str, clone_chars, lemma_digits_val_nonneg, lower_chars,
    parse_u32_chars, spec_all_digits, spec_digit_val, spec_digits_val, spec_is_digit,
    spec_lower, spec_lower_char, spec_parse_u32,
};
use crate::utils::{parse_optional_param, spec_mandatory, spec_optional, ParamValue, ValueFail};

verus! {

/// The recognized pin-state values.
#[allow(non_camel_case_types)]
#[derive(Debug, Copy, Clone, PartialEq, Eq, Structural)]
pub enum PinStateType {
    GPIO_PIN_SET,
    GPIO_PIN_RESET,
}

impl View for PinStateType {
    type V = PinStateType;

    open spec fn view(&self) -> PinStateType {
        *self
    }
}

impl ParamValue for PinStateType {
    open spec fn spec_from_text(s: Seq<char>) -> Result<PinStateType, ValueFail> {
        if s == "GPIO_PIN_SET"@ {
            Ok(PinStateType::GPIO_PIN_SET)
        } else if s == "GPIO_PIN_RESET"@ {
            Ok(PinStateType::GPIO_PIN_RESET)
        } else {
            Err(ValueFail::NotRecognized)
        }
    }

    fn from_text(s: &Vec<char>) -> (r: Result<PinStateType, ValueFail>) {
        if chars_eq_str(s, "GPIO_PIN_SET") {
            Ok(PinStateType::GPIO_PIN_SET)
        } else if chars_eq_str(s, "GPIO_PIN_RESET") {
            Ok(PinStateType::GPIO_PIN_RESET)
        } else {
            Err(ValueFail::NotRecognized)
        }
    }
}

/// The recognized pull-resistor values.
#[allow(non_camel_case_types)]
#[derive(Debug, Copy, Clone, PartialEq, Eq, Structural)]
pub enum PullType {
    GPIO_PULLUP,
    GPIO_PULLDOWN,
    GPIO_NOPULL,
}

impl View for PullType {
    type V = PullType;

    open spec fn view(&self) -> PullType {
        *self
    }
}

impl ParamValue for PullType {
    open spec fn spec_from_text(s: Seq<char>) -> Result<PullType, ValueFail> {
        if s == "GPIO_PULLUP"@ {
            Ok(PullType::GPIO_PULLUP)
        } else if s == "GPIO_PULLDOWN"@ {
            Ok(PullType::GPIO_PULLDOWN)
        } else if s == "GPIO_NOPULL"@ {
            Ok(PullType::GPIO_NOPULL)
        } else {
            Err(ValueFail::NotRecognized)
        }
    }

    fn from_text(s: &Vec<char>) -> (r: Result<PullType, ValueFail>) {
        if chars_eq_str(s, "GPIO_PULLUP") {
            Ok(PullType::GPIO_PULLUP)
        } else if chars_eq_str(s, "GPIO_PULLDOWN") {
            Ok(PullType::GPIO_PULLDOWN)
        } else if chars_eq_str(s, "GPIO_NOPULL") {
            Ok(PullType::GPIO_NOPULL)
        } else {
            Err(ValueFail::NotRecognized)
        }
    }
}

impl Default for PullType {
    /// The pull resistor defaults to none.
    fn default() -> (r: PullType)
        ensures
            r == PullType::GPIO_NOPULL,
    {
        PullType::GPIO_NOPULL
    }
}

/// The recognized output-mode values.
#[allow(non_camel_case_types)]
#[derive(Debug, Copy, Clone, PartialEq, Eq, Structural)]
pub enum ModeOutputType {
    GPIO_MODE_OUTPUT_OD,
    GPIO_MODE_OUTPUT_PP,
}

impl View for ModeOutputType {
    type V = ModeOutputType;

    open spec fn view(&self) -> ModeOutputType {
        *self
    }
}

impl ParamValue for ModeOutputType {
    open spec fn spec_from_text(s: Seq<char>) -> Result<ModeOutputType, ValueFail> {
        if s == "GPIO_MODE_OUTPUT_OD"@ {
            Ok(ModeOutputType::GPIO_MODE_OUTPUT_OD)
        } else if s == "GPIO_MODE_OUTPUT_PP"@ {
            Ok(ModeOutputType::GPIO_MODE_OUTPUT_PP)
        } else {
            Err(ValueFail::NotRecognized)
        }
    }

    fn from_text(s: &Vec<char>) -> (r: Result<ModeOutputType, ValueFail>) {
        if chars_eq_str(s, "GPIO_MODE_OUTPUT_OD") {
            Ok(ModeOutputType::GPIO_MODE_OUTPUT_OD)
        } else if chars_eq_str(s, "GPIO_MODE_OUTPUT_PP") {
            Ok(ModeOutputType::GPIO_MODE_OUTPUT_PP)
        } else {
            Err(ValueFail::NotRecognized)
        }
    }
}

impl Default for ModeOutputType {
    /// The output mode defaults to push-pull.
    fn default() -> (r: ModeOutputType)
        ensures
            r == ModeOutputType::GPIO_MODE_OUTPUT_PP,
    {
        ModeOutputType::GPIO_MODE_OUTPUT_PP
    }
}

/// The recognized speed values.
#[allow(non_camel_case_types)]
#[derive(Debug, Copy, Clone, PartialEq, Eq, Structural)]
pub enum SpeedType {
    GPIO_SPEED_FREQ_LOW,
    GPIO_SPEED_FREQ_MEDIUM,
    GPIO_SPEED_FREQ_HIGH,
    GPIO_SPEED_FREQ_VERY_HIGH,
}

impl View for SpeedType {
    type V = SpeedType;

    open spec fn view(&self) -> SpeedType {
        *self
    }
}

impl ParamValue for SpeedType {
    open spec fn spec_from_text(s: Seq<char>) -> Result<SpeedType, ValueFail> {
        if s == "GPIO_SPEED_FREQ_LOW"@ {
            Ok(SpeedType::GPIO_SPEED_FREQ_LOW)
        } else if s == "GPIO_SPEED_FREQ_MEDIUM"@ {
            Ok(SpeedType::GPIO_SPEED_FREQ_MEDIUM)
        } else if s == "GPIO_SPEED_FREQ_HIGH"@ {
            Ok(SpeedType::GPIO_SPEED_FREQ_HIGH)
        } else if s == "GPIO_SPEED_FREQ_VERY_HIGH"@ {
            Ok(SpeedType::GPIO_SPEED_FREQ_VERY_HIGH)
        } else {
            Err(ValueFail::NotRecognized)
        }
    }

    fn from_text(s: &Vec<char>) -> (r: Result<SpeedType, ValueFail>) {
        if chars_eq_str(s, "GPIO_SPEED_FREQ_LOW") {
            Ok(SpeedType::GPIO_SPEED_FREQ_LOW)
        } else if chars_eq_str(s, "GPIO_SPEED_FREQ_MEDIUM") {
            Ok(SpeedType::GPIO_SPEED_FREQ_MEDIUM)
        } else if chars_eq_str(s, "GPIO_SPEED_FREQ_HIGH") {
            Ok(SpeedType::GPIO_SPEED_FREQ_HIGH)
        } else if chars_eq_str(s, "GPIO_SPEED_FREQ_VERY_HIGH") {
            Ok(SpeedType::GPIO_SPEED_FREQ_VERY_HIGH)
        } else {
            Err(ValueFail::NotRecognized)
        }
    }
}

impl Default for SpeedType {
    /// The speed defaults to low.
    fn default() -> (r: SpeedType)
        ensures
            r == SpeedType::GPIO_SPEED_FREQ_LOW,
    {
        SpeedType::GPIO_SPEED_FREQ_LOW
    }
}

/// A pin's signal role: plain input, plain output, analog input, or a
/// named peripheral function. Any text beyond the three fixed roles is a
/// peripheral function carrying that exact name.
#[derive(Debug, Clone, PartialEq, Eq)]
pub enum SignalType {
    GpioInput,
    GpioOutput,
    AdcInput,
    Peripheral(Vec<char>),
}

/// The mathematical image of a [`SignalType`].
pub enum SignalTypeV {
    GpioInput,
    GpioOutput,
    AdcInput,
    Peripheral(Seq<char>),
}

impl View for SignalType {
    type V = SignalTypeV;

    open spec fn view(&self) -> SignalTypeV {
        match self {
            SignalType::GpioInput => SignalTypeV::GpioInput,
            SignalType::GpioOutput => SignalTypeV::GpioOutput,
            SignalType::AdcInput => SignalTypeV::AdcInput,
            SignalType::Peripheral(nm) => SignalTypeV::Peripheral(nm@),
        }
    }
}

impl ParamValue for SignalType {
    open spec fn spec_from_text(s: Seq<char>) -> Result<SignalTypeV, ValueFail> {
        if s == "GPIO_Input"@ {
            Ok(SignalTypeV::GpioInput)
        } else if s == "GPIO_Output"@ {
            Ok(SignalTypeV::GpioOutput)
        } else if s == "GPIO_Analog"@ {
            Ok(SignalTypeV::AdcInput)
        } else {
            Ok(SignalTypeV::Peripheral(s))
        }
    }

    fn from_text(s: &Vec<char>) -> (r: Result<SignalType, ValueFail>) {
        if chars_eq_str(s, "GPIO_Input") {
            Ok(SignalType::GpioInput)
        } else if chars_eq_str(s, "GPIO_Output") {
            Ok(SignalType::GpioOutput)
        } else if chars_eq_str(s, "GPIO_Analog") {
            Ok(SignalType::AdcInput)
        } else {
            Ok(SignalType::Peripheral(clone_chars(s)))
        }
    }
}

/// One resolved pin.
#[derive(Debug, Clone, PartialEq, Eq)]
pub struct GpioPin {
    pub port: Vec<char>,
    pub register: Vec<char>,
    pub signal: SignalType,
    pub label: Option<Vec<char>>,
    pub pin_state: Option<PinStateType>,
    pub speed: Option<SpeedType>,
    pub pu_pd: Option<PullType>,
    pub mode_default_output_pp: Option<ModeOutputType>,
}

/// The mathematical image of a [`GpioPin`].
pub struct GpioPinV {
    pub port: Seq<char>,
    pub register: Seq<char>,
    pub signal: SignalTypeV,
    pub label: Option<Seq<char>>,
    pub pin_state: Option<PinStateType>,
    pub speed: Option<SpeedType>,
    pub pu_pd: Option<PullType>,
    pub mode_default_output_pp: Option<ModeOutputType>,
}

impl View for GpioPin {
    type V = GpioPinV;

    open spec fn view(&self) -> GpioPinV {
        GpioPinV {
            port: self.port@,
            register: self.register@,
            signal: self.signal@,
            label: match &self.label {
                Option::Some(l) => Some(l@),
                Option::None => None,
            },
            pin_state: self.pin_state,
            speed: self.speed,
            pu_pd: self.pu_pd,
            mode_default_output_pp: self.mode_default_output_pp,
        }
    }
}

/// The decimal writing of `n`, without leading zeros (`0` is written `0`).
pub open spec fn spec_num_chars(n: int) -> Seq<char>
    recommends
        0 <= n < 1000,
{
    if n < 10 {
        seq![spec_digit_char(n)]
    } else if n < 100 {
        seq![spec_digit_char(n / 10), spec_digit_char(n % 10)]
    } else {
        seq![spec_digit_char(n / 100), spec_digit_char((n / 10) % 10), spec_digit_char(n % 10)]
    }
}

/// The digit character of a value below ten.
pub open spec fn spec_digit_char(d: int) -> char {
    ((48 + d) as u8) as char
}

/// What a pin object name parses to: the character after `P` is the port
/// letter, and everything after it must read as a decimal number up to
/// 255. The port identifier is `GPIO` plus the letter; the register
/// identifier is `p`, the lower-cased letter, and the number without
/// leading zeros.
pub open spec fn spec_parse_name(name: Seq<char>) -> Option<(Seq<char>, Seq<char>)> {
    if name.len() >= 3 && spec_all_digits(name.skip(2)) && spec_digits_val(name.skip(2)) <= 255 {
        let letter = name[1];
        let num = spec_digits_val(name.skip(2));
        Some(
            (
                "GPIO"@ + seq![letter],
                seq!['p', spec_lower_char(letter)] + spec_num_chars(num),
            ),
        )
    } else {
        None
    }
}

/// Writes `n` in decimal without leading zeros.
fn num_chars(n: u8) -> (r: Vec<char>)
    ensures
        r@ == spec_num_chars(n as int),
{
    let mut r: Vec<char> = Vec::new();
    if n >= 100 {
        r.push(((48 + n / 100) as u8) as char);
        r.push(((48 + (n / 10) % 10) as u8) as char);
        r.push(((48 + n % 10) as u8) as char);
    } else if n >= 10 {
        r.push(((48 + n / 10) as u8) as char);
        r.push(((48 + n % 10) as u8) as char);
    } else {
        r.push((48 + n) as char);
    }
    proof {
        assert(r@ =~= spec_num_chars(n as int));
    }
    r
}

/// Parses a pin object name into its port and register identifiers,
/// exactly as [`spec_parse_name`] describes; a name that does not fit
/// reports it as malformed.
pub fn parse_name(name: &Vec<char>) -> (r: Result<(Vec<char>, Vec<char>), Error>)
    ensures
        match (r, spec_parse_name(name@)) {
            (Ok(t), Option::Some(s)) => t.0@ == s.0 && t.1@ == s.1,
            (Err(e), Option::None) => e@ == (ErrorV::MalformedPinName { name: name@ }),
            _ => false,
        },
{
    if name.len() < 3 {
        proof {
            assert(name@.len() < 3);
        }
        return Err(Error::MalformedPinName { name: clone_chars(name) });
    }
    let n = name.len();
    let digits = sub_chars(name, 2, n);
    proof {
        assert(digits@ =~= name@.skip(2));
    }
    let num32 = match parse_u32_chars(&digits) {
        None => {
            proof {
                assert(digits@.len() > 0);
                if spec_all_digits(name@.skip(2)) && spec_digits_val(name@.skip(2)) <= 255 {
                    lemma_digits_val_nonneg(name@.skip(2));
                    assert(spec_parse_u32(digits@) is Some);
                    assert(false);
                }
                assert(spec_parse_name(name@) is None);
            }
            return Err(Error::MalformedPinName { name: clone_chars(name) });
        },
        Some(v) => v,
    };
    if num32 > 255 {
        proof {
            lemma_digits_val_nonneg(name@.skip(2));
            assert(spec_digits_val(name@.skip(2)) == num32 as int);
        }
        return Err(Error::MalformedPinName { name: clone_chars(name) });
    }
    let num = num32 as u8;
    proof {
        lemma_digits_val_nonneg(name@.skip(2));
        assert(spec_digits_val(name@.skip(2)) == num as int);
    }
    let letter = name[1];
    let mut port = chars_of_str("GPIO");
    port.push(letter);
    let lower_letter = if 'A' <= letter && letter <= 'Z' {
        ((letter as u8) + 32) as char
    } else {
        letter
    };
    let mut register: Vec<char> = Vec::new();
    register.push('p');
    register.push(lower_letter);
    let digits_chars = num_chars(num);
    append_chars(&mut register, &digits_chars);
    proof {
        assert(port@ =~= "GPIO"@ + seq![name@[1]]);
        assert(register@ =~= seq!['p', spec_lower_char(name@[1])] + spec_num_chars(num as int));
    }
    Ok((port, register))
}

/// Outcome of building one pin from its object name and parameters: the
/// name must parse, the `Signal` parameter is mandatory, and label, pin
/// state, pull, speed and output mode are optional.
pub open spec fn spec_gpio_new(name: Seq<char>, sec: SectionV) -> Result<GpioPinV, ErrorV> {
    match spec_parse_name(name) {
        Option::None => Err(ErrorV::MalformedPinName { name }),
        Option::Some(pr) => match spec_mandatory(
            sec,
            "Signal"@,
            |s: Seq<char>| SignalType::spec_from_text(s),
        ) {
            Err(e) => Err(e),
            Ok(signal) => match spec_optional(
                sec,
                "PinState"@,
                |s: Seq<char>| PinStateType::spec_from_text(s),
            ) {
                Err(e) => Err(e),
                Ok(pin_state) => match spec_optional(
                    sec,
                    "GPIO_PuPd"@,
                    |s: Seq<char>| PullType::spec_from_text(s),
                ) {
                    Err(e) => Err(e),
                    Ok(pu_pd) => match spec_optional(
                        sec,
                        "GPIO_Speed"@,
                        |s: Seq<char>| SpeedType::spec_from_text(s),
                    ) {
                        Err(e) => Err(e),
                        Ok(speed) => match spec_optional(
                            sec,
                            "GPIO_ModeDefaultOutputPP"@,
                            |s: Seq<char>| ModeOutputType::spec_from_text(s),
                        ) {
                            Err(e) => Err(e),
                            Ok(mode_default_output_pp) => Ok(
                                GpioPinV {
                                    port: pr.0,
                                    register: pr.1,
                                    signal,
                                    label: find_param(sec.params, "GPIO_Label"@),
                                    pin_state,
                                    speed,
                                    pu_pd,
                                    mode_default_output_pp,
                                },
                            ),
                        },
                    },
                },
            },
        },
    }
}

impl GpioPin {
    /// Builds one pin from its object name and parameters, exactly as
    /// [`spec_gpio_new`] describes.
    pub fn new(name: &Vec<char>, parameters: &Section) -> (r: Result<GpioPin, Error>)
        ensures
            match (r, spec_gpio_new(name@, parameters@)) {
                (Ok(p), Ok(q)) => p@ == q,
                (Err(e), Err(f)) => e@ == f,
                _ => false,
            },
    {
        let (port, register) = match parse_name(name) {
            Err(e) => {
                return Err(e);
            },
            Ok(t) => t,
        };
        let signal: SignalType = match crate::utils::parse_mandatory_param::<SignalType>(
            parameters,
            "Signal",
        ) {
            Err(e) => {
                return Err(e);
            },
            Ok(v) => v,
        };
        let pin_state: Option<PinStateType> = match parse_optional_param(parameters, "PinState") {
            Err(e) => {
                return Err(e);
            },
            Ok(v) => v,
        };
        let pu_pd: Option<PullType> = match parse_optional_param(parameters, "GPIO_PuPd") {
            Err(e) => {
                return Err(e);
            },
            Ok(v) => v,
        };
        let speed: Option<SpeedType> = match parse_optional_param(parameters, "GPIO_Speed") {
            Err(e) => {
                return Err(e);
            },
            Ok(v) => v,
        };
        let mode_default_output_pp: Option<ModeOutputType> = match parse_optional_param(
            parameters,
            "GPIO_ModeDefaultOutputPP",
        ) {
            Err(e) => {
                return Err(e);
            },
            Ok(v) => v,
        };
        let label: Option<Vec<char>> = match parameters.get("GPIO_Label") {
            None => None,
            Some(l) => Some(clone_chars(l)),
        };
        Ok(
            GpioPin {
                port,
                register,
                signal,
                label,
                pin_state,
                speed,
                pu_pd,
                mode_default_output_pp,
            },
        )
    }

    /// The pin's display name: its explicit label when one is set; else the
    /// lower-cased peripheral-function name; else the register name behind
    /// an `adc_` or `gpio_` prefix.
    pub fn get_name(&self) -> (r: Vec<char>)
        ensures
            r@ == spec_get_name(self@),
    {
        match &self.label {
            Some(label) => clone_chars(label),
            None => match &self.signal {
                SignalType::Peripheral(nm) => lower_chars(nm),
                SignalType::AdcInput => {
                    let mut r = chars_of_str("adc_");
                    append_chars(&mut r, &self.register);
                    r
                },
                _ => {
                    let mut r = chars_of_str("gpio_");
                    append_chars(&mut r, &self.register);
                    r
                },
            },
        }
    }
}

/// The display name of a pin, as [`GpioPin::get_name`] computes it.
pub open spec fn spec_get_name(g: GpioPinV) -> Seq<char> {
    match g.label {
        Option::Some(l) => l,
        Option::None => match g.signal {
            SignalTypeV::Peripheral(nm) => spec_lower(nm),
            SignalTypeV::AdcInput => "adc_"@ + g.register,
            _ => "gpio_"@ + g.register,
        },
    }
}

/// The pin token at the head of an object name: `P`, a port letter
/// `A`..`K`, then one or two digits (two when a second digit follows).
/// `None` when the name starts otherwise.
pub open spec fn spec_pin_token(name: Seq<char>) -> Option<Seq<char>> {
    if name.len() >= 4 && name[0] == 'P' && 'A' <= name[1] && name[1] <= 'K' && spec_is_digit(
        name[2],
    ) && spec_is_digit(name[3]) {
        Some(name.take(4))
    } else if name.len() >= 3 && name[0] == 'P' && 'A' <= name[1] && name[1] <= 'K'
        && spec_is_digit(name[2]) {
        Some(name.take(3))
    } else {
        None
    }
}

/// True of every token [`spec_pin_token`] yields.
pub open spec fn spec_is_pin_token(s: Seq<char>) -> bool {
    (s.len() == 3 || s.len() == 4) && s[0] == 'P' && 'A' <= s[1] && s[1] <= 'K' && spec_is_digit(
        s[2],
    ) && (s.len() == 3 || spec_is_digit(s[3]))
}

/// The numeric value of a pin token's digit part.
pub open spec fn spec_tok_num(s: Seq<char>) -> int {
    if s.len() == 3 {
        spec_digit_val(s[2])
    } else {
        spec_digit_val(s[2]) * 10 + spec_digit_val(s[3])
    }
}

/// Plain lexicographic order on character sequences, by code point.
pub open spec fn spec_lex_le(a: Seq<char>, b: Seq<char>) -> bool
    decreases a.len(),
{
    if a.len() == 0 {
        true
    } else if b.len() == 0 {
        false
    } else if a[0] != b[0] {
        (a[0] as int) < (b[0] as int)
    } else {
        spec_lex_le(a.drop_first(), b.drop_first())
    }
}

/// The numeric-aware order of two pin tokens: the port letters decide
/// first, then the numeric pin values, and a remaining tie (tokens equal
/// up to leading zeros) falls back to plain lexicographic order.
pub open spec fn spec_pin_le(a: Seq<char>, b: Seq<char>) -> bool {
    if a[1] != b[1] {
        (a[1] as int) < (b[1] as int)
    } else if spec_tok_num(a) != spec_tok_num(b) {
        spec_tok_num(a) < spec_tok_num(b)
    } else {
        spec_lex_le(a, b)
    }
}

/// Relies on human_sort::compare for the relative order of two pin tokens
/// (`P`, a port letter `A`..`K`, one or two digits). On such tokens the
/// comparison walks the shared `P`, decides on the port letters, compares
/// differing digit runs by numeric value, and settles any remaining tie
/// (equal numbers written differently, or one token a prefix of the
/// other) by the plain byte order of the whole strings — which is what
/// [`spec_pin_le`] states.
#[verifier::external_body]
fn pin_order_le(a: &Vec<char>, b: &Vec<char>) -> (r: bool)
    requires
        spec_is_pin_token(a@),
        spec_is_pin_token(b@),
    ensures
        r == spec_pin_le(a@, b@),
{
    let sa: String = a.iter().collect();
    let sb: String = b.iter().collect();
    human_sort::compare(&sa, &sb) != core::cmp::Ordering::Greater
}

/// One pin candidate: the matched token and the index of its object.
pub struct PinCand {
    pub token: Vec<char>,
    pub sec: usize,
}

/// The mathematical image of a [`PinCand`].
pub struct CandV {
    pub token: Seq<char>,
    pub sec: int,
}

impl View for PinCand {
    type V = CandV;

    open spec fn view(&self) -> CandV {
        CandV { token: self.token@, sec: self.sec as int }
    }
}

/// Every candidate token is a pin token.
pub open spec fn toks_ok(cands: Seq<CandV>) -> bool {
    forall|i: int| 0 <= i < cands.len() ==> spec_is_pin_token((#[trigger] cands[i]).token)
}

/// Every candidate's object index lies below `n`.
pub open spec fn secs_ok(cands: Seq<CandV>, n: int) -> bool {
    forall|i: int| 0 <= i < cands.len() ==> 0 <= (#[trigger] cands[i]).sec < n
}

/// The pin candidates of the configuration, in object order.
pub open spec fn spec_candidates(secs: Seq<SectionV>) -> Seq<CandV>
    decreases secs.len(),
{
    if secs.len() == 0 {
        Seq::empty()
    } else {
        let pre = spec_candidates(secs.drop_last());
        match spec_pin_token(secs.last().name) {
            Option::Some(tok) => pre + seq![CandV { token: tok, sec: secs.len() - 1 }],
            Option::None => pre,
        }
    }
}

pub proof fn lemma_candidates_ok(secs: Seq<SectionV>)
    ensures
        toks_ok(spec_candidates(secs)),
        secs_ok(spec_candidates(secs), secs.len() as int),
    decreases secs.len(),
{
    if secs.len() > 0 {
        lemma_candidates_ok(secs.drop_last());
        match spec_pin_token(secs.last().name) {
            Option::Some(tok) => {
                assert(spec_is_pin_token(tok));
            },
            Option::None => {},
        }
    }
}

/// A new candidate inserted behind every earlier candidate that does not
/// come after it: the stable insertion step of the pin sort.
pub open spec fn spec_insert_cand(x: CandV, s: Seq<CandV>) -> Seq<CandV>
    decreases s.len(),
{
    if s.len() > 0 && spec_pin_le(s[0].token, x.token) {
        seq![s[0]] + spec_insert_cand(x, s.drop_first())
    } else {
        seq![x] + s
    }
}

/// The candidates in pin order: a stable insertion sort, so candidates
/// whose tokens tie keep their object order.
pub open spec fn spec_sort(s: Seq<CandV>) -> Seq<CandV>
    decreases s.len(),
{
    if s.len() == 0 {
        Seq::empty()
    } else {
        spec_insert_cand(s.last(), spec_sort(s.drop_last()))
    }
}

/// Inserting at the first position whose element does not come before `x`
/// is exactly [`spec_insert_cand`].
proof fn lemma_insert_cand_at(x: CandV, s: Seq<CandV>, j: int)
    requires
        0 <= j <= s.len(),
        forall|k: int| 0 <= k < j ==> spec_pin_le((#[trigger] s[k]).token, x.token),
        j < s.len() ==> !spec_pin_le(s[j].token, x.token),
    ensures
        spec_insert_cand(x, s) == s.take(j) + seq![x] + s.skip(j),
    decreases s.len(),
{
    if j == 0 {
        assert(spec_insert_cand(x, s) =~= s.take(0) + seq![x] + s.skip(0));
    } else {
        assert(spec_pin_le(s[0].token, x.token));
        lemma_insert_cand_at(x, s.drop_first(), j - 1);
        assert(s.drop_first().take(j - 1) =~= s.take(j).drop_first());
        assert(s.drop_first().skip(j - 1) =~= s.skip(j));
        assert(seq![s[0]] + (s.drop_first().take(j - 1) + seq![x] + s.drop_first().skip(j - 1))
            =~= s.take(j) + seq![x] + s.skip(j));
    }
}

proof fn lemma_insert_cand_ok(x: CandV, s: Seq<CandV>, n: int)
    requires
        toks_ok(s),
        spec_is_pin_token(x.token),
    ensures
        toks_ok(spec_insert_cand(x, s)),
        secs_ok(s, n) && 0 <= x.sec < n ==> secs_ok(spec_insert_cand(x, s), n),
    decreases s.len(),
{
    if s.len() > 0 && spec_pin_le(s[0].token, x.token) {
        assert(toks_ok(s.drop_first()));
        if secs_ok(s, n) {
            assert(secs_ok(s.drop_first(), n));
        }
        lemma_insert_cand_ok(x, s.drop_first(), n);
        assert forall|i: int| 0 <= i < spec_insert_cand(x, s).len() implies spec_is_pin_token(
            (#[trigger] spec_insert_cand(x, s)[i]).token,
        ) by {
            if i > 0 {
                assert(spec_insert_cand(x, s)[i] == spec_insert_cand(x, s.drop_first())[i - 1]);
            }
        }
        if secs_ok(s, n) && 0 <= x.sec < n {
            assert forall|i: int| 0 <= i < spec_insert_cand(x, s).len() implies 0 <= (
            #[trigger] spec_insert_cand(x, s)[i]).sec < n by {
                if i > 0 {
                    assert(spec_insert_cand(x, s)[i] == spec_insert_cand(
                        x,
                        s.drop_first(),
                    )[i - 1]);
                }
            }
        }
    }
}

proof fn lemma_sort_ok(s: Seq<CandV>, n: int)
    requires
        toks_ok(s),
    ensures
        toks_ok(spec_sort(s)),
        secs_ok(s, n) ==> secs_ok(spec_sort(s), n),
    decreases s.len(),
{
    if s.len() > 0 {
        assert(toks_ok(s.drop_last()));
        if secs_ok(s, n) {
            assert(secs_ok(s.drop_last(), n));
        }
        lemma_sort_ok(s.drop_last(), n);
        assert(spec_is_pin_token(s.last().token));
        lemma_insert_cand_ok(s.last(), spec_sort(s.drop_last()), n);
    }
}

/// Collects the pin candidates, exactly as [`spec_candidates`] describes.
fn collect_candidates(config: &RawConfig) -> (r: Vec<PinCand>)
    ensures
        r@.map_values(|c: PinCand| c@) == spec_candidates(config@),
{
    let mut cands: Vec<PinCand> = Vec::new();
    let mut i: usize = 0;
    proof {
        assert(cands@.map_values(|c: PinCand| c@) =~= Seq::<CandV>::empty());
        assert(config@.take(0) =~= Seq::<SectionV>::empty());
    }
    while i < config.sections.len()
        invariant
            i <= config.sections@.len(),
            cands@.map_values(|c: PinCand| c@) == spec_candidates(config@.take(i as int)),
        decreases config.sections@.len() - i,
    {
        let ghost pre = cands@.map_values(|c: PinCand| c@);
        proof {
            assert(config@.take(i + 1 as int).drop_last() =~= config@.take(i as int));
            assert(config@.take(i + 1 as int).last() == config@[i as int]);
        }
        let name = &config.sections[i].name;
        let two_digit = name.len() >= 4 && name[0] == 'P' && 'A' <= name[1] && name[1] <= 'K' && (
        '0' <= name[2] && name[2] <= '9') && ('0' <= name[3] && name[3] <= '9');
        let one_digit = !two_digit && name.len() >= 3 && name[0] == 'P' && 'A' <= name[1]
            && name[1] <= 'K' && ('0' <= name[2] && name[2] <= '9');
        if two_digit || one_digit {
            let tok = if two_digit {
                sub_chars(name, 0, 4)
            } else {
                sub_chars(name, 0, 3)
            };
            proof {
                assert(Some(tok@) == spec_pin_token(name@));
            }
            cands.push(PinCand { token: tok, sec: i });
            proof {
                assert(cands@.map_values(|c: PinCand| c@) =~= pre + seq![
                    CandV { token: name@.take(if two_digit { 4int } else { 3int }), sec: i as int },
                ]);
            }
        }
        i = i + 1;
    }
    proof {
        assert(config@.take(config@.len() as int) =~= config@);
    }
    cands
}

/// Sorts the candidates into pin order, exactly as [`spec_sort`]
/// describes.
fn sort_candidates(cands: &Vec<PinCand>) -> (r: Vec<PinCand>)
    requires
        toks_ok(cands@.map_values(|c: PinCand| c@)),
    ensures
        r@.map_values(|c: PinCand| c@) == spec_sort(cands@.map_values(|c: PinCand| c@)),
{
    let ghost cands_v = cands@.map_values(|c: PinCand| c@);
    let mut sorted: Vec<PinCand> = Vec::new();
    let mut i: usize = 0;
    proof {
        assert(cands_v.take(0) =~= Seq::<CandV>::empty());
        assert(sorted@.map_values(|c: PinCand| c@) =~= Seq::<CandV>::empty());
    }
    while i < cands.len()
        invariant
            i <= cands@.len(),
            cands_v == cands@.map_values(|c: PinCand| c@),
            toks_ok(cands_v),
            sorted@.map_values(|c: PinCand| c@) == spec_sort(cands_v.take(i as int)),
        decreases cands@.len() - i,
    {
        let ghost sorted_v = sorted@.map_values(|c: PinCand| c@);
        proof {
            assert(cands_v.take(i + 1 as int).drop_last() =~= cands_v.take(i as int));
            assert(cands_v.take(i + 1 as int).last() == cands_v[i as int]);
            assert forall|k: int| 0 <= k < cands_v.take(i as int).len() implies spec_is_pin_token(
                (#[trigger] cands_v.take(i as int)[k]).token,
            ) by {
                assert(cands_v.take(i as int)[k] == cands_v[k]);
            }
            lemma_sort_toks_ok(cands_v.take(i as int));
        }
        let x = PinCand { token: clone_chars(&cands[i].token), sec: cands[i].sec };
        proof {
            assert(spec_is_pin_token(x@.token));
            assert forall|k: int| 0 <= k < sorted@.len() implies spec_is_pin_token(
                (#[trigger] sorted@[k])@.token,
            ) by {
                assert(sorted_v[k] == sorted@[k]@);
            }
        }
        let mut j: usize = 0;
        while j < sorted.len() && pin_order_le(&sorted[j].token, &x.token)
            invariant
                j <= sorted@.len(),
                x@ == cands_v[i as int],
                spec_is_pin_token(x@.token),
                forall|k: int| 0 <= k < sorted@.len() ==> spec_is_pin_token(
                    (#[trigger] sorted@[k])@.token,
                ),
                sorted_v == sorted@.map_values(|c: PinCand| c@),
                forall|k: int| 0 <= k < j ==> spec_pin_le((#[trigger] sorted_v[k]).token, x@.token),
            decreases sorted@.len() - j,
        {
            proof {
                assert(sorted_v[j as int] == sorted@[j as int]@);
            }
            j = j + 1;
        }
        proof {
            if j < sorted.len() {
                assert(sorted_v[j as int] == sorted@[j as int]@);
            }
            lemma_insert_cand_at(x@, sorted_v, j as int);
        }
        sorted.insert(j, x);
        proof {
            assert(sorted@.map_values(|c: PinCand| c@) =~= sorted_v.take(j as int) + seq![
                cands_v[i as int],
            ] + sorted_v.skip(j as int));
        }
        i = i + 1;
    }
    proof {
        assert(cands_v.take(cands_v.len() as int) =~= cands_v);
    }
    sorted
}

/// Sorting keeps every token a pin token.
proof fn lemma_sort_toks_ok(s: Seq<CandV>)
    requires
        toks_ok(s),
    ensures
        toks_ok(spec_sort(s)),
{
    lemma_sort_ok(s, 0);
}

/// Pairwise sortedness of a candidate sequence under the numeric-aware
/// pin order.
pub open spec fn spec_sorted_cands(s: Seq<CandV>) -> bool {
    forall|i: int, j: int|
        0 <= i < j < s.len() ==> spec_pin_le((#[trigger] s[i]).token, (#[trigger] s[j]).token)
}

/// Lexicographic order is total.
proof fn lemma_lex_le_total(a: Seq<char>, b: Seq<char>)
    ensures
        spec_lex_le(a, b) || spec_lex_le(b, a),
    decreases a.len(),
{
    if a.len() > 0 && b.len() > 0 && a[0] == b[0] {
        lemma_lex_le_total(a.drop_first(), b.drop_first());
    }
}

/// Lexicographic order is transitive.
proof fn lemma_lex_le_trans(a: Seq<char>, b: Seq<char>, c: Seq<char>)
    requires
        spec_lex_le(a, b),
        spec_lex_le(b, c),
    ensures
        spec_lex_le(a, c),
    decreases a.len(),
{
    if a.len() > 0 && b.len() > 0 && c.len() > 0 && a[0] == b[0] && b[0] == c[0] {
        lemma_lex_le_trans(a.drop_first(), b.drop_first(), c.drop_first());
    }
}

/// The pin order is total on pin tokens.
proof fn lemma_pin_le_total(a: Seq<char>, b: Seq<char>)
    requires
        spec_is_pin_token(a),
        spec_is_pin_token(b),
    ensures
        spec_pin_le(a, b) || spec_pin_le(b, a),
{
    if a[1] == b[1] && spec_tok_num(a) == spec_tok_num(b) {
        lemma_lex_le_total(a, b);
    }
}

/// The pin order is transitive on pin tokens.
proof fn lemma_pin_le_trans(a: Seq<char>, b: Seq<char>, c: Seq<char>)
    requires
        spec_is_pin_token(a),
        spec_is_pin_token(b),
        spec_is_pin_token(c),
        spec_pin_le(a, b),
        spec_pin_le(b, c),
    ensures
        spec_pin_le(a, c),
{
    if a[1] == b[1] && b[1] == c[1] && spec_tok_num(a) == spec_tok_num(b) && spec_tok_num(b)
        == spec_tok_num(c) {
        lemma_lex_le_trans(a, b, c);
    }
}

/// Every element of an insertion is the new candidate or one of the old.
proof fn lemma_insert_cand_elements(x: CandV, s: Seq<CandV>)
    ensures
        forall|k: int|
            0 <= k < spec_insert_cand(x, s).len() ==> (#[trigger] spec_insert_cand(x, s)[k]) == x
                || s.contains(spec_insert_cand(x, s)[k]),
    decreases s.len(),
{
    if s.len() > 0 && spec_pin_le(s[0].token, x.token) {
        lemma_insert_cand_elements(x, s.drop_first());
        assert forall|k: int| 0 <= k < spec_insert_cand(x, s).len() implies (
        #[trigger] spec_insert_cand(x, s)[k]) == x || s.contains(spec_insert_cand(x, s)[k]) by {
            if k > 0 {
                let e = spec_insert_cand(x, s)[k];
                assert(e == spec_insert_cand(x, s.drop_first())[k - 1]);
                if e != x {
                    let m = choose|m: int|
                        0 <= m < s.drop_first().len() && s.drop_first()[m] == e;
                    assert(s[m + 1] == e);
                }
            }
        }
    }
}

/// Inserting into a sorted candidate sequence keeps it sorted.
proof fn lemma_insert_cand_sorted(x: CandV, s: Seq<CandV>)
    requires
        toks_ok(s),
        spec_is_pin_token(x.token),
        spec_sorted_cands(s),
    ensures
        spec_sorted_cands(spec_insert_cand(x, s)),
    decreases s.len(),
{
    let out = spec_insert_cand(x, s);
    if s.len() > 0 && spec_pin_le(s[0].token, x.token) {
        assert(toks_ok(s.drop_first()));
        assert(spec_sorted_cands(s.drop_first()));
        lemma_insert_cand_sorted(x, s.drop_first());
        lemma_insert_cand_elements(x, s.drop_first());
        let rest = spec_insert_cand(x, s.drop_first());
        assert forall|i: int, j: int| 0 <= i < j < out.len() implies spec_pin_le(
            (#[trigger] out[i]).token,
            (#[trigger] out[j]).token,
        ) by {
            if i == 0 {
                let e = rest[j - 1];
                assert(out[j] == e);
                if e == x {
                } else {
                    let m = choose|m: int|
                        0 <= m < s.drop_first().len() && s.drop_first()[m] == e;
                    assert(s[m + 1] == e);
                }
            } else {
                assert(out[i] == rest[i - 1]);
                assert(out[j] == rest[j - 1]);
            }
        }
    } else {
        assert forall|i: int, j: int| 0 <= i < j < out.len() implies spec_pin_le(
            (#[trigger] out[i]).token,
            (#[trigger] out[j]).token,
        ) by {
            if i == 0 {
                assert(out[j] == s[j - 1]);
                lemma_pin_le_total(x.token, s[0].token);
                if j > 1 {
                    lemma_pin_le_trans(x.token, s[0].token, s[j - 1].token);
                }
            } else {
                assert(out[i] == s[i - 1]);
                assert(out[j] == s[j - 1]);
            }
        }
    }
}

/// The law of pin ordering: whatever the configuration, the candidate
/// order in which pins are built — and so the order of the resolved pin
/// list — is sorted by the numeric-aware comparison: port letters first,
/// then numeric pin values, ties by plain text order.
pub proof fn lemma_pin_order_sorted(secs: Seq<SectionV>)
    ensures
        spec_sorted_cands(spec_sort(spec_candidates(secs))),
{
    lemma_candidates_ok(secs);
    lemma_spec_sort_sorted(spec_candidates(secs));
}

proof fn lemma_spec_sort_sorted(s: Seq<CandV>)
    requires
        toks_ok(s),
    ensures
        spec_sorted_cands(spec_sort(s)),
    decreases s.len(),
{
    if s.len() > 0 {
        assert(toks_ok(s.drop_last()));
        lemma_spec_sort_sorted(s.drop_last());
        lemma_sort_ok(s.drop_last(), 0);
        lemma_insert_cand_sorted(s.last(), spec_sort(s.drop_last()));
    }
}

/// True of a pin that the clock resolver consumes instead: its signal
/// names one of the two reserved external-oscillator roles.
pub open spec fn spec_osc_pin(p: GpioPinV) -> bool {
    match p.signal {
        SignalTypeV::Peripheral(nm) => nm == "RCC_OSC_OUT"@ || nm == "RCC_OSC_IN"@,
        _ => false,
    }
}

/// The pins built from the sorted candidates, in order, the reserved
/// oscillator pins left out; the first failure aborts.
pub open spec fn spec_build_pins(secs: Seq<SectionV>, cands: Seq<CandV>) -> Result<
    Seq<GpioPinV>,
    ErrorV,
>
    decreases cands.len(),
{
    if cands.len() == 0 {
        Ok(Seq::empty())
    } else {
        match spec_gpio_new(cands[0].token, secs[cands[0].sec]) {
            Err(e) => Err(e),
            Ok(p) => if spec_osc_pin(p) {
                spec_build_pins(secs, cands.drop_first())
            } else {
                match spec_build_pins(secs, cands.drop_first()) {
                    Err(e) => Err(e),
                    Ok(rest) => Ok(seq![p] + rest),
                }
            },
        }
    }
}

/// The ports in use: the port letters of the pins in order, adjacent
/// repetitions collapsed.
pub open spec fn spec_ports(pins: Seq<GpioPinV>) -> Seq<char>
    decreases pins.len(),
{
    if pins.len() == 0 {
        Seq::empty()
    } else {
        let pre = spec_ports(pins.drop_last());
        let c = pins.last().port.last();
        if pre.len() > 0 && pre.last() == c {
            pre
        } else {
            pre.push(c)
        }
    }
}

/// Outcome of the whole GPIO resolution: the distinct ports in use and the
/// pins, both in deterministic numeric-aware pin order.
pub open spec fn spec_get_gpios(secs: Seq<SectionV>) -> Result<
    (Seq<char>, Seq<GpioPinV>),
    ErrorV,
> {
    match spec_build_pins(secs, spec_sort(spec_candidates(secs))) {
        Err(e) => Err(e),
        Ok(pins) => Ok((spec_ports(pins), pins)),
    }
}

/// Resolves every pin of the configuration, exactly as [`spec_get_gpios`]
/// describes: scan, numeric-aware stable sort, build, and exclusion of the
/// reserved oscillator pins.
pub fn get_gpios(config: &RawConfig) -> (r: Result<(Vec<char>, Vec<GpioPin>), Error>)
    ensures
        match (r, spec_get_gpios(config@)) {
            (Ok(t), Ok(s)) => t.0@ == s.0 && t.1@.map_values(|g: GpioPin| g@) == s.1,
            (Err(e), Err(f)) => e@ == f,
            _ => false,
        },
{
    let cands = collect_candidates(config);
    proof {
        lemma_candidates_ok(config@);
    }
    let sorted = sort_candidates(&cands);
    let ghost sorted_v = sorted@.map_values(|c: PinCand| c@);
    proof {
        lemma_sort_ok(spec_candidates(config@), config@.len() as int);
        assert(sorted_v.skip(0) =~= sorted_v);
    }
    let mut pins: Vec<GpioPin> = Vec::new();
    let mut ports: Vec<char> = Vec::new();
    let mut i: usize = 0;
    proof {
        assert(pins@.map_values(|g: GpioPin| g@) =~= Seq::<GpioPinV>::empty());
        let whole = spec_build_pins(config@, sorted_v);
        if whole is Ok {
            assert(Seq::<GpioPinV>::empty() + whole->Ok_0 =~= whole->Ok_0);
        }
    }
    while i < sorted.len()
        invariant
            i <= sorted@.len(),
            sorted_v == sorted@.map_values(|c: PinCand| c@),
            sorted_v == spec_sort(spec_candidates(config@)),
            secs_ok(sorted_v, config@.len() as int),
            spec_build_pins(config@, sorted_v) == (match spec_build_pins(
                config@,
                sorted_v.skip(i as int),
            ) {
                Ok(rest) => Ok::<Seq<GpioPinV>, ErrorV>(
                    pins@.map_values(|g: GpioPin| g@) + rest,
                ),
                Err(e) => Err(e),
            }),
            ports@ == spec_ports(pins@.map_values(|g: GpioPin| g@)),
        decreases sorted@.len() - i,
    {
        let ghost pre = pins@.map_values(|g: GpioPin| g@);
        proof {
            assert(sorted_v.skip(i as int)[0] == sorted_v[i as int]);
            assert(sorted_v.skip(i as int).drop_first() =~= sorted_v.skip(i + 1 as int));
            assert(sorted_v[i as int] == sorted@[i as int]@);
        }
        let sec_idx = sorted[i].sec;
        proof {
            assert(config@[sorted_v[i as int].sec] == config.sections@[sec_idx as int]@);
        }
        let pin = match GpioPin::new(&sorted[i].token, &config.sections[sec_idx]) {
            Err(e) => {
                proof {
                    assert(spec_build_pins(config@, sorted_v.skip(i as int)) == Err::<
                        Seq<GpioPinV>,
                        ErrorV,
                    >(e@));
                }
                return Err(e);
            },
            Ok(p) => p,
        };
        let excluded = match &pin.signal {
            SignalType::Peripheral(nm) => chars_eq_str(nm, "RCC_OSC_OUT") || chars_eq_str(
                nm,
                "RCC_OSC_IN",
            ),
            _ => false,
        };
        if !excluded {
            let ghost pv = pin@;
            let c = pin.port[pin.port.len() - 1];
            proof {
                assert(c == pv.port.last());
            }
            if ports.len() == 0 {
                ports.push(c);
            } else {
                let last = ports[ports.len() - 1];
                if last != c {
                    ports.push(c);
                }
            }
            pins.push(pin);
            proof {
                assert(pins@.map_values(|g: GpioPin| g@) =~= pre.push(pv));
                assert(pre.push(pv).drop_last() =~= pre);
                let r2 = spec_build_pins(config@, sorted_v.skip(i + 1 as int));
                if r2 is Ok {
                    assert(pre + (seq![pv] + r2->Ok_0) =~= pre.push(pv) + r2->Ok_0);
                }
            }
        }
        i = i + 1;
    }
    proof {
        assert(sorted_v.skip(sorted_v.len() as int).len() == 0);
        assert(pins@.map_values(|g: GpioPin| g@) + Seq::<GpioPinV>::empty() =~= pins@.map_values(
            |g: GpioPin| g@,
        ));
    }
    Ok((ports, pins))
}

} // verus!
