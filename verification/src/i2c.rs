//! The I2C resolver. Unlike SPI and USART, controllers are not probed by
//! name: a controller left entirely at its defaults has no object of its
//! own in the configuration. Instead every object's `Signal` parameter is
//! scanned for `I2C<digit>_SDA`; each hit names a controller, and an object
//! of that name, when one exists, may carry an optional speed mode. This
//! asymmetry with the direct probes is deliberate.
use vstd::prelude::*;

use crate::error::{view_res_seq, Error, ErrorV};
use crate::rawconfig::{find_param, find_section, sub_chars, RawConfig, SectionV};
use crate::text::{chars_eq_str, lower_chars, spec_is_digit, spec_lower};
use crate::utils::{parse_optional_param, spec_optional, ParamValue, ValueFail};

verus! {

/// The recognized I2C speed modes.
#[allow(non_camel_case_types)]
#[derive(Debug, Copy, Clone, PartialEq, Eq, Structural)]
pub enum Mode {
    I2C_Standard,
    I2C_Fast,
    I2C_Fast_Plus,
}

impl View for Mode {
    type V = Mode;

    open spec fn view(&self) -> Mode {
        *self
    }
}

impl ParamValue for Mode {
    open spec fn spec_from_text(s: Seq<char>) -> Result<Mode, ValueFail> {
        if s == "I2C_Standard"@ {
            Ok(Mode::I2C_Standard)
        } else if s == "I2C_Fast"@ {
            Ok(Mode::I2C_Fast)
        } else if s == "I2C_Fast_Plus"@ {
            Ok(Mode::I2C_Fast_Plus)
        } else {
            Err(ValueFail::NotRecognized)
        }
    }

    fn from_text(s: &Vec<char>) -> (r: Result<Mode, ValueFail>) {
        if chars_eq_str(s, "I2C_Standard") {
            Ok(Mode::I2C_Standard)
        } else if chars_eq_str(s, "I2C_Fast") {
            Ok(Mode::I2C_Fast)
        } else if chars_eq_str(s, "I2C_Fast_Plus") {
            Ok(Mode::I2C_Fast_Plus)
        } else {
            Err(ValueFail::NotRecognized)
        }
    }
}

impl Default for Mode {
    /// The speed mode defaults to standard mode.
    fn default() -> (r: Mode)
        ensures
            r == Mode::I2C_Standard,
    {
        Mode::I2C_Standard
    }
}

/// One resolved I2C controller.
#[derive(Debug, Clone, PartialEq, Eq)]
pub struct I2C {
    pub name_lower: Vec<char>,
    pub name_upper: Vec<char>,
    pub mode: Option<Mode>,
}

/// The mathematical image of an [`I2C`].
pub struct I2cV {
    pub name_lower: Seq<char>,
    pub name_upper: Seq<char>,
    pub mode: Option<Mode>,
}

impl View for I2C {
    type V = I2cV;

    open spec fn view(&self) -> I2cV {
        I2cV { name_lower: self.name_lower@, name_upper: self.name_upper@, mode: self.mode }
    }
}

/// True when a signal string starts with `I2C<digit>_SDA`: the characters
/// `I`, `2`, `C`, one decimal digit, then `_SDA`.
pub open spec fn spec_i2c_signal(s: Seq<char>) -> bool {
    s.len() >= 8 && s[0] == 'I' && s[1] == '2' && s[2] == 'C' && spec_is_digit(s[3]) && s[4] == '_'
        && s[5] == 'S' && s[6] == 'D' && s[7] == 'A'
}

/// The controller names discovered from the objects' `Signal` parameters,
/// in object order: the `I2C<digit>` prefix of each matching signal.
pub open spec fn spec_i2c_tokens(secs: Seq<SectionV>) -> Seq<Seq<char>>
    decreases secs.len(),
{
    if secs.len() == 0 {
        Seq::empty()
    } else {
        let pre = spec_i2c_tokens(secs.drop_last());
        match find_param(secs.last().params, "Signal"@) {
            Option::Some(sig) => if spec_i2c_signal(sig) {
                pre + seq![sig.take(4)]
            } else {
                pre
            },
            Option::None => pre,
        }
    }
}

/// One controller entry for the discovered name `up`: when an object of
/// that name exists it may carry a speed mode; when none does, the
/// controller is fully at its defaults.
pub open spec fn spec_i2c_one(secs: Seq<SectionV>, up: Seq<char>) -> Result<I2cV, ErrorV> {
    match find_section(secs, up) {
        Option::None => Ok(I2cV { name_lower: spec_lower(up), name_upper: up, mode: None }),
        Option::Some(sec) => match spec_optional(
            sec,
            "I2C_Speed_Mode"@,
            |s: Seq<char>| Mode::spec_from_text(s),
        ) {
            Err(e) => Err(e),
            Ok(mode) => Ok(I2cV { name_lower: spec_lower(up), name_upper: up, mode }),
        },
    }
}

/// The controller entries of all discovered names, in discovery order; the
/// first failure aborts.
pub open spec fn spec_i2cs_build(secs: Seq<SectionV>, toks: Seq<Seq<char>>) -> Result<
    Seq<I2cV>,
    ErrorV,
>
    decreases toks.len(),
{
    if toks.len() == 0 {
        Ok(Seq::empty())
    } else {
        match spec_i2c_one(secs, toks[0]) {
            Err(e) => Err(e),
            Ok(one) => match spec_i2cs_build(secs, toks.drop_first()) {
                Err(e) => Err(e),
                Ok(rest) => Ok(seq![one] + rest),
            },
        }
    }
}

/// Outcome of the whole I2C resolution over the flat mapping.
pub open spec fn spec_get_i2cs(secs: Seq<SectionV>) -> Result<Seq<I2cV>, ErrorV> {
    spec_i2cs_build(secs, spec_i2c_tokens(secs))
}

/// Collects the discovered controller names, exactly as
/// [`spec_i2c_tokens`] describes.
fn i2c_tokens(config: &RawConfig) -> (r: Vec<Vec<char>>)
    ensures
        r@.map_values(|t: Vec<char>| t@) == spec_i2c_tokens(config@),
{
    let mut toks: Vec<Vec<char>> = Vec::new();
    let mut i: usize = 0;
    proof {
        assert(toks@.map_values(|t: Vec<char>| t@) =~= Seq::<Seq<char>>::empty());
        assert(config@.take(0) =~= Seq::<SectionV>::empty());
    }
    while i < config.sections.len()
        invariant
            i <= config.sections@.len(),
            toks@.map_values(|t: Vec<char>| t@) == spec_i2c_tokens(config@.take(i as int)),
        decreases config.sections@.len() - i,
    {
        let ghost pre = toks@.map_values(|t: Vec<char>| t@);
        proof {
            assert(config@.take(i + 1 as int).drop_last() =~= config@.take(i as int));
            assert(config@.take(i + 1 as int).last() == config@[i as int]);
        }
        match config.sections[i].get("Signal") {
            None => {},
            Some(sig) => {
                let matches = sig.len() >= 8 && sig[0] == 'I' && sig[1] == '2' && sig[2] == 'C' && (
                '0' <= sig[3] && sig[3] <= '9') && sig[4] == '_' && sig[5] == 'S' && sig[6] == 'D'
                    && sig[7] == 'A';
                if matches {
                    let tok = sub_chars(sig, 0, 4);
                    toks.push(tok);
                    proof {
                        assert(toks@.map_values(|t: Vec<char>| t@) =~= pre.push(
                            sig@.take(4),
                        ));
                        assert(pre.push(sig@.take(4)) =~= pre + seq![sig@.take(4)]);
                    }
                }
            },
        }
        i = i + 1;
    }
    proof {
        assert(config@.take(config@.len() as int) =~= config@);
    }
    toks
}

/// Resolves every discovered I2C controller in discovery order, exactly as
/// [`spec_get_i2cs`] describes.
pub fn get_i2cs(config: &RawConfig) -> (r: Result<Vec<I2C>, Error>)
    ensures
        view_res_seq(r) == spec_get_i2cs(config@),
{
    let toks = i2c_tokens(config);
    let ghost toks_v = toks@.map_values(|t: Vec<char>| t@);
    let mut i2cs: Vec<I2C> = Vec::new();
    let mut i: usize = 0;
    proof {
        assert(toks_v.skip(0) =~= toks_v);
        assert(i2cs@.map_values(|x: I2C| x@) =~= Seq::<I2cV>::empty());
        assert(Seq::<I2cV>::empty() + spec_i2cs_build(config@, toks_v)->Ok_0 =~= spec_i2cs_build(
            config@,
            toks_v,
        )->Ok_0);
    }
    while i < toks.len()
        invariant
            i <= toks@.len(),
            toks_v == toks@.map_values(|t: Vec<char>| t@),
            spec_get_i2cs(config@) == (match spec_i2cs_build(config@, toks_v.skip(i as int)) {
                Ok(rest) => Ok::<Seq<I2cV>, ErrorV>(i2cs@.map_values(|x: I2C| x@) + rest),
                Err(e) => Err(e),
            }),
        decreases toks@.len() - i,
    {
        let ghost pre = i2cs@.map_values(|x: I2C| x@);
        proof {
            assert(toks_v.skip(i as int)[0] == toks_v[i as int]);
            assert(toks_v.skip(i as int).drop_first() =~= toks_v.skip(i + 1 as int));
        }
        let name_upper = &toks[i];
        let name_lower = lower_chars(name_upper);
        let mode: Option<Mode> = match config.get_chars(name_upper) {
            None => None,
            Some(sec) => match parse_optional_param(sec, "I2C_Speed_Mode") {
                Err(e) => {
                    return Err(e);
                },
                Ok(m) => m,
            },
        };
        let one = I2C {
            name_lower,
            name_upper: crate::text::clone_chars(name_upper),
            mode,
        };
        let ghost onev = one@;
        i2cs.push(one);
        proof {
            assert(i2cs@.map_values(|x: I2C| x@) =~= pre.push(onev));
            let r2 = spec_i2cs_build(config@, toks_v.skip(i + 1 as int));
            if r2 is Ok {
                assert(pre + (seq![onev] + r2->Ok_0) =~= pre.push(onev) + r2->Ok_0);
            }
        }
        i = i + 1;
    }
    proof {
        assert(toks_v.skip(toks_v.len() as int).len() == 0);
        assert(i2cs@.map_values(|x: I2C| x@) + Seq::<I2cV>::empty() =~= i2cs@.map_values(
            |x: I2C| x@,
        ));
    }
    Ok(i2cs)
}

} // verus!
