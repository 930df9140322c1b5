//! The declarative typed-parameter framework: a closed set of string
//! variants is one type implementing [`ParamValue`]; mandatory and optional
//! reads of such parameters share the exact failure semantics stated here.
use vstd::prelude::*;

use crate::error::{Error, ErrorV};
use crate::rawconfig::{find_param, Section, SectionV};
use crate::text::{chars_of_str, clone_chars, parse_u32_chars, spec_parse_u32};

verus! {

/// Why a raw string was rejected by a typed parameter.
#[derive(Debug, Copy, Clone, PartialEq, Eq, Structural)]
pub enum ValueFail {
    /// The text is not one of the recognized variants.
    NotRecognized,
    /// The text should have been numeric and is not.
    NotInteger,
}

/// A parameter type: a value parsed from the exact raw text of a
/// configuration parameter. Comparisons are case-sensitive and nothing is
/// trimmed.
pub trait ParamValue: View + Sized {
    /// What the raw text parses to, or why it is rejected.
    spec fn spec_from_text(s: Seq<char>) -> Result<Self::V, ValueFail>;

    /// Parses the raw text, exactly as `spec_from_text` describes.
    fn from_text(s: &Vec<char>) -> (r: Result<Self, ValueFail>)
        ensures
            match (r, Self::spec_from_text(s@)) {
                (Ok(v), Ok(w)) => v@ == w,
                (Err(e), Err(f)) => e == f,
                _ => false,
            },
    ;
}

/// Outcome of a mandatory read of parameter `key` from `sec`: an absent key
/// is `MissingKey`; a present key parses with `f`, whose rejection becomes
/// `InvalidEnumValue` (carrying key and raw value) or `InvalidInteger`.
pub open spec fn spec_mandatory<V>(
    sec: SectionV,
    key: Seq<char>,
    f: spec_fn(Seq<char>) -> Result<V, ValueFail>,
) -> Result<V, ErrorV> {
    match find_param(sec.params, key) {
        Option::None => Err(ErrorV::MissingKey { object: sec.name, key }),
        Option::Some(raw) => match f(raw) {
            Ok(v) => Ok(v),
            Err(ValueFail::NotRecognized) => Err(ErrorV::InvalidEnumValue { key, value: raw }),
            Err(ValueFail::NotInteger) => Err(ErrorV::InvalidInteger { key }),
        },
    }
}

/// Outcome of an optional read: an absent key is simply `None`; a present
/// key fails exactly as a mandatory one does.
pub open spec fn spec_optional<V>(
    sec: SectionV,
    key: Seq<char>,
    f: spec_fn(Seq<char>) -> Result<V, ValueFail>,
) -> Result<Option<V>, ErrorV> {
    match find_param(sec.params, key) {
        Option::None => Ok(None),
        Option::Some(raw) => match f(raw) {
            Ok(v) => Ok(Some(v)),
            Err(ValueFail::NotRecognized) => Err(ErrorV::InvalidEnumValue { key, value: raw }),
            Err(ValueFail::NotInteger) => Err(ErrorV::InvalidInteger { key }),
        },
    }
}

/// Outcome of a mandatory integer read: absent is `MissingKey`, non-numeric
/// text is `InvalidInteger`.
pub open spec fn spec_mandatory_u32(sec: SectionV, key: Seq<char>) -> Result<u32, ErrorV> {
    match find_param(sec.params, key) {
        Option::None => Err(ErrorV::MissingKey { object: sec.name, key }),
        Option::Some(raw) => match spec_parse_u32(raw) {
            Option::Some(v) => Ok(v),
            Option::None => Err(ErrorV::InvalidInteger { key }),
        },
    }
}

/// Outcome of an optional integer read: absent is `None`, non-numeric text
/// is still `InvalidInteger`.
pub open spec fn spec_optional_u32(sec: SectionV, key: Seq<char>) -> Result<Option<u32>, ErrorV> {
    match find_param(sec.params, key) {
        Option::None => Ok(None),
        Option::Some(raw) => match spec_parse_u32(raw) {
            Option::Some(v) => Ok(Some(v)),
            Option::None => Err(ErrorV::InvalidInteger { key }),
        },
    }
}

/// Reads the optional typed parameter `param_name` from `parameters`.
pub fn parse_optional_param<T: ParamValue>(parameters: &Section, param_name: &str) -> (r: Result<
    Option<T>,
    Error,
>)
    ensures
        match (r, spec_optional(parameters@, param_name@, |s: Seq<char>| T::spec_from_text(s))) {
            (Ok(Option::None), Ok(Option::None)) => true,
            (Ok(Option::Some(v)), Ok(Option::Some(w))) => v@ == w,
            (Err(e), Err(f)) => e@ == f,
            _ => false,
        },
{
    match parameters.get(param_name) {
        None => Ok(None),
        Some(raw) => match T::from_text(raw) {
            Ok(v) => Ok(Some(v)),
            Err(ValueFail::NotRecognized) => Err(
                Error::InvalidEnumValue { key: chars_of_str(param_name), value: clone_chars(raw) },
            ),
            Err(ValueFail::NotInteger) => Err(
                Error::InvalidInteger { key: chars_of_str(param_name) },
            ),
        },
    }
}

/// Reads the mandatory typed parameter `param_name` from `parameters`.
pub fn parse_mandatory_param<T: ParamValue>(parameters: &Section, param_name: &str) -> (r: Result<
    T,
    Error,
>)
    ensures
        match (r, spec_mandatory(parameters@, param_name@, |s: Seq<char>| T::spec_from_text(s))) {
            (Ok(v), Ok(w)) => v@ == w,
            (Err(e), Err(f)) => e@ == f,
            _ => false,
        },
{
    match parameters.get(param_name) {
        None => Err(
            Error::MissingKey {
                object: clone_chars(&parameters.name),
                key: chars_of_str(param_name),
            },
        ),
        Some(raw) => match T::from_text(raw) {
            Ok(v) => Ok(v),
            Err(ValueFail::NotRecognized) => Err(
                Error::InvalidEnumValue { key: chars_of_str(param_name), value: clone_chars(raw) },
            ),
            Err(ValueFail::NotInteger) => Err(
                Error::InvalidInteger { key: chars_of_str(param_name) },
            ),
        },
    }
}

/// Reads the mandatory integer parameter `param_name` from `parameters`.
pub fn parse_mandatory_u32(parameters: &Section, param_name: &str) -> (r: Result<u32, Error>)
    ensures
        match (r, spec_mandatory_u32(parameters@, param_name@)) {
            (Ok(v), Ok(w)) => v == w,
            (Err(e), Err(f)) => e@ == f,
            _ => false,
        },
{
    match parameters.get(param_name) {
        None => Err(
            Error::MissingKey {
                object: clone_chars(&parameters.name),
                key: chars_of_str(param_name),
            },
        ),
        Some(raw) => match parse_u32_chars(raw) {
            Some(v) => Ok(v),
            None => Err(Error::InvalidInteger { key: chars_of_str(param_name) }),
        },
    }
}

/// Reads the optional integer parameter `param_name` from `parameters`.
pub fn parse_optional_u32(parameters: &Section, param_name: &str) -> (r: Result<
    Option<u32>,
    Error,
>)
    ensures
        match (r, spec_optional_u32(parameters@, param_name@)) {
            (Ok(v), Ok(w)) => v == w,
            (Err(e), Err(f)) => e@ == f,
            _ => false,
        },
{
    match parameters.get(param_name) {
        None => Ok(None),
        Some(raw) => match parse_u32_chars(raw) {
            Some(v) => Ok(Some(v)),
            None => Err(Error::InvalidInteger { key: chars_of_str(param_name) }),
        },
    }
}

} // verus!
