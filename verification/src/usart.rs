//! The USART resolver: probes the configuration for objects literally named
//! `USART1` .. `USART8` and builds one controller entry per hit, with an
//! optional integer baud rate.
use vstd::prelude::*;

use crate::error::{view_res_seq, Error, ErrorV};
use crate::rawconfig::{find_section, RawConfig, SectionV};
use crate::text::chars_of_str;
use crate::utils::{parse_optional_u32, spec_optional_u32};

verus! {

/// One resolved USART controller.
#[derive(Debug, Clone, PartialEq, Eq)]
pub struct USART {
    pub name_lower: Vec<char>,
    pub name_upper: Vec<char>,
    pub baudrate: Option<u32>,
}

/// The mathematical image of a [`USART`].
pub struct UsartV {
    pub name_lower: Seq<char>,
    pub name_upper: Seq<char>,
    pub baudrate: Option<u32>,
}

impl View for USART {
    type V = UsartV;

    open spec fn view(&self) -> UsartV {
        UsartV {
            name_lower: self.name_lower@,
            name_upper: self.name_upper@,
            baudrate: self.baudrate,
        }
    }
}

/// The probed object name of index `i`, upper case.
pub open spec fn usart_name_upper(i: int) -> Seq<char> {
    if i == 0 {
        "USART1"@
    } else if i == 1 {
        "USART2"@
    } else if i == 2 {
        "USART3"@
    } else if i == 3 {
        "USART4"@
    } else if i == 4 {
        "USART5"@
    } else if i == 5 {
        "USART6"@
    } else if i == 6 {
        "USART7"@
    } else {
        "USART8"@
    }
}

/// The controller name of index `i`, lower case.
pub open spec fn usart_name_lower(i: int) -> Seq<char> {
    if i == 0 {
        "usart1"@
    } else if i == 1 {
        "usart2"@
    } else if i == 2 {
        "usart3"@
    } else if i == 3 {
        "usart4"@
    } else if i == 4 {
        "usart5"@
    } else if i == 5 {
        "usart6"@
    } else if i == 6 {
        "usart7"@
    } else {
        "usart8"@
    }
}

/// Outcome of probing one USART name: no object of that name is simply no
/// controller; a present object may carry an integer baud rate.
pub open spec fn spec_usart_one(secs: Seq<SectionV>, i: int) -> Result<Option<UsartV>, ErrorV> {
    match find_section(secs, usart_name_upper(i)) {
        Option::None => Ok(None),
        Option::Some(sec) => match spec_optional_u32(sec, "BaudRate"@) {
            Err(e) => Err(e),
            Ok(baudrate) => Ok(
                Some(
                    UsartV {
                        name_lower: usart_name_lower(i),
                        name_upper: usart_name_upper(i),
                        baudrate,
                    },
                ),
            ),
        },
    }
}

/// The controllers found from probe index `i` on, in index order; the
/// first failure aborts.
pub open spec fn spec_usarts_from(secs: Seq<SectionV>, i: int) -> Result<Seq<UsartV>, ErrorV>
    decreases 8 - i,
{
    if i < 0 || i >= 8 {
        Ok(Seq::empty())
    } else {
        match spec_usart_one(secs, i) {
            Err(e) => Err(e),
            Ok(Option::None) => spec_usarts_from(secs, i + 1),
            Ok(Option::Some(u)) => match spec_usarts_from(secs, i + 1) {
                Err(e) => Err(e),
                Ok(rest) => Ok(seq![u] + rest),
            },
        }
    }
}

/// Outcome of the whole USART resolution over the flat mapping.
pub open spec fn spec_get_usarts(secs: Seq<SectionV>) -> Result<Seq<UsartV>, ErrorV> {
    spec_usarts_from(secs, 0)
}

/// Probes one USART name, exactly as [`spec_usart_one`] describes.
fn usart_one(config: &RawConfig, i: usize) -> (r: Result<Option<USART>, Error>)
    requires
        i < 8,
    ensures
        match (r, spec_usart_one(config@, i as int)) {
            (Ok(Option::None), Ok(Option::None)) => true,
            (Ok(Option::Some(v)), Ok(Option::Some(w))) => v@ == w,
            (Err(e), Err(f)) => e@ == f,
            _ => false,
        },
{
    let (name_upper_str, name_lower_str): (&str, &str) = if i == 0 {
        ("USART1", "usart1")
    } else if i == 1 {
        ("USART2", "usart2")
    } else if i == 2 {
        ("USART3", "usart3")
    } else if i == 3 {
        ("USART4", "usart4")
    } else if i == 4 {
        ("USART5", "usart5")
    } else if i == 5 {
        ("USART6", "usart6")
    } else if i == 6 {
        ("USART7", "usart7")
    } else {
        ("USART8", "usart8")
    };
    proof {
        assert(name_upper_str@ == usart_name_upper(i as int));
        assert(name_lower_str@ == usart_name_lower(i as int));
    }
    let sec = match config.get(name_upper_str) {
        None => {
            return Ok(None);
        },
        Some(sec) => sec,
    };
    let baudrate = match parse_optional_u32(sec, "BaudRate") {
        Err(e) => {
            return Err(e);
        },
        Ok(v) => v,
    };
    Ok(
        Some(
            USART {
                name_lower: chars_of_str(name_lower_str),
                name_upper: chars_of_str(name_upper_str),
                baudrate,
            },
        ),
    )
}

/// Resolves every configured USART controller in index order, exactly as
/// [`spec_get_usarts`] describes.
pub fn get_usarts(config: &RawConfig) -> (r: Result<Vec<USART>, Error>)
    ensures
        view_res_seq(r) == spec_get_usarts(config@),
{
    let mut usarts: Vec<USART> = Vec::new();
    let mut i: usize = 0;
    proof {
        assert(usarts@.map_values(|x: USART| x@) =~= Seq::<UsartV>::empty());
    }
    while i < 8
        invariant
            i <= 8,
            spec_get_usarts(config@) == (match spec_usarts_from(config@, i as int) {
                Ok(rest) => Ok::<Seq<UsartV>, ErrorV>(usarts@.map_values(|x: USART| x@) + rest),
                Err(e) => Err(e),
            }),
        decreases 8 - i,
    {
        let ghost pre = usarts@.map_values(|x: USART| x@);
        match usart_one(config, i) {
            Err(e) => {
                return Err(e);
            },
            Ok(None) => {},
            Ok(Some(u)) => {
                let ghost uv = u@;
                usarts.push(u);
                proof {
                    assert(usarts@.map_values(|x: USART| x@) =~= pre.push(uv));
                    let r2 = spec_usarts_from(config@, i + 1);
                    if r2 is Ok {
                        assert(pre + (seq![uv] + r2->Ok_0) =~= pre.push(uv) + r2->Ok_0);
                    }
                }
            },
        }
        i = i + 1;
    }
    proof {
        assert(usarts@.map_values(|x: USART| x@) + Seq::<UsartV>::empty() =~= usarts@.map_values(
            |x: USART| x@,
        ));
    }
    Ok(usarts)
}

} // verus!
