//! The feature-pattern table of the `STM32F0` family: an ordered list of
//! wildcard patterns, each anchored at the start of the lower-cased chip
//! name. The wildcard `x` matches any single word character; a pattern
//! need not consume the whole name, so the order of overlapping patterns
//! decides and is load-bearing.
use vstd::prelude::*;

use crate::text::spec_is_word_char;

verus! {

/// True when `name` starts with `pat`, the pattern character `x` standing
/// for any single word character.
pub open spec fn spec_wild_match(pat: Seq<char>, name: Seq<char>) -> bool {
    name.len() >= pat.len() && forall|i: int|
        0 <= i < pat.len() ==> (if pat[i] == 'x' {
            spec_is_word_char(#[trigger] name[i])
        } else {
            name[i] == pat[i]
        })
}

/// The family's feature patterns, in evaluation order.
pub open spec fn spec_patterns() -> Seq<Seq<char>> {
    seq![
        "stm32f030x4"@,
        "stm32f030x6"@,
        "stm32f030x8"@,
        "stm32f030xc"@,
        "stm32f031"@,
        "stm32f038"@,
        "stm32f042"@,
        "stm32f048"@,
        "stm32f051"@,
        "stm32f058"@,
        "stm32f070x6"@,
        "stm32f070xb"@,
        "stm32f071"@,
        "stm32f072"@,
        "stm32f078"@,
        "stm32f091"@,
        "stm32f098"@,
    ]
}

/// The first pattern of the list that matches the lower-cased chip name,
/// starting the search at index `i`.
pub open spec fn spec_feat_from(name: Seq<char>, i: int) -> Option<Seq<char>>
    decreases spec_patterns().len() - i,
{
    if i < 0 || i >= spec_patterns().len() {
        None
    } else if spec_wild_match(spec_patterns()[i], name) {
        Some(spec_patterns()[i])
    } else {
        spec_feat_from(name, i + 1)
    }
}

/// The canonical feature string of a lower-cased chip name: the first
/// matching pattern, or none.
pub open spec fn spec_feature(name_lc: Seq<char>) -> Option<Seq<char>> {
    spec_feat_from(name_lc, 0)
}

/// The pattern of index `i`, as text.
fn feat_pattern(i: usize) -> (r: &'static str)
    requires
        i < 17,
    ensures
        r@ == spec_patterns()[i as int],
{
    if i == 0 {
        "stm32f030x4"
    } else if i == 1 {
        "stm32f030x6"
    } else if i == 2 {
        "stm32f030x8"
    } else if i == 3 {
        "stm32f030xc"
    } else if i == 4 {
        "stm32f031"
    } else if i == 5 {
        "stm32f038"
    } else if i == 6 {
        "stm32f042"
    } else if i == 7 {
        "stm32f048"
    } else if i == 8 {
        "stm32f051"
    } else if i == 9 {
        "stm32f058"
    } else if i == 10 {
        "stm32f070x6"
    } else if i == 11 {
        "stm32f070xb"
    } else if i == 12 {
        "stm32f071"
    } else if i == 13 {
        "stm32f072"
    } else if i == 14 {
        "stm32f078"
    } else if i == 15 {
        "stm32f091"
    } else {
        "stm32f098"
    }
}

/// Tests the anchored wildcard match, exactly as [`spec_wild_match`]
/// describes.
fn wild_match(pat: &str, name: &Vec<char>) -> (r: bool)
    ensures
        r == spec_wild_match(pat@, name@),
{
    let plen = pat.unicode_len();
    if name.len() < plen {
        return false;
    }
    let mut i: usize = 0;
    while i < plen
        invariant
            plen == pat@.len(),
            name@.len() >= plen,
            i <= plen,
            forall|j: int|
                0 <= j < i ==> (if pat@[j] == 'x' {
                    spec_is_word_char(#[trigger] name@[j])
                } else {
                    name@[j] == pat@[j]
                }),
        decreases plen - i,
    {
        let pc = pat.get_char(i);
        let nc = name[i];
        if pc == 'x' {
            let word = ('a' <= nc && nc <= 'z') || ('A' <= nc && nc <= 'Z') || ('0' <= nc && nc
                <= '9') || nc == '_';
            if !word {
                return false;
            }
        } else {
            if nc != pc {
                return false;
            }
        }
        i = i + 1;
    }
    true
}

/// Finds the first matching pattern of the lower-cased chip name, exactly
/// as [`spec_feature`] describes.
pub fn feature_value(name_lc: &Vec<char>) -> (r: Option<String>)
    ensures
        match (r, spec_feature(name_lc@)) {
            (Option::Some(s), Option::Some(f)) => s@ == f,
            (Option::None, Option::None) => true,
            _ => false,
        },
{
    let mut i: usize = 0;
    while i < 17
        invariant
            i <= 17,
            spec_feature(name_lc@) == spec_feat_from(name_lc@, i as int),
        decreases 17 - i,
    {
        let pat = feat_pattern(i);
        if wild_match(pat, name_lc) {
            return Some(pat.to_owned());
        }
        i = i + 1;
    }
    None
}

} // verus!
