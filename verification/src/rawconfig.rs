//! The flat configuration mapping: object name -> (parameter name -> raw
//! string value), built line by line from the input text and immutable
//! afterwards.
//!
//! Each line is split on its single `=`; the left side must hold a single
//! `.` separating object name from parameter name. Every other line is
//! ignored. A later line for the same (object, parameter) pair overwrites
//! the earlier value; object order and parameter order stay those of first
//! appearance, so the mapping is a deterministic function of the text.
use vstd::prelude::*;

use crate::text::chars_of_str;

verus! {

/// One `parameter = value` binding inside an object.
#[derive(Debug, Clone, PartialEq, Eq)]
pub struct Param {
    pub key: Vec<char>,
    pub value: Vec<char>,
}

/// The mathematical image of a [`Param`].
pub struct ParamV {
    pub key: Seq<char>,
    pub value: Seq<char>,
}

impl View for Param {
    type V = ParamV;

    open spec fn view(&self) -> ParamV {
        ParamV { key: self.key@, value: self.value@ }
    }
}

/// One configuration object with its parameters, in first-appearance order.
#[derive(Debug, Clone, PartialEq, Eq)]
pub struct Section {
    pub name: Vec<char>,
    pub params: Vec<Param>,
}

/// The mathematical image of a [`Section`].
pub struct SectionV {
    pub name: Seq<char>,
    pub params: Seq<ParamV>,
}

impl View for Section {
    type V = SectionV;

    open spec fn view(&self) -> SectionV {
        SectionV { name: self.name@, params: self.params@.map_values(|p: Param| p@) }
    }
}

/// The whole two-level mapping, as a sequence of objects in
/// first-appearance order.
#[derive(Debug, Clone, PartialEq, Eq)]
pub struct RawConfig {
    pub sections: Vec<Section>,
}

impl View for RawConfig {
    type V = Seq<SectionV>;

    open spec fn view(&self) -> Seq<SectionV> {
        self.sections@.map_values(|s: Section| s@)
    }
}

/// Value of the first parameter named `key`, if any.
pub open spec fn find_param(params: Seq<ParamV>, key: Seq<char>) -> Option<Seq<char>>
    decreases params.len(),
{
    if params.len() == 0 {
        None
    } else if params[0].key == key {
        Some(params[0].value)
    } else {
        find_param(params.drop_first(), key)
    }
}

/// The first section named `name`, if any.
pub open spec fn find_section(secs: Seq<SectionV>, name: Seq<char>) -> Option<SectionV>
    decreases secs.len(),
{
    if secs.len() == 0 {
        None
    } else if secs[0].name == name {
        Some(secs[0])
    } else {
        find_section(secs.drop_first(), name)
    }
}

/// Two-level lookup: the raw value of `name.key`, if present.
pub open spec fn spec_lookup(secs: Seq<SectionV>, name: Seq<char>, key: Seq<char>) -> Option<
    Seq<char>,
> {
    match find_section(secs, name) {
        None => None,
        Some(s) => find_param(s.params, key),
    }
}

/// Index of the first parameter named `key`, or `params.len()` if absent.
pub open spec fn param_idx(params: Seq<ParamV>, key: Seq<char>) -> int
    decreases params.len(),
{
    if params.len() == 0 {
        0
    } else if params[0].key == key {
        0
    } else {
        1 + param_idx(params.drop_first(), key)
    }
}

/// Index of the first section named `name`, or `secs.len()` if absent.
pub open spec fn sec_idx(secs: Seq<SectionV>, name: Seq<char>) -> int
    decreases secs.len(),
{
    if secs.len() == 0 {
        0
    } else if secs[0].name == name {
        0
    } else {
        1 + sec_idx(secs.drop_first(), name)
    }
}

/// One binding inserted into the mapping: a new value for an existing
/// parameter replaces it in place; a new parameter or a new object is
/// appended at the end.
pub open spec fn spec_insert(
    secs: Seq<SectionV>,
    obj: Seq<char>,
    key: Seq<char>,
    val: Seq<char>,
) -> Seq<SectionV> {
    let si = sec_idx(secs, obj);
    if si == secs.len() {
        secs.push(SectionV { name: obj, params: seq![ParamV { key, value: val }] })
    } else {
        let s = secs[si];
        let pi = param_idx(s.params, key);
        let nps = if pi == s.params.len() {
            s.params.push(ParamV { key, value: val })
        } else {
            s.params.update(pi, ParamV { key, value: val })
        };
        secs.update(si, SectionV { name: s.name, params: nps })
    }
}

/// Index of the first occurrence of `c`, or `t.len()` if there is none.
pub open spec fn first_occ(t: Seq<char>, c: char) -> int
    decreases t.len(),
{
    if t.len() == 0 {
        0
    } else if t[0] == c {
        0
    } else {
        1 + first_occ(t.drop_first(), c)
    }
}

/// Number of occurrences of `c` in `t`.
pub open spec fn count_char(t: Seq<char>, c: char) -> int
    decreases t.len(),
{
    if t.len() == 0 {
        0
    } else {
        (if t[0] == c {
            1int
        } else {
            0int
        }) + count_char(t.drop_first(), c)
    }
}

pub proof fn lemma_first_occ(t: Seq<char>, c: char)
    ensures
        0 <= first_occ(t, c) <= t.len(),
        first_occ(t, c) < t.len() ==> t[first_occ(t, c)] == c,
        forall|j: int| 0 <= j < first_occ(t, c) ==> t[j] != c,
    decreases t.len(),
{
    if t.len() > 0 && t[0] != c {
        lemma_first_occ(t.drop_first(), c);
        assert forall|j: int| 0 <= j < first_occ(t, c) implies t[j] != c by {
            if j > 0 {
                assert(t.drop_first()[j - 1] == t[j]);
            }
        }
    }
}

/// `first_occ` is determined by the earliest position holding `c`.
pub proof fn lemma_first_occ_at(t: Seq<char>, c: char, k: int)
    requires
        0 <= k <= t.len(),
        forall|j: int| 0 <= j < k ==> t[j] != c,
        k < t.len() ==> t[k] == c,
    ensures
        k < t.len() ==> first_occ(t, c) == k,
        k == t.len() ==> first_occ(t, c) == t.len(),
    decreases t.len(),
{
    if t.len() > 0 && t[0] != c {
        lemma_first_occ_at(t.drop_first(), c, k - 1);
    }
}

/// A line with one trailing carriage return stripped.
pub open spec fn spec_strip_cr(l: Seq<char>) -> Seq<char> {
    if l.len() > 0 && l.last() == '\r' {
        l.drop_last()
    } else {
        l
    }
}

/// The lines of the text: pieces split at `\n`, each newline-terminated
/// piece with one trailing `\r` stripped, and no empty piece after a final
/// newline. A last piece without a newline is kept as it stands.
pub open spec fn spec_lines(t: Seq<char>) -> Seq<Seq<char>>
    decreases t.len(),
{
    if t.len() == 0 {
        Seq::empty()
    } else {
        let i = first_occ(t, '\n');
        if 0 <= i < t.len() {
            seq![spec_strip_cr(t.take(i))] + spec_lines(t.skip(i + 1))
        } else {
            seq![t]
        }
    }
}

/// The (object, parameter, value) triple of a line, when the line has
/// exactly one `=` and its left side exactly one `.`; `None` otherwise.
pub open spec fn spec_parse_line(l: Seq<char>) -> Option<(Seq<char>, Seq<char>, Seq<char>)> {
    if count_char(l, '=') == 1 {
        let i = first_occ(l, '=');
        let lhs = l.take(i);
        let rhs = l.skip(i + 1);
        if count_char(lhs, '.') == 1 {
            let j = first_occ(lhs, '.');
            Some((lhs.take(j), lhs.skip(j + 1), rhs))
        } else {
            None
        }
    } else {
        None
    }
}

/// The mapping built from a sequence of lines, processed in order.
pub open spec fn spec_build(lines: Seq<Seq<char>>) -> Seq<SectionV>
    decreases lines.len(),
{
    if lines.len() == 0 {
        Seq::empty()
    } else {
        let prev = spec_build(lines.drop_last());
        match spec_parse_line(lines.last()) {
            None => prev,
            Some((obj, key, val)) => spec_insert(prev, obj, key, val),
        }
    }
}

/// The mapping described by a whole text.
pub open spec fn spec_parse_ioc(t: Seq<char>) -> Seq<SectionV> {
    spec_build(spec_lines(t))
}

impl Section {
    /// The raw value of parameter `key`, if this object holds it.
    pub fn get(&self, key: &str) -> (r: Option<&Vec<char>>)
        ensures
            match r {
                Some(v) => find_param(self@.params, key@) == Some(v@),
                None => find_param(self@.params, key@) is None,
            },
    {
        let mut i: usize = 0;
        proof {
            assert(self@.params.skip(0) =~= self@.params);
        }
        while i < self.params.len()
            invariant
                i <= self.params@.len(),
                find_param(self@.params, key@) == find_param(
                    self@.params.skip(i as int),
                    key@,
                ),
            decreases self.params@.len() - i,
        {
            if crate::text::chars_eq_str(&self.params[i].key, key) {
                proof {
                    assert(self@.params.skip(i as int)[0] == self@.params[i as int]);
                }
                return Some(&self.params[i].value);
            }
            proof {
                assert(self@.params.skip(i as int).drop_first() =~= self@.params.skip(
                    i + 1 as int,
                ));
            }
            i = i + 1;
        }
        proof {
            assert(self@.params.skip(i as int).len() == 0);
        }
        None
    }

    /// The raw value of parameter `key`, given as a character vector.
    pub fn get_chars(&self, key: &Vec<char>) -> (r: Option<&Vec<char>>)
        ensures
            match r {
                Some(v) => find_param(self@.params, key@) == Some(v@),
                None => find_param(self@.params, key@) is None,
            },
    {
        let mut i: usize = 0;
        proof {
            assert(self@.params.skip(0) =~= self@.params);
        }
        while i < self.params.len()
            invariant
                i <= self.params@.len(),
                find_param(self@.params, key@) == find_param(
                    self@.params.skip(i as int),
                    key@,
                ),
            decreases self.params@.len() - i,
        {
            if crate::text::chars_eq(&self.params[i].key, key) {
                proof {
                    assert(self@.params.skip(i as int)[0] == self@.params[i as int]);
                }
                return Some(&self.params[i].value);
            }
            proof {
                assert(self@.params.skip(i as int).drop_first() =~= self@.params.skip(
                    i + 1 as int,
                ));
            }
            i = i + 1;
        }
        None
    }
}

impl RawConfig {
    /// The object named `name`, if the configuration holds it.
    pub fn get(&self, name: &str) -> (r: Option<&Section>)
        ensures
            match r {
                Some(s) => find_section(self@, name@) == Some(s@),
                None => find_section(self@, name@) is None,
            },
    {
        let mut i: usize = 0;
        proof {
            assert(self@.skip(0) =~= self@);
        }
        while i < self.sections.len()
            invariant
                i <= self.sections@.len(),
                find_section(self@, name@) == find_section(self@.skip(i as int), name@),
            decreases self.sections@.len() - i,
        {
            if crate::text::chars_eq_str(&self.sections[i].name, name) {
                proof {
                    assert(self@.skip(i as int)[0] == self@[i as int]);
                }
                return Some(&self.sections[i]);
            }
            proof {
                assert(self@.skip(i as int).drop_first() =~= self@.skip(i + 1 as int));
            }
            i = i + 1;
        }
        None
    }

    /// The object named `name`, given as a character vector.
    pub fn get_chars(&self, name: &Vec<char>) -> (r: Option<&Section>)
        ensures
            match r {
                Some(s) => find_section(self@, name@) == Some(s@),
                None => find_section(self@, name@) is None,
            },
    {
        let mut i: usize = 0;
        proof {
            assert(self@.skip(0) =~= self@);
        }
        while i < self.sections.len()
            invariant
                i <= self.sections@.len(),
                find_section(self@, name@) == find_section(self@.skip(i as int), name@),
            decreases self.sections@.len() - i,
        {
            if crate::text::chars_eq(&self.sections[i].name, name) {
                proof {
                    assert(self@.skip(i as int)[0] == self@[i as int]);
                }
                return Some(&self.sections[i]);
            }
            proof {
                assert(self@.skip(i as int).drop_first() =~= self@.skip(i + 1 as int));
            }
            i = i + 1;
        }
        None
    }
}

/// Copies the character range `[from, to)` of `v` into a fresh vector.
pub fn sub_chars(v: &Vec<char>, from: usize, to: usize) -> (r: Vec<char>)
    requires
        from <= to <= v@.len(),
    ensures
        r@ == v@.subrange(from as int, to as int),
{
    let mut r: Vec<char> = Vec::new();
    let mut i: usize = from;
    while i < to
        invariant
            from <= i <= to <= v@.len(),
            r@ == v@.subrange(from as int, i as int),
        decreases to - i,
    {
        r.push(v[i]);
        i = i + 1;
        proof {
            assert(r@ =~= v@.subrange(from as int, i as int));
        }
    }
    r
}

/// Counts `c` in `v` and reports the position of its first occurrence
/// (`v.len()` when there is none).
pub fn scan_char(v: &Vec<char>, c: char) -> (r: (usize, usize))
    ensures
        r.0 == count_char(v@, c),
        r.1 == first_occ(v@, c),
{
    let mut count: usize = 0;
    let mut first: usize = v.len();
    let mut i: usize = 0;
    proof {
        assert(v@.take(0) =~= Seq::<char>::empty());
    }
    while i < v.len()
        invariant
            i <= v@.len(),
            count == count_char(v@.take(i as int), c),
            count <= i,
            count == 0 ==> first == v@.len(),
            count != 0 ==> first == first_occ(v@, c),
            count == 0 ==> forall|j: int| 0 <= j < i ==> v@[j] != c,
        decreases v@.len() - i,
    {
        proof {
            lemma_count_take_step(v@, c, i as int);
        }
        if v[i] == c {
            if count == 0 {
                first = i;
                proof {
                    lemma_first_occ_at(v@, c, i as int);
                }
            }
            count = count + 1;
        }
        i = i + 1;
    }
    proof {
        assert(v@.take(v@.len() as int) =~= v@);
        if count == 0 {
            lemma_first_occ_at(v@, c, v@.len() as int);
        }
    }
    (count, first)
}

/// Counting over a prefix grows exactly at positions holding `c`.
proof fn lemma_count_take_step(t: Seq<char>, c: char, i: int)
    requires
        0 <= i < t.len(),
    ensures
        count_char(t.take(i + 1), c) == count_char(t.take(i), c) + (if t[i] == c {
            1int
        } else {
            0int
        }),
    decreases i,
{
    if i == 0 {
        assert(t.take(1).drop_first() =~= t.take(0));
    } else {
        assert(t.take(i + 1).drop_first() =~= t.drop_first().take(i));
        assert(t.take(i).drop_first() =~= t.drop_first().take(i - 1));
        lemma_count_take_step(t.drop_first(), c, i - 1);
    }
}

/// Splits a line into its (object, parameter, value) triple, if it is of
/// the accepted shape; malformed lines report `None`.
fn split_line(line: &Vec<char>) -> (r: Option<(Vec<char>, Vec<char>, Vec<char>)>)
    ensures
        match (r, spec_parse_line(line@)) {
            (Some(t), Some(s)) => t.0@ == s.0 && t.1@ == s.1 && t.2@ == s.2,
            (None, None) => true,
            _ => false,
        },
{
    let (eq_count, eq_at) = scan_char(line, '=');
    if eq_count != 1 {
        return None;
    }
    proof {
        lemma_first_occ(line@, '=');
        if first_occ(line@, '=') == line@.len() {
            lemma_count_none(line@, '=');
            assert(false);
        }
        assert(eq_at < line@.len());
    }
    let n = line.len();
    let lhs = sub_chars(line, 0, eq_at);
    let rhs = sub_chars(line, eq_at + 1, n);
    proof {
        assert(lhs@ =~= line@.take(eq_at as int));
        assert(rhs@ =~= line@.skip(eq_at + 1 as int));
    }
    let (dot_count, dot_at) = scan_char(&lhs, '.');
    if dot_count != 1 {
        return None;
    }
    proof {
        lemma_first_occ(lhs@, '.');
        if first_occ(lhs@, '.') == lhs@.len() {
            lemma_count_none(lhs@, '.');
            assert(false);
        }
        assert(dot_at < lhs@.len());
    }
    let obj = sub_chars(&lhs, 0, dot_at);
    let key = sub_chars(&lhs, dot_at + 1, lhs.len());
    proof {
        assert(obj@ =~= lhs@.take(dot_at as int));
        assert(key@ =~= lhs@.skip(dot_at + 1 as int));
    }
    Some((obj, key, rhs))
}

/// A sequence in which `c` never appears has zero count of it.
pub proof fn lemma_count_none(t: Seq<char>, c: char)
    requires
        forall|j: int| 0 <= j < t.len() ==> t[j] != c,
    ensures
        count_char(t, c) == 0,
    decreases t.len(),
{
    if t.len() > 0 {
        lemma_count_none(t.drop_first(), c);
    }
}

/// Splits the text into its lines, as [`spec_lines`] describes.
fn split_into_lines(text: &Vec<char>) -> (r: Vec<Vec<char>>)
    ensures
        r@.map_values(|l: Vec<char>| l@) == spec_lines(text@),
{
    let mut lines: Vec<Vec<char>> = Vec::new();
    let mut start: usize = 0;
    let mut i: usize = 0;
    proof {
        assert(text@.skip(0) =~= text@);
        assert(lines@.map_values(|l: Vec<char>| l@) =~= Seq::<Seq<char>>::empty());
        assert(Seq::<Seq<char>>::empty() + spec_lines(text@) =~= spec_lines(text@));
    }
    while i < text.len()
        invariant
            start <= i <= text@.len(),
            forall|j: int| start <= j < i ==> text@[j] != '\n',
            spec_lines(text@) == lines@.map_values(|l: Vec<char>| l@) + spec_lines(
                text@.skip(start as int),
            ),
        decreases text@.len() - i,
    {
        if text[i] == '\n' {
            let ghost pre_lines = lines@.map_values(|l: Vec<char>| l@);
            let ghost rest = text@.skip(start as int);
            let mut piece = sub_chars(text, start, i);
            proof {
                assert forall|j: int| 0 <= j < i - start implies rest[j] != '\n' by {
                    assert(rest[j] == text@[start + j]);
                }
                lemma_first_occ_at(rest, '\n', i - start);
                assert(rest.take(i - start) =~= text@.subrange(start as int, i as int));
                assert(rest.skip(i - start + 1) =~= text@.skip(i + 1 as int));
                assert(spec_lines(rest) == seq![
                    spec_strip_cr(text@.subrange(start as int, i as int)),
                ] + spec_lines(text@.skip(i + 1 as int)));
            }
            if piece.len() > 0 && piece[piece.len() - 1] == '\r' {
                piece.pop();
            }
            proof {
                assert(piece@ =~= spec_strip_cr(text@.subrange(start as int, i as int)));
            }
            lines.push(piece);
            proof {
                assert(lines@.map_values(|l: Vec<char>| l@) =~= pre_lines.push(piece@));
                assert(pre_lines.push(piece@) + spec_lines(text@.skip(i + 1 as int)) =~= pre_lines
                    + spec_lines(rest));
            }
            start = i + 1;
        }
        i = i + 1;
    }
    let ghost pre_lines = lines@.map_values(|l: Vec<char>| l@);
    let ghost rest = text@.skip(start as int);
    if start < text.len() {
        let piece = sub_chars(text, start, text.len());
        proof {
            assert forall|j: int| 0 <= j < rest.len() implies rest[j] != '\n' by {
                assert(rest[j] == text@[start + j]);
            }
            lemma_first_occ_at(rest, '\n', text@.len() - start);
            assert(rest =~= text@.subrange(start as int, text@.len() as int));
            assert(rest.len() > 0);
            assert(spec_lines(rest) == seq![rest]);
            assert(piece@ == rest);
        }
        lines.push(piece);
        proof {
            assert(lines@.map_values(|l: Vec<char>| l@) =~= pre_lines.push(piece@));
            assert(pre_lines.push(piece@) =~= pre_lines + seq![rest]);
        }
    } else {
        proof {
            assert(rest.len() == 0);
            assert(pre_lines + spec_lines(rest) =~= pre_lines);
        }
    }
    lines
}

/// Distinct parameter names within one object.
pub open spec fn wf_params(params: Seq<ParamV>) -> bool {
    forall|i: int, j: int|
        0 <= i < j < params.len() ==> (#[trigger] params[i]).key != (#[trigger] params[j]).key
}

/// A well-formed mapping: object names are distinct, and parameter names
/// are distinct within each object.
pub open spec fn wf_sections(secs: Seq<SectionV>) -> bool {
    (forall|i: int, j: int|
        0 <= i < j < secs.len() ==> (#[trigger] secs[i]).name != (#[trigger] secs[j]).name)
        && (forall|i: int| 0 <= i < secs.len() ==> wf_params((#[trigger] secs[i]).params))
}

proof fn lemma_sec_idx_props(secs: Seq<SectionV>, name: Seq<char>)
    ensures
        0 <= sec_idx(secs, name) <= secs.len(),
        sec_idx(secs, name) < secs.len() ==> secs[sec_idx(secs, name)].name == name,
        forall|j: int| 0 <= j < sec_idx(secs, name) ==> (#[trigger] secs[j]).name != name,
    decreases secs.len(),
{
    if secs.len() > 0 && secs[0].name != name {
        lemma_sec_idx_props(secs.drop_first(), name);
        assert forall|j: int| 0 <= j < sec_idx(secs, name) implies (#[trigger] secs[j]).name
            != name by {
            if j > 0 {
                assert(secs.drop_first()[j - 1] == secs[j]);
            }
        }
    }
}

proof fn lemma_param_idx_props(params: Seq<ParamV>, key: Seq<char>)
    ensures
        0 <= param_idx(params, key) <= params.len(),
        param_idx(params, key) < params.len() ==> params[param_idx(params, key)].key == key,
        forall|j: int| 0 <= j < param_idx(params, key) ==> (#[trigger] params[j]).key != key,
    decreases params.len(),
{
    if params.len() > 0 && params[0].key != key {
        lemma_param_idx_props(params.drop_first(), key);
        assert forall|j: int| 0 <= j < param_idx(params, key) implies (#[trigger] params[j]).key
            != key by {
            if j > 0 {
                assert(params.drop_first()[j - 1] == params[j]);
            }
        }
    }
}

/// One insertion keeps the mapping well formed: an overwrite replaces a
/// value in place, a new parameter or object lands at the end under a name
/// that was not taken.
proof fn lemma_insert_wf(secs: Seq<SectionV>, obj: Seq<char>, key: Seq<char>, val: Seq<char>)
    requires
        wf_sections(secs),
    ensures
        wf_sections(spec_insert(secs, obj, key, val)),
{
    lemma_sec_idx_props(secs, obj);
    let si = sec_idx(secs, obj);
    if si == secs.len() {
        let out = spec_insert(secs, obj, key, val);
        assert forall|i: int, j: int| 0 <= i < j < out.len() implies (#[trigger] out[i]).name != (
        #[trigger] out[j]).name by {
            if j == out.len() - 1 {
                assert(out[i] == secs[i]);
                assert(si == secs.len());
            }
        }
        assert(wf_params(out[out.len() - 1].params));
    } else {
        let s = secs[si];
        lemma_param_idx_props(s.params, key);
        let pi = param_idx(s.params, key);
        let nps = if pi == s.params.len() {
            s.params.push(ParamV { key, value: val })
        } else {
            s.params.update(pi, ParamV { key, value: val })
        };
        assert forall|i: int, j: int| 0 <= i < j < nps.len() implies (#[trigger] nps[i]).key != (
        #[trigger] nps[j]).key by {
            if pi == s.params.len() {
                if j == nps.len() - 1 {
                    assert(nps[i] == s.params[i]);
                }
            }
        }
    }
}

/// The mapping built from any line sequence is well formed.
proof fn lemma_build_wf(lines: Seq<Seq<char>>)
    ensures
        wf_sections(spec_build(lines)),
    decreases lines.len(),
{
    if lines.len() > 0 {
        lemma_build_wf(lines.drop_last());
        match spec_parse_line(lines.last()) {
            None => {},
            Some((obj, key, val)) => {
                lemma_insert_wf(spec_build(lines.drop_last()), obj, key, val);
            },
        }
    }
}

/// The law of the flat parser's shape: whatever the text, the mapping it
/// describes is a genuine two-level mapping — object names are distinct,
/// and parameter names are distinct within each object — so a lookup by
/// name is unambiguous and a later line can only overwrite, never
/// duplicate.
pub proof fn lemma_parse_ioc_wf(text: Seq<char>)
    ensures
        wf_sections(spec_parse_ioc(text)),
{
    lemma_build_wf(spec_lines(text));
}

/// Performs one [`spec_insert`] step on the mapping under construction.
fn insert_binding(cfg: &mut RawConfig, obj: Vec<char>, key: Vec<char>, val: Vec<char>)
    ensures
        final(cfg)@ == spec_insert(old(cfg)@, obj@, key@, val@),
{
    let ghost old_secs = cfg@;
    let mut si: usize = 0;
    while si < cfg.sections.len()
        invariant
            si <= cfg.sections@.len(),
            cfg@ == old_secs,
            old_secs == old(cfg)@,
            forall|j: int| 0 <= j < si ==> (#[trigger] old_secs[j]).name != obj@,
        decreases cfg.sections@.len() - si,
    {
        if crate::text::chars_eq(&cfg.sections[si].name, &obj) {
            proof {
                lemma_sec_idx_from_pos(old_secs, obj@, si as int);
            }
            let mut sec = cfg.sections.remove(si);
            let ghost old_params = sec@.params;
            proof {
                assert(sec@ == old_secs[si as int]);
                assert(cfg@ =~= old_secs.remove(si as int));
            }
            let mut pi: usize = 0;
            while pi < sec.params.len()
                invariant
                    pi <= sec.params@.len(),
                    si < old_secs.len(),
                    old_secs == old(cfg)@,
                    sec_idx(old_secs, obj@) == si,
                    cfg@ == old_secs.remove(si as int),
                    sec@.params == old_params,
                    old_params == old_secs[si as int].params,
                    sec@.name == old_secs[si as int].name,
                    forall|j: int| 0 <= j < pi ==> (#[trigger] old_params[j]).key != key@,
                decreases sec.params@.len() - pi,
            {
                if crate::text::chars_eq(&sec.params[pi].key, &key) {
                    proof {
                        lemma_param_idx_from_pos(old_params, key@, pi as int);
                    }
                    let _ = sec.params.remove(pi);
                    sec.params.insert(pi, Param { key, value: val });
                    proof {
                        assert(sec@.params =~= old_params.update(
                            pi as int,
                            ParamV { key: key@, value: val@ },
                        ));
                        old_secs.remove_ensures(si as int);
                        assert(cfg@.len() == cfg.sections@.len());
                        assert(cfg.sections@.len() == old_secs.len() - 1);
                    }
                    cfg.sections.insert(si, sec);
                    proof {
                        assert(cfg@ =~= old_secs.remove(si as int).insert(si as int, sec@));
                        assert(old_secs.remove(si as int).insert(si as int, sec@)
                            =~= old_secs.update(si as int, sec@));
                        assert(cfg@ == spec_insert(old_secs, obj@, key@, val@));
                    }
                    return ;
                }
                pi = pi + 1;
            }
            proof {
                lemma_param_idx_absent(old_params, key@);
            }
            sec.params.push(Param { key, value: val });
            proof {
                assert(sec@.params =~= old_params.push(ParamV { key: key@, value: val@ }));
            }
            cfg.sections.insert(si, sec);
            proof {
                assert(cfg@ =~= old_secs.remove(si as int).insert(si as int, sec@));
                assert(old_secs.remove(si as int).insert(si as int, sec@) =~= old_secs.update(
                    si as int,
                    sec@,
                ));
                assert(cfg@ == spec_insert(old_secs, obj@, key@, val@));
            }
            return ;
        }
        si = si + 1;
    }
    proof {
        lemma_sec_idx_absent(old_secs, obj@);
    }
    let mut params: Vec<Param> = Vec::new();
    params.push(Param { key, value: val });
    cfg.sections.push(Section { name: obj, params });
    proof {
        assert(params@.map_values(|p: Param| p@) =~= seq![ParamV { key: key@, value: val@ }]);
        assert(cfg@ =~= spec_insert(old_secs, obj@, key@, val@));
    }
}

/// `sec_idx` is determined by the earliest section of the name.
proof fn lemma_sec_idx_from_pos(secs: Seq<SectionV>, name: Seq<char>, k: int)
    requires
        0 <= k < secs.len(),
        forall|j: int| 0 <= j < k ==> (#[trigger] secs[j]).name != name,
        secs[k].name == name,
    ensures
        sec_idx(secs, name) == k,
    decreases secs.len(),
{
    if k > 0 {
        lemma_sec_idx_from_pos(secs.drop_first(), name, k - 1);
    }
}

proof fn lemma_sec_idx_absent(secs: Seq<SectionV>, name: Seq<char>)
    requires
        forall|j: int| 0 <= j < secs.len() ==> (#[trigger] secs[j]).name != name,
    ensures
        sec_idx(secs, name) == secs.len(),
    decreases secs.len(),
{
    if secs.len() > 0 {
        lemma_sec_idx_absent(secs.drop_first(), name);
    }
}

proof fn lemma_param_idx_from_pos(params: Seq<ParamV>, key: Seq<char>, k: int)
    requires
        0 <= k < params.len(),
        forall|j: int| 0 <= j < k ==> (#[trigger] params[j]).key != key,
        params[k].key == key,
    ensures
        param_idx(params, key) == k,
    decreases params.len(),
{
    if k > 0 {
        lemma_param_idx_from_pos(params.drop_first(), key, k - 1);
    }
}

proof fn lemma_param_idx_absent(params: Seq<ParamV>, key: Seq<char>)
    requires
        forall|j: int| 0 <= j < params.len() ==> (#[trigger] params[j]).key != key,
    ensures
        param_idx(params, key) == params.len(),
    decreases params.len(),
{
    if params.len() > 0 {
        lemma_param_idx_absent(params.drop_first(), key);
    }
}

/// Parses the configuration text into the flat two-level mapping.
///
/// The result is a pure function of the text: parsing the same text twice
/// yields equal mappings.
pub fn parse_ioc(file_content: &str) -> (r: RawConfig)
    ensures
        r@ == spec_parse_ioc(file_content@),
{
    let text = chars_of_str(file_content);
    let lines = split_into_lines(&text);
    let mut cfg = RawConfig { sections: Vec::new() };
    let ghost lines_v = lines@.map_values(|l: Vec<char>| l@);
    let mut i: usize = 0;
    proof {
        assert(lines_v.take(0) =~= Seq::<Seq<char>>::empty());
        assert(cfg@ =~= Seq::<SectionV>::empty());
    }
    while i < lines.len()
        invariant
            i <= lines@.len(),
            lines_v == lines@.map_values(|l: Vec<char>| l@),
            cfg@ == spec_build(lines_v.take(i as int)),
        decreases lines@.len() - i,
    {
        proof {
            assert(lines_v.take(i + 1 as int).drop_last() =~= lines_v.take(i as int));
            assert(lines_v.take(i + 1 as int).last() == lines_v[i as int]);
        }
        match split_line(&lines[i]) {
            None => {},
            Some((obj, key, val)) => {
                insert_binding(&mut cfg, obj, key, val);
            },
        }
        i = i + 1;
    }
    proof {
        assert(lines_v.take(lines_v.len() as int) =~= lines_v);
    }
    cfg
}

} // verus!
