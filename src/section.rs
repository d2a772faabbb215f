//! Section markers of CI job logs: `section_start:<ts>:<name>[<flags>]` and
//! `section_end:<ts>:<name>[<flags>]`.
use vstd::prelude::*;
use crate::text::{chars_of, str_eq};

verus! {

/// Marker for section start and end.
#[derive(Debug, Clone, Copy, PartialEq, Eq, Structural)]
pub enum SectionType {
    Start,
    End,
}

/// Parsing result of a log section marker.
#[derive(Debug, Clone)]
pub struct Section {
    pub kind: SectionType,
    pub timestamp: i64,
    pub name: String,
    pub collapsed: bool,
}

/// Mathematical view of a [`Section`].
pub struct SectionV {
    pub kind: SectionType,
    pub timestamp: i64,
    pub name: Seq<char>,
    pub collapsed: bool,
}

impl View for Section {
    type V = SectionV;

    open spec fn view(&self) -> SectionV {
        SectionV {
            kind: self.kind,
            timestamp: self.timestamp,
            name: self.name@,
            collapsed: self.collapsed,
        }
    }
}

/// Unicode `White_Space`, the characters `char::is_whitespace` accepts.
pub open spec fn is_space(c: char) -> bool {
    c == ' ' || ('\x09' <= c && c <= '\x0d') || c == '\u{85}' || c == '\u{a0}' || c
        == '\u{1680}' || ('\u{2000}' <= c && c <= '\u{200a}') || c == '\u{2028}' || c
        == '\u{2029}' || c == '\u{202f}' || c == '\u{205f}' || c == '\u{3000}'
}

/// `s` without its trailing whitespace.
pub open spec fn trim_end(s: Seq<char>) -> Seq<char>
    decreases s.len(),
{
    if s.len() > 0 && is_space(s.last()) {
        trim_end(s.drop_last())
    } else {
        s
    }
}

/// The first index at or after `from` where `s` holds `c`.
pub open spec fn find_char(s: Seq<char>, c: char, from: int) -> Option<int>
    decreases s.len() - from,
{
    if from < 0 || from >= s.len() {
        None
    } else if s[from] == c {
        Some(from)
    } else {
        find_char(s, c, from + 1)
    }
}

/// Whether `c` is an ASCII decimal digit.
pub open spec fn is_digit(c: char) -> bool {
    '0' <= c && c <= '9'
}

/// The value of a string of decimal digits.
pub open spec fn digits_value(ds: Seq<char>) -> int
    decreases ds.len(),
{
    if ds.len() == 0 {
        0
    } else {
        digits_value(ds.drop_last()) * 10 + (ds.last() as int - '0' as int)
    }
}

/// The value that an optional sign `neg` and the digit string `ds` stand for, when `ds` is
/// one digit or more and the value is in range.
pub open spec fn signed_digits(neg: bool, ds: Seq<char>) -> Option<i64> {
    if ds.len() == 0 || !(forall|k: int| 0 <= k < ds.len() ==> is_digit(ds[k])) {
        None
    } else {
        let v = if neg {
            -digits_value(ds)
        } else {
            digits_value(ds)
        };
        if i64::MIN <= v <= i64::MAX {
            Some(v as i64)
        } else {
            None
        }
    }
}

/// What `i64::from_str` gives: an optional `+` or `-`, then one digit or more, and a
/// value in range.
pub open spec fn int_text(t: Seq<char>) -> Option<i64> {
    if t.len() > 0 && (t[0] == '-' || t[0] == '+') {
        signed_digits(t[0] == '-', t.drop_first())
    } else {
        signed_digits(false, t)
    }
}

/// The kind a marker word names.
pub open spec fn marker_kind(w: Seq<char>) -> Option<SectionType> {
    if w == "section_start"@ {
        Some(SectionType::Start)
    } else if w == "section_end"@ {
        Some(SectionType::End)
    } else {
        None
    }
}

/// Whether `s` begins with a section marker.
pub open spec fn has_marker_prefix(s: Seq<char>) -> bool {
    (s.len() >= 14 && s.take(14) == "section_start:"@) || (s.len() >= 12 && s.take(12)
        == "section_end:"@)
}

/// Name and collapsed flag of the part after the timestamp: a trailing `[flags]` block
/// is cut off the name, and the section is collapsed when the block is `collapsed=true`.
pub open spec fn name_and_flag(np: Seq<char>) -> (Seq<char>, bool) {
    match find_char(np, '[', 0) {
        Some(i) => match find_char(np, ']', i + 1) {
            Some(j) => (np.take(i), np.subrange(i + 1, j) == "collapsed=true"@),
            None => (np, false),
        },
        None => (np, false),
    }
}

/// The section marker that `s` holds, if any.
pub open spec fn parse_section(s: Seq<char>) -> Option<SectionV> {
    if !has_marker_prefix(s) {
        None
    } else {
        let t = trim_end(s);
        match find_char(t, ':', 0) {
            None => None,
            Some(c1) => match find_char(t, ':', c1 + 1) {
                None => None,
                Some(c2) => match (marker_kind(t.take(c1)), int_text(t.subrange(c1 + 1, c2))) {
                    (Some(kind), Some(ts)) => {
                        let (name, collapsed) = name_and_flag(t.subrange(c2 + 1, t.len() as int));
                        Some(SectionV { kind, timestamp: ts, name, collapsed })
                    },
                    _ => None,
                },
            },
        }
    }
}

pub proof fn lemma_digits_value_nonneg(ds: Seq<char>)
    requires
        forall|k: int| 0 <= k < ds.len() ==> is_digit(ds[k]),
    ensures
        digits_value(ds) >= 0,
    decreases ds.len(),
{
    if ds.len() > 0 {
        lemma_digits_value_nonneg(ds.drop_last());
    }
}

pub proof fn lemma_digits_value_prefix(ds: Seq<char>, m: int)
    requires
        0 <= m <= ds.len(),
        forall|k: int| 0 <= k < ds.len() ==> is_digit(ds[k]),
    ensures
        digits_value(ds.take(m)) <= digits_value(ds),
    decreases ds.len(),
{
    if m < ds.len() {
        let d = ds.drop_last();
        lemma_digits_value_prefix(d, m);
        lemma_digits_value_nonneg(d);
        assert(d.take(m) =~= ds.take(m));
    } else {
        assert(ds.take(m) =~= ds);
    }
}

/// Exec form of [`is_space`].
fn is_space_char(c: char) -> (r: bool)
    ensures
        r == is_space(c),
{
    c == ' ' || ('\x09' <= c && c <= '\x0d') || c == '\u{85}' || c == '\u{a0}' || c
        == '\u{1680}' || ('\u{2000}' <= c && c <= '\u{200a}') || c == '\u{2028}' || c
        == '\u{2029}' || c == '\u{202f}' || c == '\u{205f}' || c == '\u{3000}'
}

/// Length of `cs` once its trailing whitespace is removed.
fn trimmed_len(cs: &Vec<char>) -> (n: usize)
    ensures
        n <= cs.len(),
        cs@.take(n as int) == trim_end(cs@),
{
    let mut n = cs.len();
    assert(cs@.take(n as int) =~= cs@);
    while n > 0 && is_space_char(cs[n - 1])
        invariant
            n <= cs.len(),
            trim_end(cs@.take(n as int)) == trim_end(cs@),
        decreases n,
    {
        assert(cs@.take(n as int).drop_last() =~= cs@.take(n - 1));
        n = n - 1;
    }
    n
}

/// First index at or after `from` where the first `len` characters of `cs` hold `c`.
fn find_in(cs: &Vec<char>, len: usize, c: char, from: usize) -> (r: Option<usize>)
    requires
        len <= cs.len(),
    ensures
        match r {
            Some(i) => find_char(cs@.take(len as int), c, from as int) == Some(i as int) && from
                <= i < len && cs@[i as int] == c,
            None => find_char(cs@.take(len as int), c, from as int) is None,
        },
{
    let ghost t = cs@.take(len as int);
    let mut i = from;
    while i < len
        invariant
            len <= cs.len(),
            t == cs@.take(len as int),
            from <= i,
            find_char(t, c, from as int) == find_char(t, c, i as int),
        decreases len - i,
    {
        if cs[i] == c {
            proof {
                lemma_find_char_bounds(t, c, from as int);
            }
            return Some(i);
        }
        i = i + 1;
    }
    None
}

/// The integer that the characters `from..to` of `cs` spell, as `i64::from_str` reads it.
fn parse_int(cs: &Vec<char>, from: usize, to: usize) -> (r: Option<i64>)
    requires
        from <= to <= cs.len(),
    ensures
        r == int_text(cs@.subrange(from as int, to as int)),
{
    let ghost t = cs@.subrange(from as int, to as int);
    let neg = from < to && cs[from] == '-';
    let signed = from < to && (cs[from] == '-' || cs[from] == '+');
    let start = if signed { from + 1 } else { from };
    assert(t.len() > 0 ==> t[0] == cs@[from as int]);
    assert(neg == (t.len() > 0 && t[0] == '-'));
    assert(signed == (t.len() > 0 && (t[0] == '-' || t[0] == '+')));
    let ghost ds = if signed { t.drop_first() } else { t };
    assert(ds =~= cs@.subrange(start as int, to as int));
    assert(int_text(t) == signed_digits(neg, ds));
    if start == to {
        return None;
    }
    let mut acc: u64 = 0;
    let mut k = start;
    while k < to
        invariant
            from <= start <= k <= to <= cs.len(),
            ds == cs@.subrange(start as int, to as int),
            t == cs@.subrange(from as int, to as int),
            int_text(t) == signed_digits(neg, ds),
            forall|q: int| 0 <= q < k - start ==> is_digit(ds[q]),
            acc as int == digits_value(ds.take(k - start)),
            acc <= 9223372036854775808u64,
        decreases to - k,
    {
        let c = cs[k];
        if !('0' <= c && c <= '9') {
            assert(!is_digit(ds[k - start]));
            assert(!(forall|q: int| 0 <= q < ds.len() ==> is_digit(ds[q])));
            return None;
        }
        let d = (c as u32 - '0' as u32) as u64;
        assert(ds.take(k - start + 1).drop_last() =~= ds.take(k - start));
        if acc > 922337203685477580u64 || (acc == 922337203685477580u64 && d > 8) {
            proof {
                assert(digits_value(ds.take(k - start + 1)) == acc * 10 + d);
                if forall|q: int| 0 <= q < ds.len() ==> is_digit(ds[q]) {
                    lemma_digits_value_prefix(ds, k - start + 1);
                    assert(digits_value(ds) > 9223372036854775808);
                }
            }
            return None;
        }
        acc = acc * 10 + d;
        k = k + 1;
    }
    assert(ds.take(k - start) =~= ds);
    if neg {
        if acc == 9223372036854775808u64 {
            Some(i64::MIN)
        } else {
            Some(-(acc as i64))
        }
    } else {
        if acc > 9223372036854775807u64 {
            None
        } else {
            Some(acc as i64)
        }
    }
}

impl SectionType {
    /// The kind that a marker word names: `section_start` or `section_end`.
    pub fn from_marker(w: &str) -> (r: Option<SectionType>)
        ensures
            r == marker_kind(w@),
    {
        if str_eq(w, "section_start") {
            Some(SectionType::Start)
        } else if str_eq(w, "section_end") {
            Some(SectionType::End)
        } else {
            None
        }
    }
}

/// Whether `cs` begins with the characters of `p`.
fn starts_with(cs: &Vec<char>, p: &str) -> (r: bool)
    ensures
        r == (p@.len() <= cs@.len() && cs@.take(p@.len() as int) == p@),
{
    let pc = chars_of(p);
    if pc.len() > cs.len() {
        return false;
    }
    let mut i: usize = 0;
    while i < pc.len()
        invariant
            pc@ == p@,
            pc.len() <= cs.len(),
            i <= pc.len(),
            forall|k: int| 0 <= k < i ==> cs@[k] == pc@[k],
        decreases pc.len() - i,
    {
        if cs[i] != pc[i] {
            assert(cs@.take(p@.len() as int)[i as int] != p@[i as int]);
            return false;
        }
        i = i + 1;
    }
    assert(cs@.take(p@.len() as int) =~= p@);
    true
}

impl Section {
    /// Reads a section marker. Anything that is not a well-formed marker gives `None`,
    /// so that the caller treats it as plain text.
    pub fn parse(s: &str) -> (r: Option<Section>)
        ensures
            match r {
                Some(sec) => parse_section(s@) == Some(sec@),
                None => parse_section(s@) is None,
            },
    {
        let cs = chars_of(s);
        proof {
            reveal_strlit("section_start:");
            reveal_strlit("section_end:");
        }
        if !(starts_with(&cs, "section_start:") || starts_with(&cs, "section_end:")) {
            return None;
        }
        let n = trimmed_len(&cs);
        let ghost t = trim_end(s@);
        let c1 = match find_in(&cs, n, ':', 0) {
            Some(i) => i,
            None => {
                return None;
            },
        };
        let c2 = match find_in(&cs, n, ':', c1 + 1) {
            Some(i) => i,
            None => {
                return None;
            },
        };
        proof {
            lemma_find_char_bounds(t, ':', 0);
            lemma_find_char_bounds(t, ':', c1 + 1);
        }
        let kind = SectionType::from_marker(s.substring_char(0, c1));
        assert(s@.subrange(0, c1 as int) =~= t.take(c1 as int));
        let kind = match kind {
            Some(k) => k,
            None => {
                return None;
            },
        };
        let ts = parse_int(&cs, c1 + 1, c2);
        assert(cs@.subrange(c1 + 1, c2 as int) =~= t.subrange(c1 + 1, c2 as int));
        let ts = match ts {
            Some(v) => v,
            None => {
                return None;
            },
        };
        let ghost np = t.subrange(c2 + 1, t.len() as int);
        let (name, collapsed) = name_flag_of(s, &cs, c2 + 1, n);
        assert(cs@.subrange(c2 + 1, n as int) =~= np);
        Some(Section { kind, timestamp: ts, name, collapsed })
    }
}

proof fn lemma_find_char_bounds(s: Seq<char>, c: char, from: int)
    ensures
        match find_char(s, c, from) {
            Some(i) => from <= i < s.len() && s[i] == c,
            None => true,
        },
    decreases s.len() - from,
{
    if from >= 0 && from < s.len() && s[from] != c {
        lemma_find_char_bounds(s, c, from + 1);
    }
}

proof fn lemma_find_char_shift(s: Seq<char>, c: char, a: int, from: int)
    requires
        0 <= a <= s.len(),
        0 <= from,
    ensures
        find_char(s.subrange(a, s.len() as int), c, from) == match find_char(s, c, a + from) {
            Some(i) => Some(i - a),
            None => None::<int>,
        },
    decreases s.len() - a - from,
{
    if a + from < s.len() && s[a + from] != c {
        lemma_find_char_shift(s, c, a, from + 1);
    }
}

/// Name and collapsed flag of the characters `from..to` of `s`.
fn name_flag_of(s: &str, cs: &Vec<char>, from: usize, to: usize) -> (r: (String, bool))
    requires
        cs@ == s@,
        from <= to <= cs.len(),
    ensures
        (r.0@, r.1) == name_and_flag(cs@.subrange(from as int, to as int)),
{
    let ghost np = cs@.subrange(from as int, to as int);
    let ghost t = cs@.take(to as int);
    assert(np =~= t.subrange(from as int, t.len() as int));
    proof {
        lemma_find_char_shift(t, '[', from as int, 0);
    }
    match find_in(cs, to, '[', from) {
        Some(i) => {
            proof {
                lemma_find_char_bounds(t, '[', from as int);
                lemma_find_char_shift(t, ']', from as int, i - from + 1);
            }
            match find_in(cs, to, ']', i + 1) {
                Some(j) => {
                    proof {
                        lemma_find_char_bounds(t, ']', i + 1);
                    }
                    let name = String::from_str(s.substring_char(from, i));
                    let flags = s.substring_char(i + 1, j);
                    assert(name@ =~= np.take(i - from));
                    assert(flags@ =~= np.subrange(i - from + 1, j - from));
                    (name, str_eq(flags, "collapsed=true"))
                },
                None => {
                    let name = String::from_str(s.substring_char(from, to));
                    assert(name@ =~= np);
                    (name, false)
                },
            }
        },
        None => {
            let name = String::from_str(s.substring_char(from, to));
            assert(name@ =~= np);
            (name, false)
        },
    }
}

} // verus!
