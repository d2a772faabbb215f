//! Plain forms of the command-line options that the library's logic reads.
use vstd::prelude::*;
use crate::render::LogFilter;
use crate::section::{digits_value, is_digit, lemma_digits_value_prefix};
use crate::text::{chars_of, digits, digits_of, str_eq};

verus! {

/// Color mode.
#[derive(Debug, Clone, Copy, PartialEq, Eq, Structural)]
pub enum ColorChoice {
    Auto,
    Always,
    Never,
}

/// The name of each color mode on the command line.
pub open spec fn color_name(c: ColorChoice) -> Seq<char> {
    match c {
        ColorChoice::Auto => "auto"@,
        ColorChoice::Always => "always"@,
        ColorChoice::Never => "never"@,
    }
}

impl ColorChoice {
    /// The color mode that `s` names.
    pub fn parse(s: &str) -> (r: Option<ColorChoice>)
        ensures
            match r {
                Some(c) => color_name(c) == s@,
                None => forall|c: ColorChoice| color_name(c) != s@,
            },
    {
        if str_eq(s, "auto") {
            Some(ColorChoice::Auto)
        } else if str_eq(s, "always") {
            Some(ColorChoice::Always)
        } else if str_eq(s, "never") {
            Some(ColorChoice::Never)
        } else {
            proof {
                assert forall|c: ColorChoice| color_name(c) != s@ by {
                    match c {
                        ColorChoice::Auto => {},
                        ColorChoice::Always => {},
                        ColorChoice::Never => {},
                    }
                }
            }
            None
        }
    }

    /// Whether output is colored: always, or in auto mode when standard output is an
    /// interactive terminal.
    pub fn colored(self, stdout_is_tty: bool) -> (r: bool)
        ensures
            r == (self == ColorChoice::Always || (self == ColorChoice::Auto && stdout_is_tty)),
    {
        match self {
            ColorChoice::Always => true,
            ColorChoice::Auto => stdout_is_tty,
            ColorChoice::Never => false,
        }
    }
}

/// A project, given by its path or its numeric id.
#[derive(Debug, Clone, PartialEq, Eq)]
pub enum OwnedNameOrId {
    Name(String),
    Id(u64),
}

/// What `u64::from_str` gives: an optional `+`, then one digit or more, and a value
/// that fits.
pub open spec fn u64_text(t: Seq<char>) -> Option<u64> {
    if t.len() > 0 && t[0] == '+' {
        unsigned_digits(t.drop_first())
    } else {
        unsigned_digits(t)
    }
}

/// The value of the digit string `ds`, when it is one digit or more and fits in `u64`.
pub open spec fn unsigned_digits(ds: Seq<char>) -> Option<u64> {
    if ds.len() == 0 || !(forall|k: int| 0 <= k < ds.len() ==> is_digit(ds[k])) {
        None
    } else if digits_value(ds) <= u64::MAX {
        Some(digits_value(ds) as u64)
    } else {
        None
    }
}

/// Reads an unsigned integer as `u64::from_str` does.
pub fn parse_u64(s: &str) -> (r: Option<u64>)
    ensures
        r == u64_text(s@),
{
    let cs = chars_of(s);
    let ghost t = s@;
    let start: usize = if cs.len() > 0 && cs[0] == '+' { 1 } else { 0 };
    let ghost ds = if t.len() > 0 && t[0] == '+' { t.drop_first() } else { t };
    assert(ds =~= cs@.subrange(start as int, cs.len() as int));
    assert(u64_text(t) == unsigned_digits(ds));
    if start == cs.len() {
        return None;
    }
    let mut acc: u64 = 0;
    let mut k = start;
    while k < cs.len()
        invariant
            start <= k <= cs.len(),
            cs@ == t,
            t == s@,
            ds == cs@.subrange(start as int, cs.len() as int),
            ds.len() > 0,
            u64_text(t) == unsigned_digits(ds),
            forall|q: int| 0 <= q < k - start ==> is_digit(ds[q]),
            acc as int == digits_value(ds.take(k - start)),
        decreases cs.len() - k,
    {
        let c = cs[k];
        if !('0' <= c && c <= '9') {
            assert(!is_digit(ds[k - start]));
            assert(!(forall|q: int| 0 <= q < ds.len() ==> is_digit(ds[q])));
            return None;
        }
        let d = (c as u32 - '0' as u32) as u64;
        assert(ds.take(k - start + 1).drop_last() =~= ds.take(k - start));
        if acc > 1844674407370955161u64 || (acc == 1844674407370955161u64 && d > 5) {
            proof {
                assert(digits_value(ds.take(k - start + 1)) == acc * 10 + d);
                if forall|q: int| 0 <= q < ds.len() ==> is_digit(ds[q]) {
                    lemma_digits_value_prefix(ds, k - start + 1);
                }
            }
            return None;
        }
        acc = acc * 10 + d;
        k = k + 1;
    }
    assert(ds.take(k - start) =~= ds);
    Some(acc)
}

impl OwnedNameOrId {
    /// Reads a project given on the command line: a number is an id, anything else a
    /// path.
    pub fn parse(s: &str) -> (r: OwnedNameOrId)
        ensures
            match u64_text(s@) {
                Some(id) => r == OwnedNameOrId::Id(id),
                None => r matches OwnedNameOrId::Name(n) && n@ == s@,
            },
    {
        match parse_u64(s) {
            Some(id) => OwnedNameOrId::Id(id),
            None => OwnedNameOrId::Name(String::from_str(s)),
        }
    }

    /// The project as text: the id in decimal, or the path.
    pub fn to_text(&self) -> (r: String)
        ensures
            r@ == match self {
                OwnedNameOrId::Id(id) => digits_of(*id as nat),
                OwnedNameOrId::Name(n) => n@,
            },
    {
        match self {
            OwnedNameOrId::Id(id) => digits(*id),
            OwnedNameOrId::Name(n) => n.clone(),
        }
    }
}

impl std::str::FromStr for ColorChoice {
    type Err = String;

    fn from_str(s: &str) -> Result<ColorChoice, String> {
        match ColorChoice::parse(s) {
            Some(c) => Ok(c),
            None => Err(
                s.to_string().concat(
                    " not supported for --color. Use either \"auto\", \"always\" or \"never\"",
                ),
            ),
        }
    }
}

impl std::str::FromStr for OwnedNameOrId {
    type Err = String;

    fn from_str(s: &str) -> Result<OwnedNameOrId, String> {
        Ok(OwnedNameOrId::parse(s))
    }
}

/// Options of the `pipeline log` command.
#[derive(Debug, Clone)]
pub struct PipelineLog {
    /// The project which owns the pipeline.
    pub project: Option<OwnedNameOrId>,
    /// Reference (tag or branch).
    pub ref_: Option<String>,
    /// A name that partially matches the section name(s) to show in the log.
    pub section: String,
    /// The job id to extract the job log from.
    pub job_id: Option<u64>,
    /// Show all sections.
    pub all: bool,
    /// Show section headers.
    pub headers: bool,
    /// Show only section headers (all collapsed).
    pub only_headers: bool,
    /// The pipeline id.
    pub id: Option<u64>,
}

impl PipelineLog {
    /// The log filter these options select.
    pub fn filter(&self) -> (r: LogFilter)
        ensures
            r.show_all == self.all,
            r.show_headers == self.headers,
            r.show_only_headers == self.only_headers,
            r.name_substring == self.section,
    {
        LogFilter {
            show_all: self.all,
            show_headers: self.headers,
            show_only_headers: self.only_headers,
            name_substring: self.section.clone(),
        }
    }
}

} // verus!
