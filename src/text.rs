//! Character-level helpers: string comparison, decimal rendering and durations.
use vstd::prelude::*;

verus! {

/// The characters of `s`, in order.
pub fn chars_of(s: &str) -> (r: Vec<char>)
    ensures
        r@ == s@,
{
    let mut r: Vec<char> = Vec::new();
    for c in it: s.chars()
        invariant
            it.seq() == s@,
            r@ == it.seq().take(it.index() as int),
    {
        r.push(c);
    }
    r
}

/// Whether two string slices hold the same characters.
pub fn str_eq(a: &str, b: &str) -> (r: bool)
    ensures
        r == (a@ == b@),
{
    let x = chars_of(a);
    let y = chars_of(b);
    if x.len() != y.len() {
        return false;
    }
    let mut i: usize = 0;
    while i < x.len()
        invariant
            x@ == a@,
            y@ == b@,
            x.len() == y.len(),
            i <= x.len(),
            forall|k: int| 0 <= k < i ==> x@[k] == y@[k],
        decreases x.len() - i,
    {
        if x[i] != y[i] {
            return false;
        }
        i = i + 1;
    }
    assert(x@ =~= y@);
    true
}

/// The character of the decimal digit `d`.
pub open spec fn digit_char(d: nat) -> char {
    ('0' as nat + d) as char
}

/// Whether `needle` occurs in `hay` as a contiguous run.
pub open spec fn contains_seq(hay: Seq<char>, needle: Seq<char>) -> bool {
    exists|i: int|
        0 <= i && i + needle.len() <= hay.len() && #[trigger] hay.subrange(i, i + needle.len())
            == needle
}

/// Whether `needle` occurs in `hay`, as `str::contains` answers it.
pub fn str_contains(hay: &str, needle: &str) -> (r: bool)
    ensures
        r == contains_seq(hay@, needle@),
{
    let h = chars_of(hay);
    let n = chars_of(needle);
    if n.len() > h.len() {
        return false;
    }
    let last = h.len() - n.len();
    let mut i: usize = 0;
    while i <= last
        invariant
            h@ == hay@,
            n@ == needle@,
            last == h.len() - n.len(),
            n.len() <= h.len(),
            forall|k: int| 0 <= k < i ==> #[trigger] h@.subrange(k, k + n.len()) != n@,
        decreases last + 1 - i,
    {
        let mut j: usize = 0;
        while j < n.len() && h[i + j] == n[j]
            invariant
                i <= last,
                last == h.len() - n.len(),
                j <= n.len(),
                forall|q: int| 0 <= q < j ==> h@[i + q] == n@[q],
            decreases n.len() - j,
        {
            j = j + 1;
        }
        if j == n.len() {
            assert(h@.subrange(i as int, i + n.len()) =~= n@);
            return true;
        }
        assert(h@.subrange(i as int, i + n.len())[j as int] != n@[j as int]);
        i = i + 1;
    }
    proof {
        assert forall|k: int|
            0 <= k && k + needle@.len() <= hay@.len() implies #[trigger] hay@.subrange(
            k,
            k + needle@.len(),
        ) != needle@ by {
            assert(k < i);
        }
    }
    false
}

/// The decimal digits of `n`, most significant first, without leading zeros.
pub open spec fn digits_of(n: nat) -> Seq<char>
    decreases n,
{
    if n < 10 {
        seq![digit_char(n)]
    } else {
        digits_of(n / 10).push(digit_char(n % 10))
    }
}

/// Decimal text of the integer with sign `neg` and magnitude `mag`, as `{}` prints it.
pub open spec fn signed_text(neg: bool, mag: nat) -> Seq<char> {
    if neg && mag != 0 {
        seq!['-'] + digits_of(mag)
    } else {
        digits_of(mag)
    }
}

/// Decimal text padded with zeros to at least two characters, as `{:02}` prints it.
pub open spec fn padded_text(neg: bool, mag: nat) -> Seq<char> {
    if !(neg && mag != 0) && mag < 10 {
        seq!['0'] + digits_of(mag)
    } else {
        signed_text(neg, mag)
    }
}

/// Magnitude of a signed 64-bit value.
pub open spec fn magnitude(d: i64) -> nat {
    if d < 0 {
        (-d) as nat
    } else {
        d as nat
    }
}

/// Text of a duration of `d` seconds: `H:MM:SSs` from one hour up, `M:SSs` from one
/// minute up, `Ss` below. Hours, minutes and seconds are taken with truncating division,
/// so a negative duration carries its sign on each printed field.
pub open spec fn duration_text(d: i64) -> Seq<char> {
    let neg = d < 0;
    let a = magnitude(d);
    let h = a / 3600;
    let m = (a / 60) % 60;
    let s = a % 60;
    if h != 0 {
        signed_text(neg, h) + seq![':'] + padded_text(neg, m) + seq![':'] + padded_text(neg, s)
            + seq!['s']
    } else if m != 0 {
        signed_text(neg, m) + seq![':'] + padded_text(neg, s) + seq!['s']
    } else {
        signed_text(neg, s) + seq!['s']
    }
}

/// A one-character string holding the decimal digit `d`.
fn digit_str(d: u64) -> (r: &'static str)
    requires
        d < 10,
    ensures
        r@ == seq![digit_char(d as nat)],
{
    let all = "0123456789";
    proof {
        reveal_strlit("0123456789");
    }
    let r = all.substring_char(d as usize, (d + 1) as usize);
    assert(r@ =~= seq![digit_char(d as nat)]);
    r
}

/// Decimal digits of `n`.
pub fn digits(n: u64) -> (r: String)
    ensures
        r@ == digits_of(n as nat),
    decreases n,
{
    if n < 10 {
        String::from_str(digit_str(n))
    } else {
        let mut r = digits(n / 10);
        r.append(digit_str(n % 10));
        r
    }
}

/// Decimal text of the value with sign `neg` and magnitude `mag`.
fn signed_string(neg: bool, mag: u64) -> (r: String)
    ensures
        r@ == signed_text(neg, mag as nat),
{
    let d = digits(mag);
    if neg && mag != 0 {
        let r = String::from_str("-");
        proof {
            reveal_strlit("-");
        }
        let r = r.concat(d.as_str());
        assert(r@ =~= signed_text(neg, mag as nat));
        r
    } else {
        d
    }
}

/// Decimal text padded to two characters.
fn padded_string(neg: bool, mag: u64) -> (r: String)
    ensures
        r@ == padded_text(neg, mag as nat),
{
    if !(neg && mag != 0) && mag < 10 {
        let r = String::from_str("0");
        proof {
            reveal_strlit("0");
        }
        let r = r.concat(digits(mag).as_str());
        assert(r@ =~= padded_text(neg, mag as nat));
        r
    } else {
        signed_string(neg, mag)
    }
}

/// Renders a duration in seconds for display.
pub fn format_duration(duration: i64) -> (r: String)
    ensures
        r@ == duration_text(duration),
{
    let neg = duration < 0;
    let a: u64 = if duration < 0 {
        if duration == i64::MIN {
            9223372036854775808u64
        } else {
            (-duration) as u64
        }
    } else {
        duration as u64
    };
    assert(a as nat == magnitude(duration));
    let h = a / 3600;
    let m = (a / 60) % 60;
    let s = a % 60;
    proof {
        reveal_strlit(":");
        reveal_strlit("s");
    }
    let mut r: String;
    if h != 0 {
        r = signed_string(neg, h);
        r.append(":");
        r.append(padded_string(neg, m).as_str());
        r.append(":");
        r.append(padded_string(neg, s).as_str());
        r.append("s");
    } else if m != 0 {
        r = signed_string(neg, m);
        r.append(":");
        r.append(padded_string(neg, s).as_str());
        r.append("s");
    } else {
        r = signed_string(neg, s);
        r.append("s");
    }
    assert(r@ =~= duration_text(duration));
    r
}

} // verus!
