use std::num::ParseIntError;
use std::str::FromStr;
use std::time::Duration;
use vstd::prelude::*;
use vstd::string::{StrSliceExecFns, StringExecFns};

verus! {

#[verifier::external_type_specification]
#[verifier::external_body]
pub struct ExParseIntError(ParseIntError);

/// The length of a `Duration` in nanoseconds.
pub uninterp spec fn duration_nanos(d: Duration) -> nat;

/// The longest `Duration`, in nanoseconds.
pub open spec fn max_duration_nanos() -> nat {
    18_446_744_073_709_551_615 * 1_000_000_000 + 999_999_999
}

pub assume_specification[ Duration::from_secs ](secs: u64) -> (r: Duration)
    ensures
        duration_nanos(r) == secs * 1_000_000_000,
;

pub assume_specification[ Duration::from_millis ](millis: u64) -> (r: Duration)
    ensures
        duration_nanos(r) == millis * 1_000_000,
;

pub assume_specification[ Duration::checked_add ](a: Duration, b: Duration) -> (r: Option<Duration>)
    ensures
        r is Some <==> duration_nanos(a) + duration_nanos(b) <= max_duration_nanos(),
        r matches Some(c) ==> duration_nanos(c) == duration_nanos(a) + duration_nanos(b),
;

pub assume_specification[ Duration::as_secs ](d: &Duration) -> (r: u64)
    ensures
        r == duration_nanos(*d) / 1_000_000_000,
;

pub assume_specification[ Duration::as_millis ](d: &Duration) -> (r: u128)
    ensures
        r == duration_nanos(*d) / 1_000_000,
;

pub assume_specification[ Duration::subsec_millis ](d: &Duration) -> (r: u32)
    ensures
        r == (duration_nanos(*d) % 1_000_000_000) / 1_000_000,
;

/// What `str::to_lowercase` makes of a text.
pub uninterp spec fn lower_of(s: Seq<char>) -> Seq<char>;

/// Relies on `str::to_lowercase`: the result depends on the characters alone.
#[verifier::external_body]
fn lowercase(s: &str) -> (r: String)
    ensures
        r@ == lower_of(s@),
{
    s.to_lowercase()
}

pub open spec fn is_digit(c: char) -> bool {
    '0' <= c <= '9'
}

/// The value of a run of decimal digits.
pub open spec fn decimal_value(d: Seq<char>) -> nat
    decreases d.len(),
{
    if d.len() == 0 {
        0
    } else {
        decimal_value(d.drop_last()) * 10 + (d.last() as nat - '0' as nat) as nat
    }
}

/// Relies on `u64::from_str`: a nonempty run of decimal digits reads as its
/// value when that fits in a `u64`, and is an error otherwise.
#[verifier::external_body]
pub(crate) fn parse_count(s: &str) -> (r: Result<u64, ParseIntError>)
    ensures
        (forall|i: int| 0 <= i < s@.len() ==> is_digit(#[trigger] s@[i])) ==> (r is Ok <==> (s@.len()
            > 0 && decimal_value(s@) <= u64::MAX)),
        (forall|i: int| 0 <= i < s@.len() ==> is_digit(#[trigger] s@[i])) ==> (r matches Ok(n)
            ==> n == decimal_value(s@)),
{
    u64::from_str(s)
}

/// The unit of a duration component.
#[derive(PartialEq, Eq, Debug, Clone, Copy, Structural)]
pub enum TimeUnit {
    Hours,
    Minutes,
    Seconds,
    Milliseconds,
}

/// The unit that a lower-case name stands for; no name means seconds.
pub open spec fn unit_named(s: Seq<char>) -> Option<TimeUnit> {
    if s == "h"@ || s == "hr"@ || s == "hrs"@ || s == "hours"@ {
        Some(TimeUnit::Hours)
    } else if s == "m"@ || s == "min"@ || s == "mins"@ || s == "minutes"@ {
        Some(TimeUnit::Minutes)
    } else if s == "s"@ || s == "sec"@ || s == "secs"@ || s == "seconds"@ || s.len() == 0 {
        Some(TimeUnit::Seconds)
    } else if s == "ms"@ || s == "milli"@ || s == "millis"@ || s == "milliseconds"@ {
        Some(TimeUnit::Milliseconds)
    } else {
        None
    }
}

/// Nanoseconds in one of `u`.
pub open spec fn unit_nanos(u: TimeUnit) -> nat {
    match u {
        TimeUnit::Hours => 3_600_000_000_000,
        TimeUnit::Minutes => 60_000_000_000,
        TimeUnit::Seconds => 1_000_000_000,
        TimeUnit::Milliseconds => 1_000_000,
    }
}

/// Whether `count` of `u` make a `Duration`.
pub open spec fn unit_fits(u: TimeUnit, count: nat) -> bool {
    count * unit_nanos(u) <= max_duration_nanos()
}

/// Whether `a` and `b` are the same text.
fn same_text(a: &str, b: &str) -> (r: bool)
    ensures
        r == (a@ == b@),
{
    let n = a.unicode_len();
    if n != b.unicode_len() {
        return false;
    }
    let mut i: usize = 0;
    while i < n
        invariant
            n == a@.len(),
            n == b@.len(),
            i <= n,
            forall|j: int| 0 <= j < i ==> a@[j] == b@[j],
        decreases n - i,
    {
        if a.get_char(i) != b.get_char(i) {
            return false;
        }
        i = i + 1;
    }
    assert(a@ =~= b@);
    true
}

impl TimeUnit {
    /// Reads a unit name, in any case.
    pub fn parse(s: &str) -> (r: Option<TimeUnit>)
        ensures
            r == unit_named(lower_of(s@)),
    {
        let lowered = lowercase(s);
        TimeUnit::from_lower(lowered.as_str())
    }

    /// Reads a unit name that is in lower case already.
    pub fn from_lower(t: &str) -> (r: Option<TimeUnit>)
        ensures
            r == unit_named(t@),
    {
        if same_text(t, "h") || same_text(t, "hr") || same_text(t, "hrs") || same_text(t, "hours") {
            Some(TimeUnit::Hours)
        } else if same_text(t, "m") || same_text(t, "min") || same_text(t, "mins") || same_text(t, "minutes") {
            Some(TimeUnit::Minutes)
        } else if same_text(t, "s") || same_text(t, "sec") || same_text(t, "secs") || same_text(t, "seconds")
            || t.unicode_len() == 0 {
            Some(TimeUnit::Seconds)
        } else if same_text(t, "ms") || same_text(t, "milli") || same_text(t, "millis") || same_text(
            t,
            "milliseconds",
        ) {
            Some(TimeUnit::Milliseconds)
        } else {
            None
        }
    }

    /// `count` of this unit.
    pub fn to_duration(&self, count: u64) -> (r: Duration)
        requires
            unit_fits(*self, count as nat),
        ensures
            duration_nanos(r) == count * unit_nanos(*self),
    {
        match self {
            TimeUnit::Hours => Duration::from_secs(count * 3600),
            TimeUnit::Minutes => Duration::from_secs(count * 60),
            TimeUnit::Seconds => Duration::from_secs(count),
            TimeUnit::Milliseconds => Duration::from_millis(count),
        }
    }
}

/// The number of decimal digits that `s` starts with.
pub open spec fn digit_count(s: Seq<char>) -> nat
    decreases s.len(),
{
    if s.len() > 0 && is_digit(s[0]) {
        1 + digit_count(s.drop_first())
    } else {
        0
    }
}

/// The count of a duration component: its leading digits.
pub open spec fn count_text(s: Seq<char>) -> Seq<char> {
    s.subrange(0, digit_count(s) as int)
}

/// The unit name of a duration component: what follows its leading digits.
pub open spec fn unit_text(s: Seq<char>) -> Seq<char> {
    s.subrange(digit_count(s) as int, s.len() as int)
}

/// Whether the count of a component reads as a `u64`.
pub open spec fn count_ok(s: Seq<char>) -> bool {
    digit_count(s) > 0 && decimal_value(count_text(s)) <= u64::MAX
}

pub open spec fn component_unit(s: Seq<char>) -> Option<TimeUnit> {
    unit_named(lower_of(unit_text(s)))
}

/// The length in nanoseconds that a component stands for, if it reads as
/// a count and a unit.
pub open spec fn component_nanos(s: Seq<char>) -> Option<nat> {
    if count_ok(s) {
        match component_unit(s) {
            Some(u) => Some(decimal_value(count_text(s)) * unit_nanos(u)),
            None => None,
        }
    } else {
        None
    }
}

/// Whether a component that reads as a count and a unit makes a `Duration`.
pub open spec fn fits_duration(s: Seq<char>) -> bool {
    component_nanos(s) matches Some(n) ==> n <= max_duration_nanos()
}

pub(crate) proof fn lemma_digit_count(s: Seq<char>, k: int)
    requires
        0 <= k <= s.len(),
        forall|j: int| 0 <= j < k ==> is_digit(#[trigger] s[j]),
        k == s.len() || !is_digit(s[k]),
    ensures
        digit_count(s) == k,
    decreases k,
{
    if k > 0 {
        let t = s.drop_first();
        assert forall|j: int| 0 <= j < k - 1 implies is_digit(#[trigger] t[j]) by {
            assert(t[j] == s[j + 1]);
        }
        if k < s.len() {
            assert(t[k - 1] == s[k]);
        }
        lemma_digit_count(t, k - 1);
    }
}

/// Splits a component into its leading digits and the rest.
pub(crate) fn split_component(component: &str) -> (r: (&str, &str))
    ensures
        r.0@ == count_text(component@),
        r.1@ == unit_text(component@),
        forall|i: int| 0 <= i < r.0@.len() ==> is_digit(#[trigger] r.0@[i]),
        digit_count(component@) <= component@.len(),
{
    let n = component.unicode_len();
    let mut k: usize = 0;
    while k < n
        invariant
            n == component@.len(),
            k <= n,
            forall|j: int| 0 <= j < k ==> is_digit(#[trigger] component@[j]),
        ensures
            k <= n,
            forall|j: int| 0 <= j < k ==> is_digit(#[trigger] component@[j]),
            k == n || !is_digit(component@[k as int]),
        decreases n - k,
    {
        let c = component.get_char(k);
        if !('0' <= c && c <= '9') {
            break;
        }
        k = k + 1;
    }
    proof {
        lemma_digit_count(component@, k as int);
    }
    (component.substring_char(0, k), component.substring_char(k, n))
}

/// Why a duration component was refused.
#[derive(Debug, PartialEq)]
pub enum ParseDurationComponentError {
    /// The leading digits are missing or do not fit in a `u64`.
    BadCount(ParseIntError),
    /// The text after the digits names no unit.
    BadUnit,
}

/// Reads one duration component: a count of decimal digits followed by a
/// unit name in any case (`h`, `hr`, `hrs`, `hours`, `m`, `min`, `mins`,
/// `minutes`, `s`, `sec`, `secs`, `seconds`, `ms`, `milli`, `millis`,
/// `milliseconds`), or by nothing for seconds.
pub fn parse_duration_component(component: &str) -> (r: Result<Duration, ParseDurationComponentError>)
    requires
        fits_duration(component@),
    ensures
        match r {
            Ok(d) => component_nanos(component@) == Some(duration_nanos(d)),
            Err(ParseDurationComponentError::BadCount(_)) => !count_ok(component@),
            Err(ParseDurationComponentError::BadUnit) => count_ok(component@) && component_unit(component@) is None,
        },
{
    let (count_str, unit_str) = split_component(component);
    let count = match parse_count(count_str) {
        Ok(n) => n,
        Err(e) => return Err(ParseDurationComponentError::BadCount(e)),
    };
    let unit = match TimeUnit::parse(unit_str) {
        Some(u) => u,
        None => return Err(ParseDurationComponentError::BadUnit),
    };
    Ok(unit.to_duration(count))
}

/// Whether a component that reads as a count and a unit makes a `Duration`;
/// [`parse_duration_component`] may be called exactly on those that do.
pub fn component_fits(component: &str) -> (r: bool)
    ensures
        r == fits_duration(component@),
{
    let (count_str, unit_str) = split_component(component);
    let count = match parse_count(count_str) {
        Ok(n) => n,
        Err(_) => return true,
    };
    match TimeUnit::parse(unit_str) {
        Some(TimeUnit::Hours) => count <= u64::MAX / 3600,
        Some(TimeUnit::Minutes) => count <= u64::MAX / 60,
        _ => true,
    }
}

/// The total length in nanoseconds of a list of components, if every one
/// of them reads as a count and a unit.
pub open spec fn total_nanos(parts: Seq<String>) -> Option<nat>
    decreases parts.len(),
{
    if parts.len() == 0 {
        Some(0)
    } else {
        match (total_nanos(parts.drop_last()), component_nanos(parts.last()@)) {
            (Some(a), Some(b)) => Some(a + b),
            _ => None,
        }
    }
}

proof fn lemma_total_prefix(parts: Seq<String>, i: int)
    requires
        0 <= i <= parts.len(),
    ensures
        total_nanos(parts) matches Some(t) ==> total_nanos(parts.subrange(0, i)) matches Some(p) && p <= t,
    decreases parts.len(),
{
    if i < parts.len() {
        lemma_total_prefix(parts.drop_last(), i);
        assert(parts.drop_last().subrange(0, i) =~= parts.subrange(0, i));
    } else {
        assert(parts.subrange(0, i) =~= parts);
    }
}

/// Adds up duration components, such as `1m` and `30s`. `None` when one of
/// them does not read as a count and a unit, or when the total is longer
/// than a `Duration` can hold.
pub fn parse_duration_from_components(components: &[String]) -> (r: Option<Duration>)
    ensures
        r is Some <==> (total_nanos(components@) matches Some(t) && t <= max_duration_nanos()),
        r matches Some(d) ==> total_nanos(components@) == Some(duration_nanos(d)),
{
    let mut total = Duration::from_secs(0);
    let mut i: usize = 0;
    while i < components.len()
        invariant
            i <= components@.len(),
            total_nanos(components@.subrange(0, i as int)) == Some(duration_nanos(total)),
            duration_nanos(total) <= max_duration_nanos(),
        decreases components@.len() - i,
    {
        let c = components[i].as_str();
        proof {
            lemma_total_prefix(components@, i + 1);
            assert(components@.subrange(0, i + 1).drop_last() =~= components@.subrange(0, i as int));
            assert(components@.subrange(0, i + 1).last() == components@[i as int]);
        }
        if !component_fits(c) {
            return None;
        }
        let d = match parse_duration_component(c) {
            Ok(d) => d,
            Err(_) => return None,
        };
        total = match total.checked_add(d) {
            Some(t) => t,
            None => return None,
        };
        i = i + 1;
    }
    assert(components@.subrange(0, i as int) =~= components@);
    Some(total)
}

pub open spec fn digit_char(d: nat) -> char {
    if d == 0 {
        '0'
    } else if d == 1 {
        '1'
    } else if d == 2 {
        '2'
    } else if d == 3 {
        '3'
    } else if d == 4 {
        '4'
    } else if d == 5 {
        '5'
    } else if d == 6 {
        '6'
    } else if d == 7 {
        '7'
    } else if d == 8 {
        '8'
    } else {
        '9'
    }
}

/// The decimal digits of `n`, without leading zeros.
pub open spec fn decimal(n: nat) -> Seq<char>
    decreases n,
{
    if n < 10 {
        seq![digit_char(n)]
    } else {
        decimal(n / 10).push(digit_char(n % 10))
    }
}

/// The decimal digits of `n`, with zeros in front up to `width` characters.
pub open spec fn zero_padded(n: nat, width: nat) -> Seq<char> {
    let d = decimal(n);
    if d.len() < width {
        Seq::new((width - d.len()) as nat, |i: int| '0') + d
    } else {
        d
    }
}

/// Relies on `format!` with a zero-filled width: the decimal digits of `n`,
/// with zeros in front up to `width` characters.
#[verifier::external_body]
pub(crate) fn decimal_padded(n: u64, width: usize) -> (r: String)
    ensures
        r@ == zero_padded(n as nat, width as nat),
{
    format!("{:0width$}", n, width = width)
}

/// `hh:mm:ss:mmm` for a length of `nanos` nanoseconds; the hours grow past
/// two digits when they need to.
pub open spec fn colon_separated(nanos: nat) -> Seq<char> {
    let secs = nanos / 1_000_000_000;
    zero_padded(secs / 3600, 2) + ":"@ + zero_padded((secs % 3600) / 60, 2) + ":"@ + zero_padded(
        secs % 60,
        2,
    ) + ":"@ + zero_padded((nanos % 1_000_000_000) / 1_000_000, 3)
}

/// Display helpers for lengths of time.
pub trait DurationExt {
    spec fn colon_separated_spec(&self) -> Seq<char>;

    /// Hours, minutes, seconds and milliseconds, as `hh:mm:ss:mmm`.
    fn format_colon_separated(&self) -> (r: String)
        ensures
            r@ == self.colon_separated_spec(),
    ;
}

impl DurationExt for Duration {
    open spec fn colon_separated_spec(&self) -> Seq<char> {
        colon_separated(duration_nanos(*self))
    }

    fn format_colon_separated(&self) -> (r: String) {
        let total_seconds = self.as_secs();
        let hours = total_seconds / 3600;
        let minutes = (total_seconds % 3600) / 60;
        let seconds = total_seconds % 60;
        let millis = self.subsec_millis();
        let out = decimal_padded(hours, 2).concat(":");
        let out = out.concat(decimal_padded(minutes, 2).as_str()).concat(":");
        let out = out.concat(decimal_padded(seconds, 2).as_str()).concat(":");
        out.concat(decimal_padded(millis as u64, 3).as_str())
    }
}

/// Relies on the `Display` of `ParseIntError`: a sentence on why digits did
/// not read as a number.
#[verifier::external_body]
fn int_error_text(e: &ParseIntError) -> String {
    e.to_string()
}

impl ParseDurationComponentError {
    /// A sentence for the user on what is wrong with the component.
    pub fn to_string(&self) -> (r: String)
        ensures
            self is BadUnit ==> r@ == "invalid unit"@,
            self is BadCount ==> r@.len() >= "failed to parse count: "@.len() && r@.subrange(
                0,
                "failed to parse count: "@.len() as int,
            ) == "failed to parse count: "@,
    {
        match self {
            ParseDurationComponentError::BadCount(e) => {
                let out = "failed to parse count: ".to_owned().concat(int_error_text(e).as_str());
                proof {
                    assert(out@.subrange(0, "failed to parse count: "@.len() as int) =~= "failed to parse count: "@);
                }
                out
            },
            ParseDurationComponentError::BadUnit => "invalid unit".to_owned(),
        }
    }

    /// The error that caused this one, if any.
    pub fn source(&self) -> (r: Option<&ParseIntError>)
        ensures
            self matches ParseDurationComponentError::BadCount(e) ==> r == Some(e),
            self is BadUnit ==> r is None,
    {
        match self {
            ParseDurationComponentError::BadCount(e) => Some(e),
            ParseDurationComponentError::BadUnit => None,
        }
    }
}

} // verus!
