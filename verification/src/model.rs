//! The shared data model: decimal quantities, gauge readings, flood stage
//! thresholds and the errors of the gauge service.

use crate::text::{
    append_decimal, chars_of, decimal_text, digit_char, digit_str, find_from, first_at,
    lemma_first_at_bounds,
};
use vstd::prelude::*;

verus! {

/// Parameter code of discharge (streamflow), in cubic feet per second.
pub const PARAM_DISCHARGE: &'static str = "00060";

/// Parameter code of gage height (stage), in feet.
pub const PARAM_STAGE: &'static str = "00065";

/// Millionths in one unit of a [`Decimal`].
pub const MICROS_PER_UNIT: i64 = 1_000_000;

/// A decimal number held exactly, as a whole count of millionths.
///
/// Measured values, thresholds and coordinates are all of this type, so that
/// comparing two of them is comparing two integers.
#[derive(Debug, Clone, Copy, PartialEq, Eq, PartialOrd, Ord, Hash, Structural)]
pub struct Decimal {
    pub micros: i64,
}

impl View for Decimal {
    type V = int;

    open spec fn view(&self) -> int {
        self.micros as int
    }
}

/// `micros` millionths rounded to the nearest hundredth; a tie goes away
/// from zero. The result counts hundredths.
pub open spec fn hundredths(micros: int) -> int {
    if micros >= 0 {
        (micros + 5_000) / 10_000
    } else {
        -((5_000 - micros) / 10_000)
    }
}

/// A count of hundredths written with two decimal places, such as `-3.07`.
pub open spec fn hundredths_text(h: int) -> Seq<char> {
    let mag = if h < 0 {
        -h
    } else {
        h
    };
    let sign = if h < 0 {
        seq!['-']
    } else {
        Seq::<char>::empty()
    };
    sign + decimal_text((mag / 100) as nat) + seq!['.', digit_char((mag % 100) / 10), digit_char(mag % 10)]
}

/// `micros` millionths written with two decimal places.
pub open spec fn two_places_text(micros: int) -> Seq<char> {
    hundredths_text(hundredths(micros))
}

impl Decimal {
    /// The number that is `micros` millionths.
    pub fn from_micros(micros: i64) -> (r: Decimal)
        ensures
            r@ == micros,
    {
        Decimal { micros }
    }

    /// The whole number `units`.
    pub fn from_units(units: i32) -> (r: Decimal)
        ensures
            r@ == units * 1_000_000,
    {
        Decimal { micros: (units as i64) * MICROS_PER_UNIT }
    }

    /// Appends the number to `out`, rounded to two decimal places.
    pub fn append_two_places(&self, out: &mut String)
        ensures
            final(out)@ == old(out)@ + two_places_text(self@),
    {
        let negative = self.micros < 0;
        let mag: u64 = if negative {
            (5_000 - (self.micros as i128)) as u64 / 10_000
        } else {
            ((self.micros as u64) + 5_000) / 10_000
        };
        assert(mag == if hundredths(self@) < 0 {
            -hundredths(self@)
        } else {
            hundredths(self@)
        });
        if negative && mag > 0 {
            proof {
                reveal_strlit("-");
            }
            out.append("-");
        }
        append_decimal(out, mag / 100);
        proof {
            reveal_strlit(".");
        }
        out.append(".");
        out.append(digit_str((mag % 100) / 10));
        out.append(digit_str(mag % 10));
        assert(out@ =~= old(out)@ + two_places_text(self@));
    }

    /// The number rounded to two decimal places, as text.
    pub fn to_two_places(&self) -> (r: String)
        ensures
            r@ == two_places_text(self@),
    {
        let mut out = String::new();
        self.append_two_places(&mut out);
        assert(out@ =~= two_places_text(self@));
        out
    }
}

/// One instantaneous measurement of a gauge station.
#[derive(Debug, PartialEq)]
pub struct GaugeReading {
    pub site_code: String,
    pub site_name: String,
    pub parameter_code: String,
    pub unit: String,
    pub value: Decimal,
    /// An offset-aware instant in RFC 3339 form, such as
    /// `2024-05-01T12:00:00.000-05:00`.
    pub datetime: String,
    /// `P` for provisional, `A` for approved.
    pub qualifier: String,
}

/// What a [`GaugeReading`] holds, as mathematical values.
pub struct GaugeReadingView {
    pub site_code: Seq<char>,
    pub site_name: Seq<char>,
    pub parameter_code: Seq<char>,
    pub unit: Seq<char>,
    pub value: int,
    pub datetime: Seq<char>,
    pub qualifier: Seq<char>,
}

impl View for GaugeReading {
    type V = GaugeReadingView;

    open spec fn view(&self) -> GaugeReadingView {
        GaugeReadingView {
            site_code: self.site_code@,
            site_name: self.site_name@,
            parameter_code: self.parameter_code@,
            unit: self.unit@,
            value: self.value@,
            datetime: self.datetime@,
            qualifier: self.qualifier@,
        }
    }
}

impl Clone for GaugeReading {
    fn clone(&self) -> (r: Self)
        ensures
            r@ == self@,
    {
        GaugeReading {
            site_code: self.site_code.clone(),
            site_name: self.site_name.clone(),
            parameter_code: self.parameter_code.clone(),
            unit: self.unit.clone(),
            value: self.value,
            datetime: self.datetime.clone(),
            qualifier: self.qualifier.clone(),
        }
    }
}

/// Mathematical form of an optional reading.
pub open spec fn reading_view(r: Option<GaugeReading>) -> Option<GaugeReadingView> {
    match r {
        Some(x) => Some(x@),
        None => None,
    }
}

/// The readings of one site, by parameter. A field is `None` where the site
/// does not report that parameter or no reading was to be had.
#[derive(Debug, PartialEq)]
pub struct SiteReadings {
    pub site_code: String,
    pub discharge_cfs: Option<GaugeReading>,
    pub stage_ft: Option<GaugeReading>,
}

/// What a [`SiteReadings`] holds, as mathematical values.
pub struct SiteReadingsView {
    pub site_code: Seq<char>,
    pub discharge_cfs: Option<GaugeReadingView>,
    pub stage_ft: Option<GaugeReadingView>,
}

impl View for SiteReadings {
    type V = SiteReadingsView;

    open spec fn view(&self) -> SiteReadingsView {
        SiteReadingsView {
            site_code: self.site_code@,
            discharge_cfs: reading_view(self.discharge_cfs),
            stage_ft: reading_view(self.stage_ft),
        }
    }
}

impl Clone for SiteReadings {
    fn clone(&self) -> (r: Self)
        ensures
            r@ == self@,
    {
        let discharge_cfs = match &self.discharge_cfs {
            Some(x) => Some(x.clone()),
            None => None,
        };
        let stage_ft = match &self.stage_ft {
            Some(x) => Some(x.clone()),
            None => None,
        };
        SiteReadings { site_code: self.site_code.clone(), discharge_cfs, stage_ft }
    }
}

/// The four flood stages of a gauge station, in feet.
///
/// A station's stages are meant to rise: action, flood, moderate, major.
#[derive(Debug, Clone, Copy, PartialEq, Eq, Structural)]
pub struct FloodThresholds {
    pub action_stage_ft: Decimal,
    pub flood_stage_ft: Decimal,
    pub moderate_flood_stage_ft: Decimal,
    pub major_flood_stage_ft: Decimal,
}

/// The four stages as integers (millionths of a foot).
pub struct ThresholdsView {
    pub action: int,
    pub flood: int,
    pub moderate: int,
    pub major: int,
}

impl ThresholdsView {
    /// Each stage lies strictly above the one before it.
    pub open spec fn ascending(self) -> bool {
        self.action < self.flood < self.moderate < self.major
    }
}

impl View for FloodThresholds {
    type V = ThresholdsView;

    open spec fn view(&self) -> ThresholdsView {
        ThresholdsView {
            action: self.action_stage_ft@,
            flood: self.flood_stage_ft@,
            moderate: self.moderate_flood_stage_ft@,
            major: self.major_flood_stage_ft@,
        }
    }
}

impl FloodThresholds {
    /// Whether each stage lies strictly above the one before it.
    pub fn is_ascending(&self) -> (r: bool)
        ensures
            r == self@.ascending(),
    {
        self.action_stage_ft.micros < self.flood_stage_ft.micros && self.flood_stage_ft.micros
            < self.moderate_flood_stage_ft.micros && self.moderate_flood_stage_ft.micros
            < self.major_flood_stage_ft.micros
    }
}

/// What can go wrong when gauge data is fetched or read.
#[derive(Debug, PartialEq)]
pub enum NwisError {
    /// The service answered with a status other than 2xx.
    HttpError(u16),
    /// The response body could not be read as data.
    ParseError(String),
    /// The response holds nothing for the site that was asked for.
    SiteNotFound(String),
    /// The site is there but holds no usable value.
    NoDataAvailable(String),
    /// The newest reading is older than the freshness limit.
    StaleData { site: String, age_minutes: u64 },
}

impl NwisError {
    /// The error as a line of text.
    pub open spec fn text(&self) -> Seq<char> {
        match self {
            NwisError::HttpError(code) => "HTTP error: "@ + decimal_text(*code as nat),
            NwisError::ParseError(msg) => "Parse error: "@ + msg@,
            NwisError::SiteNotFound(site) => "Site not found: "@ + site@,
            NwisError::NoDataAvailable(site) => "No data available for site: "@ + site@,
            NwisError::StaleData { site, age_minutes } => "Stale data for site "@ + site@ + ": "@
                + decimal_text(*age_minutes as nat) + " minutes old"@,
        }
    }

    /// The error as a line of text.
    pub fn to_string(&self) -> (r: String)
        ensures
            r@ == self.text(),
    {
        match self {
            NwisError::HttpError(code) => {
                let mut out = String::from_str("HTTP error: ");
                append_decimal(&mut out, *code as u64);
                out
            },
            NwisError::ParseError(msg) => {
                let mut out = String::from_str("Parse error: ");
                out.append(msg.as_str());
                out
            },
            NwisError::SiteNotFound(site) => {
                let mut out = String::from_str("Site not found: ");
                out.append(site.as_str());
                out
            },
            NwisError::NoDataAvailable(site) => {
                let mut out = String::from_str("No data available for site: ");
                out.append(site.as_str());
                out
            },
            NwisError::StaleData { site, age_minutes } => {
                let mut out = String::from_str("Stale data for site ");
                out.append(site.as_str());
                out.append(": ");
                append_decimal(&mut out, *age_minutes);
                out.append(" minutes old");
                out
            },
        }
    }
}


/// Mathematical form of an optional number.
pub open spec fn number_view(d: Option<Decimal>) -> Option<int> {
    match d {
        Some(x) => Some(x@),
        None => None,
    }
}

/// The digit that `c` stands for, if it is one of `0` to `9`.
pub open spec fn digit_of(c: char) -> Option<int> {
    let u = c as u32;
    if 0x30 <= u <= 0x39 {
        Some(u - 0x30)
    } else {
        None
    }
}

/// Every character of `s` is a digit.
pub open spec fn all_digits(s: Seq<char>) -> bool {
    forall|i: int| 0 <= i < s.len() ==> digit_of(#[trigger] s[i]) is Some
}

/// The digit at place `i` of `s`; 0 where there is none.
pub open spec fn digit_at(s: Seq<char>, i: int) -> int {
    if 0 <= i < s.len() && digit_of(s[i]) is Some {
        digit_of(s[i])->0
    } else {
        0
    }
}

/// The number that the digits `s` write.
pub open spec fn digits_value(s: Seq<char>) -> int
    decreases s.len(),
{
    if s.len() == 0 {
        0
    } else {
        digits_value(s.drop_last()) * 10 + digit_at(s, s.len() - 1)
    }
}

/// The millionths that the digits `frac` behind a decimal point stand for:
/// the first six digits count, and a seventh digit of 5 or more adds one
/// millionth.
pub open spec fn fraction_micros(frac: Seq<char>) -> int {
    digit_at(frac, 0) * 100_000 + digit_at(frac, 1) * 10_000 + digit_at(frac, 2) * 1_000
        + digit_at(frac, 3) * 100 + digit_at(frac, 4) * 10 + digit_at(frac, 5) + (if digit_at(
        frac,
        6,
    ) >= 5 {
        1int
    } else {
        0int
    })
}

/// The size of the number that `body` writes without a sign, in
/// millionths: digits, and optionally a point and more digits, with at least
/// one digit in all. `None` where `body` is not of that form.
pub open spec fn magnitude_micros(body: Seq<char>) -> Option<int> {
    let dot = first_at(body, '.');
    let whole = body.take(dot);
    let frac = if dot < body.len() {
        body.skip(dot + 1)
    } else {
        Seq::empty()
    };
    if !all_digits(whole) || !all_digits(frac) || whole.len() + frac.len() == 0 {
        None
    } else {
        Some(digits_value(whole) * 1_000_000 + fraction_micros(frac))
    }
}

/// The number that `text` writes, in millionths.
///
/// A number is an optional sign, digits, and optionally a point and more
/// digits, with at least one digit in all: `12`, `-0.25`, `+3.`, `.5`.
/// Digits beyond the sixth behind the point round the number to the nearest
/// millionth, a tie away from zero. Anything else is no number, and so is a
/// number beyond what a [`Decimal`] can hold.
pub open spec fn decimal_micros(text: Seq<char>) -> Option<int> {
    let signed = text.len() > 0 && (text[0] == '-' || text[0] == '+');
    let negative = text.len() > 0 && text[0] == '-';
    let body = if signed {
        text.skip(1)
    } else {
        text
    };
    match magnitude_micros(body) {
        Some(magnitude) => {
            let value = if negative {
                -magnitude
            } else {
                magnitude
            };
            if i64::MIN <= value <= i64::MAX {
                Some(value)
            } else {
                None
            }
        },
        None => None,
    }
}

/// `n`, or `cap` where `n` is beyond it.
pub open spec fn at_most(n: int, cap: int) -> int {
    if n > cap {
        cap
    } else {
        n
    }
}

/// The digit that `c` stands for, if it is one.
pub fn digit_value(c: char) -> (r: Option<u8>)
    ensures
        match r {
            Some(d) => digit_of(c) == Some(d as int),
            None => digit_of(c) is None,
        },
{
    let u: u32 = c as u32;
    if 0x30 <= u && u <= 0x39 {
        Some((u - 0x30) as u8)
    } else {
        None
    }
}

/// The digit at place `i` among the characters from `a` to `b`; 0 where
/// there is none.
fn digit_in(chars: &Vec<char>, a: usize, b: usize, i: usize) -> (r: i128)
    requires
        a <= b <= chars.len(),
    ensures
        r == digit_at(chars@.subrange(a as int, b as int), i as int),
        0 <= r <= 9,
{
    if i < b - a {
        match digit_value(chars[a + i]) {
            Some(d) => d as i128,
            None => 0,
        }
    } else {
        0
    }
}

/// Whether the characters from `a` to `b` are all digits, and the number
/// that they write, capped at `9_223_372_036_855`.
fn digits_in(chars: &Vec<char>, a: usize, b: usize) -> (r: Option<i128>)
    requires
        a <= b <= chars.len(),
    ensures
        r is Some <==> all_digits(chars@.subrange(a as int, b as int)),
        r matches Some(v) ==> v == at_most(
            digits_value(chars@.subrange(a as int, b as int)),
            9_223_372_036_855,
        ) && v >= 0,
{
    let ghost part = chars@.subrange(a as int, b as int);
    let mut acc: i128 = 0;
    let mut i: usize = a;
    assert(part.take(0) =~= Seq::<char>::empty());
    while i < b
        invariant
            a <= i <= b <= chars.len(),
            part == chars@.subrange(a as int, b as int),
            forall|j: int| 0 <= j < i - a ==> digit_of(#[trigger] part[j]) is Some,
            acc == at_most(digits_value(part.take(i - a)), 9_223_372_036_855),
            digits_value(part.take(i - a)) >= 0,
            0 <= acc <= 9_223_372_036_855,
        decreases b - i,
    {
        assert(part[i - a] == chars@[i as int]);
        match digit_value(chars[i]) {
            Some(d) => {
                proof {
                    let next = part.take(i - a + 1);
                    assert(next.drop_last() =~= part.take(i - a));
                    assert(next[next.len() - 1] == part[i - a]);
                }
                acc = acc * 10 + (d as i128);
                if acc > 9_223_372_036_855 {
                    acc = 9_223_372_036_855;
                }
            },
            None => {
                return None;
            },
        }
        i += 1;
    }
    assert(part.take(i - a) =~= part);
    Some(acc)
}

/// The millionths that the characters from `a` to `b` stand for as digits
/// behind a decimal point.
fn fraction_in(chars: &Vec<char>, a: usize, b: usize) -> (r: i128)
    requires
        a <= b <= chars.len(),
    ensures
        r == fraction_micros(chars@.subrange(a as int, b as int)),
        0 <= r <= 1_000_000,
{
    let d0 = digit_in(chars, a, b, 0);
    let d1 = digit_in(chars, a, b, 1);
    let d2 = digit_in(chars, a, b, 2);
    let d3 = digit_in(chars, a, b, 3);
    let d4 = digit_in(chars, a, b, 4);
    let d5 = digit_in(chars, a, b, 5);
    let d6 = digit_in(chars, a, b, 6);
    let round: i128 = if d6 >= 5 {
        1
    } else {
        0
    };
    d0 * 100_000 + d1 * 10_000 + d2 * 1_000 + d3 * 100 + d4 * 10 + d5 + round
}

/// The size of the number that the characters from `a` to `b` write without
/// a sign, in millionths and capped at `9_223_372_036_855_000_000`.
fn magnitude_in(chars: &Vec<char>, a: usize, b: usize) -> (r: Option<i128>)
    requires
        a <= b <= chars.len(),
    ensures
        r is Some <==> magnitude_micros(chars@.subrange(a as int, b as int)) is Some,
        r matches Some(v) ==> v == at_most(
            magnitude_micros(chars@.subrange(a as int, b as int))->0,
            9_223_372_036_855_000_000,
        ) && v >= 0,
{
    let ghost body = chars@.subrange(a as int, b as int);
    proof {
        lemma_first_at_bounds(body, '.');
    }
    let dot = find_from(chars, a, b, '.');
    let frac_start: usize = if dot < b {
        dot + 1
    } else {
        b
    };
    proof {
        assert(body.take(dot - a) =~= chars@.subrange(a as int, dot as int));
        if dot < b {
            assert(body.skip(dot - a + 1) =~= chars@.subrange(frac_start as int, b as int));
        } else {
            assert(chars@.subrange(frac_start as int, b as int) =~= Seq::<char>::empty());
        }
    }
    let whole_value = match digits_in(chars, a, dot) {
        Some(v) => v,
        None => {
            return None;
        },
    };
    match digits_in(chars, frac_start, b) {
        Some(_) => {},
        None => {
            return None;
        },
    }
    if (dot - a) + (b - frac_start) == 0 {
        return None;
    }
    if whole_value >= 9_223_372_036_855 {
        return Some(9_223_372_036_855_000_000);
    }
    let frac_value = fraction_in(chars, frac_start, b);
    Some(whole_value * 1_000_000 + frac_value)
}

/// The number of the given sign and size, where a [`Decimal`] can hold it.
fn signed_decimal(negative: bool, magnitude: i128) -> (r: Option<Decimal>)
    requires
        0 <= magnitude <= 9_223_372_036_855_000_000,
    ensures
        number_view(r) == (if i64::MIN <= (if negative {
            -magnitude
        } else {
            magnitude as int
        }) <= i64::MAX {
            Some(
                if negative {
                    -magnitude
                } else {
                    magnitude as int
                },
            )
        } else {
            None
        }),
{
    let value: i128 = if negative {
        -magnitude
    } else {
        magnitude
    };
    if value < (i64::MIN as i128) || value > (i64::MAX as i128) {
        None
    } else {
        Some(Decimal { micros: value as i64 })
    }
}

/// The number that the characters from `a` to `b` write.
pub fn parse_decimal_range(chars: &Vec<char>, a: usize, b: usize) -> (r: Option<Decimal>)
    requires
        a <= b <= chars.len(),
    ensures
        number_view(r) == decimal_micros(chars@.subrange(a as int, b as int)),
{
    let ghost text = chars@.subrange(a as int, b as int);
    let signed = a < b && (chars[a] == '-' || chars[a] == '+');
    let negative = a < b && chars[a] == '-';
    let start: usize = if signed {
        a + 1
    } else {
        a
    };
    proof {
        if a < b {
            assert(text[0] == chars@[a as int]);
        }
        if signed {
            assert(text.skip(1) =~= chars@.subrange(start as int, b as int));
        } else {
            assert(text =~= chars@.subrange(start as int, b as int));
        }
    }
    match magnitude_in(chars, start, b) {
        Some(magnitude) => signed_decimal(negative, magnitude),
        None => None,
    }
}

impl Decimal {
    /// The number that `text` writes, such as `12`, `-0.25` or `.5`; `None`
    /// where it writes none. See [`decimal_micros`].
    pub fn parse(text: &str) -> (r: Option<Decimal>)
        ensures
            number_view(r) == decimal_micros(text@),
    {
        let chars = chars_of(text);
        assert(chars@.subrange(0, chars@.len() as int) =~= text@);
        parse_decimal_range(&chars, 0, chars.len())
    }
}

} // verus!
