//! Weather station observations and the rain that they add up to.

use crate::model::{decimal_micros, number_view, parse_decimal_range, Decimal};
use crate::text::{
    chars_of, find_from, first_at, range_is, ranges_text, ranges_within, split_on, split_ranges,
    trim_range, trimmed,
};
use crate::time::{instant_of, minute_of, Timestamp};
use vstd::prelude::*;

verus! {

/// Mathematical form of an optional owned string.
pub open spec fn string_view(s: Option<String>) -> Option<Seq<char>> {
    match s {
        Some(x) => Some(x@),
        None => None,
    }
}

/// One observation as the weather service sends it, with the service's own
/// field names in the comments.
#[derive(Debug, PartialEq)]
pub struct IemObservation {
    pub station: String,
    /// Time of the observation, in RFC 3339 form.
    pub valid: String,
    /// `tmpf`
    pub temp_f: Option<Decimal>,
    /// `dwpf`
    pub dewpoint_f: Option<Decimal>,
    /// `relh`
    pub relative_humidity: Option<Decimal>,
    /// Wind direction, in degrees.
    pub drct: Option<Decimal>,
    /// Wind speed, in knots.
    pub sknt: Option<Decimal>,
    /// `p01i`: precipitation of the last hour, in inches.
    pub precip_1hr_in: Option<Decimal>,
    /// Altimeter setting, in inches of mercury.
    pub alti: Option<Decimal>,
    /// `mslp`
    pub sea_level_pressure_mb: Option<Decimal>,
    /// Visibility, in miles.
    pub vsby: Option<Decimal>,
    /// `gust`
    pub wind_gust_knots: Option<Decimal>,
    /// Sky condition.
    pub skyc1: Option<String>,
    /// Weather codes such as `RA` and `SN`.
    pub wxcodes: Option<String>,
}

/// The answer of the weather service to a request for current conditions.
#[derive(Debug, PartialEq)]
pub struct IemCurrentResponse {
    pub data: Vec<IemObservation>,
}

/// One minute of weather data as the service sends it.
#[derive(Debug, PartialEq)]
pub struct IemAsosMinute {
    pub station: String,
    pub valid: String,
    /// `tmpf`
    pub temp_f: Option<Decimal>,
    /// `dwpf`
    pub dewpoint_f: Option<Decimal>,
    pub sknt: Option<Decimal>,
    pub drct: Option<Decimal>,
    /// `p01m`: precipitation of the minute, in inches.
    pub precip_1min_in: Option<Decimal>,
}

/// The answer of the weather service to a request for minute data.
#[derive(Debug, PartialEq)]
pub struct IemAsosMinuteResponse {
    pub data: Vec<IemAsosMinute>,
}

/// One observation of a weather station, ready to be stored.
#[derive(Debug, PartialEq)]
pub struct AsosObservation {
    pub station_id: String,
    pub timestamp: Timestamp,
    pub temp_f: Option<Decimal>,
    pub dewpoint_f: Option<Decimal>,
    pub relative_humidity: Option<Decimal>,
    pub wind_direction_deg: Option<Decimal>,
    pub wind_speed_knots: Option<Decimal>,
    pub wind_gust_knots: Option<Decimal>,
    pub precip_1hr_in: Option<Decimal>,
    pub pressure_mb: Option<Decimal>,
    pub visibility_mi: Option<Decimal>,
    pub sky_condition: Option<String>,
    pub weather_codes: Option<String>,
}

/// What an [`AsosObservation`] holds, as mathematical values. Numbers are in
/// millionths of their unit.
pub struct AsosObservationView {
    pub station_id: Seq<char>,
    pub timestamp: Timestamp,
    pub temp_f: Option<int>,
    pub dewpoint_f: Option<int>,
    pub relative_humidity: Option<int>,
    pub wind_direction_deg: Option<int>,
    pub wind_speed_knots: Option<int>,
    pub wind_gust_knots: Option<int>,
    pub precip_1hr_in: Option<int>,
    pub pressure_mb: Option<int>,
    pub visibility_mi: Option<int>,
    pub sky_condition: Option<Seq<char>>,
    pub weather_codes: Option<Seq<char>>,
}

impl View for AsosObservation {
    type V = AsosObservationView;

    open spec fn view(&self) -> AsosObservationView {
        AsosObservationView {
            station_id: self.station_id@,
            timestamp: self.timestamp,
            temp_f: number_view(self.temp_f),
            dewpoint_f: number_view(self.dewpoint_f),
            relative_humidity: number_view(self.relative_humidity),
            wind_direction_deg: number_view(self.wind_direction_deg),
            wind_speed_knots: number_view(self.wind_speed_knots),
            wind_gust_knots: number_view(self.wind_gust_knots),
            precip_1hr_in: number_view(self.precip_1hr_in),
            pressure_mb: number_view(self.pressure_mb),
            visibility_mi: number_view(self.visibility_mi),
            sky_condition: string_view(self.sky_condition),
            weather_codes: string_view(self.weather_codes),
        }
    }
}

/// Mathematical form of a list of observations.
pub open spec fn observations_view(observations: Seq<AsosObservation>) -> Seq<AsosObservationView> {
    observations.map_values(|o: AsosObservation| o@)
}

/// The observation that the service's `obs` stands for, where its time can
/// be read: the sea level pressure is the pressure, the rest keeps its place.
pub open spec fn observation_of(obs: IemObservation) -> Option<AsosObservationView> {
    match instant_of(obs.valid@) {
        Some(timestamp) => Some(
            AsosObservationView {
                station_id: obs.station@,
                timestamp,
                temp_f: number_view(obs.temp_f),
                dewpoint_f: number_view(obs.dewpoint_f),
                relative_humidity: number_view(obs.relative_humidity),
                wind_direction_deg: number_view(obs.drct),
                wind_speed_knots: number_view(obs.sknt),
                wind_gust_knots: number_view(obs.wind_gust_knots),
                precip_1hr_in: number_view(obs.precip_1hr_in),
                pressure_mb: number_view(obs.sea_level_pressure_mb),
                visibility_mi: number_view(obs.vsby),
                sky_condition: string_view(obs.skyc1),
                weather_codes: string_view(obs.wxcodes),
            },
        ),
        None => None,
    }
}

/// The error of an observation whose time cannot be read.
pub open spec fn unreadable_time(valid: Seq<char>) -> Seq<char> {
    "cannot parse observation time: "@ + valid
}

/// Mathematical form of the answer of [`parse_observation`].
pub open spec fn parsed_view(r: Result<AsosObservation, String>) -> Result<
    AsosObservationView,
    Seq<char>,
> {
    match r {
        Ok(o) => Ok(o@),
        Err(e) => Err(e@),
    }
}

/// What [`parse_observation`] answers for `obs`.
pub open spec fn parsed_observation(obs: IemObservation) -> Result<AsosObservationView, Seq<char>> {
    match observation_of(obs) {
        Some(o) => Ok(o),
        None => Err(unreadable_time(obs.valid@)),
    }
}

/// Turns an observation of the service into one that is ready to be stored.
/// Its time is read as an RFC 3339 instant; where that fails the answer is an
/// error.
pub fn parse_observation(obs: IemObservation) -> (r: Result<AsosObservation, String>)
    ensures
        parsed_view(r) == parsed_observation(obs),
{
    match Timestamp::parse_rfc3339(obs.valid.as_str()) {
        Some(timestamp) => Ok(
            AsosObservation {
                station_id: obs.station,
                timestamp,
                temp_f: obs.temp_f,
                dewpoint_f: obs.dewpoint_f,
                relative_humidity: obs.relative_humidity,
                wind_direction_deg: obs.drct,
                wind_speed_knots: obs.sknt,
                wind_gust_knots: obs.wind_gust_knots,
                precip_1hr_in: obs.precip_1hr_in,
                pressure_mb: obs.sea_level_pressure_mb,
                visibility_mi: obs.vsby,
                sky_condition: obs.skyc1,
                weather_codes: obs.wxcodes,
            },
        ),
        None => {
            let mut msg = String::from_str("cannot parse observation time: ");
            msg.append(obs.valid.as_str());
            Err(msg)
        },
    }
}

/// The error of an answer that holds no observation.
pub open spec fn no_data_returned() -> Seq<char> {
    "No data returned for station"@
}

/// What [`current_observation`] answers for the observations `data`.
pub open spec fn first_parsed(data: Seq<IemObservation>) -> Result<AsosObservationView, Seq<char>> {
    if data.len() == 0 {
        Err(no_data_returned())
    } else {
        parsed_observation(data[0])
    }
}

/// The newest observation of an answer for current conditions: its first
/// one, made ready to be stored. An answer without observations is an error.
pub fn current_observation(response: IemCurrentResponse) -> (r: Result<AsosObservation, String>)
    ensures
        parsed_view(r) == first_parsed(response.data@),
{
    let mut data = response.data;
    if data.len() == 0 {
        return Err(String::from_str("No data returned for station"));
    }
    let first = data.swap_remove(0);
    parse_observation(first)
}

/// The rain of all observations together, in millionths of an inch: the sum
/// of the hourly precipitation of those that report one.
pub open spec fn total_precip(observations: Seq<AsosObservationView>) -> int
    decreases observations.len(),
{
    if observations.len() == 0 {
        0
    } else {
        total_precip(observations.drop_last()) + (match observations.last().precip_1hr_in {
            Some(p) => p,
            None => 0,
        })
    }
}

/// `a` divided by `b`, rounded toward zero.
pub open spec fn toward_zero(a: int, b: int) -> int {
    if a >= 0 {
        a / b
    } else {
        -((-a) / b)
    }
}

/// The rain of all observations together, in millionths of an inch.
pub fn precip_micros(observations: &[AsosObservation]) -> (r: i128)
    ensures
        r == total_precip(observations_view(observations@)),
{
    let ghost all = observations_view(observations@);
    let mut acc: i128 = 0;
    let mut i: usize = 0;
    while i < observations.len()
        invariant
            i <= observations.len(),
            all == observations_view(observations@),
            acc == total_precip(all.take(i as int)),
            -(i as int) * 0x8000_0000_0000_0000 <= acc <= (i as int) * 0x8000_0000_0000_0000,
        decreases observations.len() - i,
    {
        assert(all.take(i + 1).drop_last() =~= all.take(i as int));
        assert(all.take(i + 1).last() == observations@[i as int]@);
        assert((i as int) * 0x8000_0000_0000_0000 + 0x8000_0000_0000_0000 == (i + 1)
            * 0x8000_0000_0000_0000) by (nonlinear_arith);
        assert((i as int + 1) * 0x8000_0000_0000_0000 <= 0x1_0000_0000_0000_0000
            * 0x8000_0000_0000_0000) by (nonlinear_arith)
            requires
                i < 0x1_0000_0000_0000_0000,
        ;
        match observations[i].precip_1hr_in {
            Some(p) => {
                acc = acc + (p.micros as i128);
            },
            None => {},
        }
        i += 1;
    }
    assert(all.take(i as int) =~= all);
    acc
}

/// The number that is `micros` millionths, where an `i64` can hold it.
pub open spec fn decimal_of(micros: int) -> Option<int> {
    if i64::MIN <= micros <= i64::MAX {
        Some(micros)
    } else {
        None
    }
}

/// The number that is `micros` millionths, where it is in range.
fn narrow(micros: i128) -> (r: Option<Decimal>)
    ensures
        number_view(r) == decimal_of(micros as int),
{
    if micros < (i64::MIN as i128) || micros > (i64::MAX as i128) {
        None
    } else {
        Some(Decimal { micros: micros as i64 })
    }
}

/// The rain of all observations together, in inches; `None` where the sum is
/// beyond what a [`Decimal`] can hold.
pub fn calculate_cumulative_precip(observations: &[AsosObservation]) -> (r: Option<Decimal>)
    ensures
        number_view(r) == decimal_of(total_precip(observations_view(observations@))),
{
    narrow(precip_micros(observations))
}

/// Whether the rain of all observations together has reached
/// `threshold_in` inches.
pub fn detect_rainfall_event(observations: &[AsosObservation], threshold_in: Decimal) -> (r: bool)
    ensures
        r == (total_precip(observations_view(observations@)) >= threshold_in@),
{
    precip_micros(observations) >= (threshold_in.micros as i128)
}

/// The rain per hour over `hours` hours, in millionths of an inch, rounded
/// toward zero; nothing where there are no observations or no hours.
pub open spec fn precip_intensity(observations: Seq<AsosObservationView>, hours: usize) -> Option<
    int,
> {
    if observations.len() == 0 || hours == 0 {
        None
    } else {
        decimal_of(toward_zero(total_precip(observations), hours as int))
    }
}

/// The rain per hour over `hours` hours, in inches, rounded toward zero to
/// the millionth. `None` where there are no observations or no hours, or
/// where the quotient is beyond what a [`Decimal`] can hold.
pub fn calculate_precip_intensity(observations: &[AsosObservation], hours: usize) -> (r: Option<
    Decimal,
>)
    ensures
        number_view(r) == precip_intensity(observations_view(observations@), hours),
{
    if observations.len() == 0 || hours == 0 {
        return None;
    }
    let total = precip_micros(observations);
    assert(total > i128::MIN) by {
        assert((observations.len() as int) * 0x8000_0000_0000_0000 <= 0x1_0000_0000_0000_0000
            * 0x8000_0000_0000_0000) by (nonlinear_arith)
            requires
                observations.len() < 0x1_0000_0000_0000_0000,
        ;
        lemma_total_bounded(observations_view(observations@));
    }
    narrow(total / (hours as i128))
}

/// The rain of `n` observations is within `n` times the largest number.
pub proof fn lemma_total_bounded(observations: Seq<AsosObservationView>)
    requires
        forall|i: int|
            0 <= i < observations.len() ==> ((#[trigger] observations[i]).precip_1hr_in matches Some(
                p,
            ) ==> i64::MIN <= p <= i64::MAX),
    ensures
        -observations.len() * 0x8000_0000_0000_0000 <= total_precip(observations)
            <= observations.len() * 0x8000_0000_0000_0000,
    decreases observations.len(),
{
    if observations.len() > 0 {
        let head = observations.drop_last();
        assert forall|i: int| 0 <= i < head.len() implies ((#[trigger] head[i]).precip_1hr_in matches Some(
            p,
        ) ==> i64::MIN <= p <= i64::MAX) by {
            assert(head[i] == observations[i]);
        }
        lemma_total_bounded(head);
        assert(observations.last() == observations[observations.len() - 1]);
        assert((observations.len() - 1) * 0x8000_0000_0000_0000 + 0x8000_0000_0000_0000
            == observations.len() * 0x8000_0000_0000_0000) by (nonlinear_arith);
    }
}

/// Observations that report no rain add nothing, and one more observation
/// adds its own rain to the total.
pub proof fn lemma_total_grows_by_last(observations: Seq<AsosObservationView>, next: AsosObservationView)
    ensures
        total_precip(observations.push(next)) == total_precip(observations) + (
        match next.precip_1hr_in {
            Some(p) => p,
            None => 0,
        }),
{
    assert(observations.push(next).drop_last() =~= observations);
}


/// Where the line that begins at `from` stops: at its line feed, or at the
/// end of the text.
pub open spec fn line_stop(text: Seq<char>, from: int) -> int {
    from + first_at(text.skip(from), '\n')
}

/// The line that begins at `from`: the text up to where it stops, without
/// the carriage return that may stand before the line feed.
pub open spec fn line_at(text: Seq<char>, from: int) -> Seq<char> {
    let stop = line_stop(text, from);
    if stop < text.len() && from < stop && text[stop - 1] == '\r' {
        text.subrange(from, stop - 1)
    } else {
        text.subrange(from, stop)
    }
}

/// Where the line after the one that begins at `from` begins: behind the
/// line feed, or at the end of the text where there is none.
pub open spec fn next_line(text: Seq<char>, from: int) -> int {
    if from <= line_stop(text, from) < text.len() {
        line_stop(text, from) + 1
    } else {
        text.len() as int
    }
}

/// The field holds no value: it is empty or `null`, white space aside.
pub open spec fn is_null(field: Seq<char>) -> bool {
    trimmed(field) == "null"@ || trimmed(field).len() == 0
}

/// The number in the field, in millionths; none where the field holds no
/// value or no number.
pub open spec fn number_of(field: Seq<char>) -> Option<int> {
    if is_null(field) {
        None
    } else {
        decimal_micros(trimmed(field))
    }
}

/// The cloud layer in the field, as a list of one; the empty list where the
/// field holds no value.
pub open spec fn layer(field: Seq<char>) -> Seq<Seq<char>> {
    if is_null(field) {
        Seq::empty()
    } else {
        seq![trimmed(field)]
    }
}

/// `parts` in a row, with `sep` between each two.
pub open spec fn joined(parts: Seq<Seq<char>>, sep: Seq<char>) -> Seq<char>
    decreases parts.len(),
{
    if parts.len() == 0 {
        Seq::empty()
    } else if parts.len() == 1 {
        parts[0]
    } else {
        joined(parts.drop_last(), sep) + sep + parts.last()
    }
}

/// The cloud layers of a row: those of its fields 12 to 15 that hold a
/// value.
pub open spec fn layers_of(fields: Seq<Seq<char>>) -> Seq<Seq<char>> {
    layer(fields[12]) + layer(fields[13]) + layer(fields[14]) + layer(fields[15])
}

/// The sky condition of a row: its cloud layers with a slash between them;
/// none where it has no layer.
pub open spec fn sky_of(fields: Seq<Seq<char>>) -> Option<Seq<char>> {
    if layers_of(fields).len() == 0 {
        None
    } else {
        Some(joined(layers_of(fields), "/"@))
    }
}

/// The weather codes of a row: its field 20 as it stands, where it holds a
/// value.
pub open spec fn weather_of(fields: Seq<Seq<char>>) -> Option<Seq<char>> {
    if is_null(fields[20]) {
        None
    } else {
        Some(fields[20])
    }
}

/// The observation that a row of at least 21 fields holds; none where the
/// time in its field 1 cannot be read.
///
/// Field 0 is the station, field 1 the time as a UTC date and time to the
/// minute. Fields 2 to 7 are temperature, dew point, relative humidity, wind
/// direction, wind speed and the precipitation of the hour; fields 9 to 11
/// pressure, visibility and gust; fields 12 to 15 the cloud layers; field 20
/// the weather codes.
#[verifier::opaque]
pub open spec fn row_of(fields: Seq<Seq<char>>) -> Option<AsosObservationView> {
    match minute_of(fields[1]) {
        Some(timestamp) => Some(
            AsosObservationView {
                station_id: fields[0],
                timestamp,
                temp_f: number_of(fields[2]),
                dewpoint_f: number_of(fields[3]),
                relative_humidity: number_of(fields[4]),
                wind_direction_deg: number_of(fields[5]),
                wind_speed_knots: number_of(fields[6]),
                wind_gust_knots: number_of(fields[11]),
                precip_1hr_in: number_of(fields[7]),
                pressure_mb: number_of(fields[9]),
                visibility_mi: number_of(fields[10]),
                sky_condition: sky_of(fields),
                weather_codes: weather_of(fields),
            },
        ),
        None => None,
    }
}

/// The line that begins at `from` is a row of data: it is not the first
/// line, which is the header, it is not blank, and it has at least 21 fields.
#[verifier::opaque]
pub open spec fn is_data_line(text: Seq<char>, from: int) -> bool {
    &&& from > 0
    &&& trimmed(line_at(text, from)).len() > 0
    &&& split_on(line_at(text, from), ',').len() >= 21
}

/// The error of a row whose time cannot be read.
pub open spec fn bad_timestamp() -> Seq<char> {
    "Failed to parse timestamp"@
}

/// `done` followed by the rows of `rest`, or the error of `rest`.
pub open spec fn rows_then(
    done: Seq<AsosObservationView>,
    rest: Result<Seq<AsosObservationView>, Seq<char>>,
) -> Result<Seq<AsosObservationView>, Seq<char>> {
    match rest {
        Ok(rows) => Ok(done + rows),
        Err(e) => Err(e),
    }
}

/// The observations of the line that begins at `from` and of the lines
/// behind it, of which `rest` are the observations: a row of data gives one
/// observation before those of `rest`, or an error where its time cannot be
/// read; any other line gives nothing.
pub open spec fn rows_with(
    text: Seq<char>,
    from: int,
    rest: Result<Seq<AsosObservationView>, Seq<char>>,
) -> Result<Seq<AsosObservationView>, Seq<char>> {
    if !is_data_line(text, from) {
        rest
    } else {
        match row_of(split_on(line_at(text, from), ',')) {
            Some(row) => rows_then(seq![row], rest),
            None => Err(bad_timestamp()),
        }
    }
}

/// The observations in the lines of `text` from the one that begins at
/// `from`: each row of data gives one, in order; other lines are passed
/// over. The first row whose time cannot be read makes the whole an error.
pub open spec fn rows_from(text: Seq<char>, from: int) -> Result<
    Seq<AsosObservationView>,
    Seq<char>,
>
    decreases text.len() - from,
{
    if from < 0 || from >= text.len() {
        Ok(Seq::empty())
    } else {
        rows_with(text, from, rows_from(text, next_line(text, from)))
    }
}

/// Mathematical form of the answer of [`parse_asos_csv`].
pub open spec fn rows_view(r: Result<Vec<AsosObservation>, String>) -> Result<
    Seq<AsosObservationView>,
    Seq<char>,
> {
    match r {
        Ok(rows) => Ok(observations_view(rows@)),
        Err(e) => Err(e@),
    }
}

/// Mathematical form of an optional observation.
pub open spec fn observation_view(o: Option<AsosObservation>) -> Option<AsosObservationView> {
    match o {
        Some(x) => Some(x@),
        None => None,
    }
}

/// Whether the field from `a` to `b` holds no value.
fn field_is_null(chars: &Vec<char>, a: usize, b: usize) -> (r: bool)
    requires
        a <= b <= chars.len(),
    ensures
        r == is_null(chars@.subrange(a as int, b as int)),
{
    let (ta, tb) = trim_range(chars, a, b);
    tb == ta || range_is(chars, ta, tb, "null")
}

/// The number in the field from `a` to `b`.
fn field_number(chars: &Vec<char>, a: usize, b: usize) -> (r: Option<Decimal>)
    requires
        a <= b <= chars.len(),
    ensures
        number_view(r) == number_of(chars@.subrange(a as int, b as int)),
{
    let (ta, tb) = trim_range(chars, a, b);
    if tb == ta || range_is(chars, ta, tb, "null") {
        None
    } else {
        parse_decimal_range(chars, ta, tb)
    }
}

/// Appends the cloud layer of the field from `a` to `b` to `text`, behind a
/// slash where `text` holds layers already.
fn add_layer(
    csv: &str,
    chars: &Vec<char>,
    a: usize,
    b: usize,
    text: &mut String,
    count: &mut usize,
    Ghost(parts): Ghost<Seq<Seq<char>>>,
)
    requires
        chars@ == csv@,
        a <= b <= chars.len(),
        old(text)@ == joined(parts, "/"@),
        *old(count) == parts.len(),
        parts.len() < 100,
    ensures
        final(text)@ == joined(parts + layer(chars@.subrange(a as int, b as int)), "/"@),
        *final(count) == (parts + layer(chars@.subrange(a as int, b as int))).len(),
{
    let (ta, tb) = trim_range(chars, a, b);
    if tb == ta || range_is(chars, ta, tb, "null") {
        assert(parts + layer(chars@.subrange(a as int, b as int)) =~= parts);
        return ;
    }
    let ghost piece = chars@.subrange(ta as int, tb as int);
    proof {
        assert(parts + layer(chars@.subrange(a as int, b as int)) =~= parts.push(piece));
        assert(parts.push(piece).drop_last() =~= parts);
    }
    if *count > 0 {
        text.append("/");
    }
    text.append(csv.substring_char(ta, tb));
    *count = *count + 1;
    assert(text@ =~= joined(parts.push(piece), "/"@));
}

/// The sky condition of the row with the given fields.
fn sky_condition(csv: &str, chars: &Vec<char>, fields: &Vec<(usize, usize)>) -> (r: Option<String>)
    requires
        chars@ == csv@,
        fields.len() >= 21,
        ranges_within(fields@, 0, chars.len() as int),
    ensures
        string_view(r) == sky_of(ranges_text(chars@, fields@)),
{
    let ghost all = ranges_text(chars@, fields@);
    let mut text = String::new();
    let mut count: usize = 0;
    let ghost l0 = Seq::<Seq<char>>::empty();
    assert(text@ =~= joined(l0, "/"@));
    add_layer(csv, chars, fields[12].0, fields[12].1, &mut text, &mut count, Ghost(l0));
    let ghost l1 = l0 + layer(all[12]);
    add_layer(csv, chars, fields[13].0, fields[13].1, &mut text, &mut count, Ghost(l1));
    let ghost l2 = l1 + layer(all[13]);
    add_layer(csv, chars, fields[14].0, fields[14].1, &mut text, &mut count, Ghost(l2));
    let ghost l3 = l2 + layer(all[14]);
    add_layer(csv, chars, fields[15].0, fields[15].1, &mut text, &mut count, Ghost(l3));
    assert(l3 + layer(all[15]) =~= layers_of(all));
    if count == 0 {
        None
    } else {
        Some(text)
    }
}

/// The observation that the row with the given fields holds; `None` where
/// its time cannot be read.
fn parse_row(csv: &str, chars: &Vec<char>, fields: &Vec<(usize, usize)>) -> (r: Option<
    AsosObservation,
>)
    requires
        chars@ == csv@,
        fields.len() >= 21,
        ranges_within(fields@, 0, chars.len() as int),
    ensures
        observation_view(r) == row_of(ranges_text(chars@, fields@)),
{
    let ghost all = ranges_text(chars@, fields@);
    proof {
        reveal(row_of);
    }
    let timestamp = match Timestamp::parse_utc_minute(
        csv.substring_char(fields[1].0, fields[1].1),
    ) {
        Some(t) => t,
        None => {
            return None;
        },
    };
    let weather_codes = if field_is_null(chars, fields[20].0, fields[20].1) {
        None
    } else {
        Some(String::from_str(csv.substring_char(fields[20].0, fields[20].1)))
    };
    Some(
        AsosObservation {
            station_id: String::from_str(csv.substring_char(fields[0].0, fields[0].1)),
            timestamp,
            temp_f: field_number(chars, fields[2].0, fields[2].1),
            dewpoint_f: field_number(chars, fields[3].0, fields[3].1),
            relative_humidity: field_number(chars, fields[4].0, fields[4].1),
            wind_direction_deg: field_number(chars, fields[5].0, fields[5].1),
            wind_speed_knots: field_number(chars, fields[6].0, fields[6].1),
            wind_gust_knots: field_number(chars, fields[11].0, fields[11].1),
            precip_1hr_in: field_number(chars, fields[7].0, fields[7].1),
            pressure_mb: field_number(chars, fields[9].0, fields[9].1),
            visibility_mi: field_number(chars, fields[10].0, fields[10].1),
            sky_condition: sky_condition(csv, chars, fields),
            weather_codes,
        },
    )
}

/// What one line of the text gives.
enum LineOutcome {
    /// The line is no row of data.
    Skipped,
    /// The line is a row of data with this observation.
    Row(AsosObservation),
    /// The line is a row of data whose time cannot be read.
    BadTime,
}

/// Where the line that begins at `from` ends, and where the next one
/// begins.
fn line_bounds(chars: &Vec<char>, from: usize) -> (r: (usize, usize))
    requires
        from < chars.len(),
    ensures
        from <= r.0 <= chars.len(),
        from < r.1 <= chars.len(),
        chars@.subrange(from as int, r.0 as int) == line_at(chars@, from as int),
        r.1 == next_line(chars@, from as int),
{
    assert(chars@.skip(from as int) =~= chars@.subrange(from as int, chars.len() as int));
    let stop = find_from(chars, from, chars.len(), '\n');
    let end: usize = if stop < chars.len() && from < stop && chars[stop - 1] == '\r' {
        stop - 1
    } else {
        stop
    };
    let next: usize = if stop < chars.len() {
        stop + 1
    } else {
        stop
    };
    (end, next)
}

/// What the line from `from` to `end` gives.
fn parse_line(csv: &str, chars: &Vec<char>, from: usize, end: usize) -> (r: LineOutcome)
    requires
        chars@ == csv@,
        from <= end <= chars.len(),
        chars@.subrange(from as int, end as int) == line_at(chars@, from as int),
    ensures
        match r {
            LineOutcome::Skipped => !is_data_line(chars@, from as int),
            LineOutcome::Row(obs) => is_data_line(chars@, from as int) && row_of(
                split_on(line_at(chars@, from as int), ','),
            ) == Some(obs@),
            LineOutcome::BadTime => is_data_line(chars@, from as int) && row_of(
                split_on(line_at(chars@, from as int), ','),
            ) is None,
        },
{
    proof {
        reveal(is_data_line);
    }
    if from == 0 {
        return LineOutcome::Skipped;
    }
    let (ta, tb) = trim_range(chars, from, end);
    if tb == ta {
        return LineOutcome::Skipped;
    }
    let fields = split_ranges(chars, from, end, ',');
    if fields.len() < 21 {
        return LineOutcome::Skipped;
    }
    assert(ranges_within(fields@, 0, chars.len() as int));
    match parse_row(csv, chars, &fields) {
        Some(obs) => LineOutcome::Row(obs),
        None => LineOutcome::BadTime,
    }
}

/// Reads weather observations from comma separated text.
///
/// The first line is the header. Each later line that is not blank and has
/// at least 21 fields gives one observation; see [`row_of`] for its fields.
/// A field that is empty or `null` holds no value. A row whose time cannot be
/// read makes the whole an error. `_station_id` is the station that was
/// asked for; the station of each observation is the one its row names.
pub fn parse_asos_csv(csv: &str, _station_id: &str) -> (r: Result<Vec<AsosObservation>, String>)
    ensures
        rows_view(r) == rows_from(csv@, 0),
{
    let chars = chars_of(csv);
    let ghost text = csv@;
    let mut out: Vec<AsosObservation> = Vec::new();
    let mut from: usize = 0;
    proof {
        assert(observations_view(out@) =~= Seq::<AsosObservationView>::empty());
        match rows_from(text, 0) {
            Ok(rows) => {
                assert(Seq::<AsosObservationView>::empty() + rows =~= rows);
            },
            Err(_) => {},
        }
    }
    while from < chars.len()
        invariant
            from <= chars.len(),
            chars@ == csv@,
            text == csv@,
            rows_then(observations_view(out@), rows_from(text, from as int)) == rows_from(text, 0),
        decreases chars.len() - from,
    {
        let ghost before = observations_view(out@);
        let (end, next) = line_bounds(&chars, from);
        let ghost rest = rows_from(text, next as int);
        assert(rows_from(text, from as int) == rows_with(text, from as int, rest));
        match parse_line(csv, &chars, from, end) {
            LineOutcome::Skipped => {},
            LineOutcome::Row(obs) => {
                proof {
                    assert(observations_view(out@.push(obs)) =~= before.push(obs@));
                    match rest {
                        Ok(rows) => {
                            assert(before.push(obs@) + rows =~= before + (seq![obs@] + rows));
                        },
                        Err(_) => {},
                    }
                }
                out.push(obs);
            },
            LineOutcome::BadTime => {
                return Err(String::from_str("Failed to parse timestamp"));
            },
        }
        from = next;
    }
    proof {
        assert(observations_view(out@) + Seq::<AsosObservationView>::empty() =~= observations_view(
            out@,
        ));
    }
    Ok(out)
}

} // verus!
