//! Health checks of the configured data sources.
//!
//! Each configured station or location is checked on its own: was it
//! reachable, did it return data, is everything there that was expected. The
//! outcome is one of three states, and a report counts them by provider. The
//! requests themselves are made by the caller; what came back is judged here.

use crate::ingest::iem::{observations_view, AsosObservation, AsosObservationView};
use crate::text::lists_text;
use vstd::prelude::*;

verus! {

/// How the check of one station or location ended.
#[derive(Debug, Clone, Copy, PartialEq, Eq, Hash, Structural)]
pub enum VerificationStatus {
    /// Reachable, with data, and with all that was expected.
    Success,
    /// Reachable, with data, but something that was expected is missing.
    PartialSuccess,
    /// Not reachable, or reachable without any data.
    Failed,
}

impl VerificationStatus {
    /// The source works: the check did not fail.
    pub open spec fn working(self) -> bool {
        self != VerificationStatus::Failed
    }

    /// Whether the source works: the check did not fail.
    pub fn is_working(&self) -> (r: bool)
        ensures
            r == self.working(),
    {
        match self {
            VerificationStatus::Failed => false,
            _ => true,
        }
    }
}

/// Mathematical form of a list of strings.
pub open spec fn strings_view(list: Seq<String>) -> Seq<Seq<char>> {
    list.map_values(|s: String| s@)
}

/// Mathematical form of an optional string.
pub open spec fn note_view(s: Option<String>) -> Option<Seq<char>> {
    match s {
        Some(x) => Some(x@),
        None => None,
    }
}

/// A copy of `list`.
pub fn clone_strings(list: &Vec<String>) -> (r: Vec<String>)
    ensures
        strings_view(r@) == strings_view(list@),
{
    let mut r: Vec<String> = Vec::new();
    let mut i: usize = 0;
    while i < list.len()
        invariant
            i <= list.len(),
            r@.len() == i,
            forall|k: int| 0 <= k < i ==> (#[trigger] r@[k])@ == list@[k]@,
        decreases list.len() - i,
    {
        r.push(list[i].clone());
        i += 1;
    }
    assert(strings_view(r@) =~= strings_view(list@));
    r
}

/// A copy of `s`.
pub fn clone_note(s: &Option<String>) -> (r: Option<String>)
    ensures
        note_view(r) == note_view(*s),
{
    match s {
        Some(x) => Some(x.clone()),
        None => None,
    }
}

/// The check of one river gauge.
#[derive(Debug, PartialEq)]
pub struct UsgsVerification {
    pub site_code: String,
    pub name: String,
    pub status: VerificationStatus,
    pub site_exists: bool,
    pub parameters_available: Vec<String>,
    pub parameters_expected: Vec<String>,
    pub parameters_missing: Vec<String>,
    pub sample_data_count: usize,
    pub peak_flow_available: bool,
    pub error_message: Option<String>,
}

/// What a [`UsgsVerification`] holds, as mathematical values.
pub struct UsgsVerificationView {
    pub site_code: Seq<char>,
    pub name: Seq<char>,
    pub status: VerificationStatus,
    pub site_exists: bool,
    pub parameters_available: Seq<Seq<char>>,
    pub parameters_expected: Seq<Seq<char>>,
    pub parameters_missing: Seq<Seq<char>>,
    pub sample_data_count: nat,
    pub peak_flow_available: bool,
    pub error_message: Option<Seq<char>>,
}

impl View for UsgsVerification {
    type V = UsgsVerificationView;

    open spec fn view(&self) -> UsgsVerificationView {
        UsgsVerificationView {
            site_code: self.site_code@,
            name: self.name@,
            status: self.status,
            site_exists: self.site_exists,
            parameters_available: strings_view(self.parameters_available@),
            parameters_expected: strings_view(self.parameters_expected@),
            parameters_missing: strings_view(self.parameters_missing@),
            sample_data_count: self.sample_data_count as nat,
            peak_flow_available: self.peak_flow_available,
            error_message: note_view(self.error_message),
        }
    }
}

impl Clone for UsgsVerification {
    fn clone(&self) -> (r: Self)
        ensures
            r@ == self@,
    {
        UsgsVerification {
            site_code: self.site_code.clone(),
            name: self.name.clone(),
            status: self.status,
            site_exists: self.site_exists,
            parameters_available: clone_strings(&self.parameters_available),
            parameters_expected: clone_strings(&self.parameters_expected),
            parameters_missing: clone_strings(&self.parameters_missing),
            sample_data_count: self.sample_data_count,
            peak_flow_available: self.peak_flow_available,
            error_message: clone_note(&self.error_message),
        }
    }
}

/// The check of one reservoir or lock location.
#[derive(Debug, PartialEq)]
pub struct CwmsVerification {
    pub name: String,
    pub office: String,
    pub cwms_location: String,
    pub status: VerificationStatus,
    pub catalog_found: bool,
    pub timeseries_discovered: Vec<String>,
    pub sample_data_available: bool,
    pub sample_data_count: usize,
    pub error_message: Option<String>,
}

/// What a [`CwmsVerification`] holds, as mathematical values.
pub struct CwmsVerificationView {
    pub name: Seq<char>,
    pub office: Seq<char>,
    pub cwms_location: Seq<char>,
    pub status: VerificationStatus,
    pub catalog_found: bool,
    pub timeseries_discovered: Seq<Seq<char>>,
    pub sample_data_available: bool,
    pub sample_data_count: nat,
    pub error_message: Option<Seq<char>>,
}

impl View for CwmsVerification {
    type V = CwmsVerificationView;

    open spec fn view(&self) -> CwmsVerificationView {
        CwmsVerificationView {
            name: self.name@,
            office: self.office@,
            cwms_location: self.cwms_location@,
            status: self.status,
            catalog_found: self.catalog_found,
            timeseries_discovered: strings_view(self.timeseries_discovered@),
            sample_data_available: self.sample_data_available,
            sample_data_count: self.sample_data_count as nat,
            error_message: note_view(self.error_message),
        }
    }
}

impl Clone for CwmsVerification {
    fn clone(&self) -> (r: Self)
        ensures
            r@ == self@,
    {
        CwmsVerification {
            name: self.name.clone(),
            office: self.office.clone(),
            cwms_location: self.cwms_location.clone(),
            status: self.status,
            catalog_found: self.catalog_found,
            timeseries_discovered: clone_strings(&self.timeseries_discovered),
            sample_data_available: self.sample_data_available,
            sample_data_count: self.sample_data_count,
            error_message: clone_note(&self.error_message),
        }
    }
}

/// The check of one weather station.
#[derive(Debug, PartialEq)]
pub struct AsosVerification {
    pub station_id: String,
    pub name: String,
    pub status: VerificationStatus,
    pub api_responsive: bool,
    pub sample_data_count: usize,
    pub data_types_available: Vec<String>,
    pub error_message: Option<String>,
}

/// What an [`AsosVerification`] holds, as mathematical values.
pub struct AsosVerificationView {
    pub station_id: Seq<char>,
    pub name: Seq<char>,
    pub status: VerificationStatus,
    pub api_responsive: bool,
    pub sample_data_count: nat,
    pub data_types_available: Seq<Seq<char>>,
    pub error_message: Option<Seq<char>>,
}

impl View for AsosVerification {
    type V = AsosVerificationView;

    open spec fn view(&self) -> AsosVerificationView {
        AsosVerificationView {
            station_id: self.station_id@,
            name: self.name@,
            status: self.status,
            api_responsive: self.api_responsive,
            sample_data_count: self.sample_data_count as nat,
            data_types_available: strings_view(self.data_types_available@),
            error_message: note_view(self.error_message),
        }
    }
}

impl Clone for AsosVerification {
    fn clone(&self) -> (r: Self)
        ensures
            r@ == self@,
    {
        AsosVerification {
            station_id: self.station_id.clone(),
            name: self.name.clone(),
            status: self.status,
            api_responsive: self.api_responsive,
            sample_data_count: self.sample_data_count,
            data_types_available: clone_strings(&self.data_types_available),
            error_message: clone_note(&self.error_message),
        }
    }
}


/// One time series in the answer of the river gauge service.
#[derive(Debug, PartialEq)]
pub struct TimeSeries {
    /// The parameter code of the series, where it names one.
    pub parameter_code: Option<String>,
    /// How many values each of its value sets holds.
    pub value_counts: Vec<usize>,
}

/// What a [`TimeSeries`] holds, as mathematical values.
pub struct TimeSeriesView {
    pub parameter_code: Option<Seq<char>>,
    pub value_counts: Seq<usize>,
}

impl View for TimeSeries {
    type V = TimeSeriesView;

    open spec fn view(&self) -> TimeSeriesView {
        TimeSeriesView {
            parameter_code: note_view(self.parameter_code),
            value_counts: self.value_counts@,
        }
    }
}

/// What came back when a river gauge was asked for its recent values.
#[derive(Debug, PartialEq)]
pub enum UsgsResponse {
    /// No answer came: the request itself failed. The text tells why.
    RequestFailed(String),
    /// The service answered with a status other than success. The text is the
    /// status.
    Refused(String),
    /// The service answered with success, but the body could not be read.
    /// The text tells why.
    Unreadable(String),
    /// The service answered with success and these time series.
    Series(Vec<TimeSeries>),
}

/// What a [`UsgsResponse`] holds, as mathematical values.
pub enum UsgsResponseView {
    RequestFailed(Seq<char>),
    Refused(Seq<char>),
    Unreadable(Seq<char>),
    Series(Seq<TimeSeriesView>),
}

/// Mathematical form of a list of time series.
pub open spec fn series_view(series: Seq<TimeSeries>) -> Seq<TimeSeriesView> {
    series.map_values(|t: TimeSeries| t@)
}

impl View for UsgsResponse {
    type V = UsgsResponseView;

    open spec fn view(&self) -> UsgsResponseView {
        match self {
            UsgsResponse::RequestFailed(e) => UsgsResponseView::RequestFailed(e@),
            UsgsResponse::Refused(e) => UsgsResponseView::Refused(e@),
            UsgsResponse::Unreadable(e) => UsgsResponseView::Unreadable(e@),
            UsgsResponse::Series(series) => UsgsResponseView::Series(series_view(series@)),
        }
    }
}

impl UsgsResponseView {
    /// The time series of the answer; none where it holds none.
    pub open spec fn series(self) -> Seq<TimeSeriesView> {
        match self {
            UsgsResponseView::Series(series) => series,
            _ => Seq::empty(),
        }
    }

    /// The site answered with success, whatever the body held.
    pub open spec fn site_exists(self) -> bool {
        self is Unreadable || self is Series
    }

    /// What went wrong, where something did.
    pub open spec fn error_message(self) -> Option<Seq<char>> {
        match self {
            UsgsResponseView::RequestFailed(e) => Some("Request failed: "@ + e),
            UsgsResponseView::Refused(status) => Some("HTTP "@ + status),
            UsgsResponseView::Unreadable(e) => Some("Parse error: "@ + e),
            UsgsResponseView::Series(_) => None,
        }
    }
}

/// The parameter codes that the time series name, in order. A code is listed
/// as often as it is named.
pub open spec fn codes_in(series: Seq<TimeSeriesView>) -> Seq<Seq<char>>
    decreases series.len(),
{
    if series.len() == 0 {
        Seq::empty()
    } else {
        match series.last().parameter_code {
            Some(code) => codes_in(series.drop_last()).push(code),
            None => codes_in(series.drop_last()),
        }
    }
}

/// The sum of `counts`.
pub open spec fn sum_of(counts: Seq<usize>) -> nat
    decreases counts.len(),
{
    if counts.len() == 0 {
        0
    } else {
        sum_of(counts.drop_last()) + counts.last() as nat
    }
}

/// The number of values that the time series hold together.
pub open spec fn values_in(series: Seq<TimeSeriesView>) -> nat
    decreases series.len(),
{
    if series.len() == 0 {
        0
    } else {
        values_in(series.drop_last()) + sum_of(series.last().value_counts)
    }
}

/// `n`, or the largest `usize` where `n` is beyond it.
pub open spec fn capped(n: nat) -> nat {
    if n > usize::MAX {
        usize::MAX as nat
    } else {
        n
    }
}

/// Those of `expected` that are not among `available`, in order.
pub open spec fn missing_from(expected: Seq<Seq<char>>, available: Seq<Seq<char>>) -> Seq<
    Seq<char>,
> {
    expected.filter(|e: Seq<char>| !lists_text(available, e))
}

/// The state of a check, from what it found: failed where the source was not
/// reachable or gave no data; else success where nothing expected is missing,
/// and partial success where something is.
pub open spec fn outcome(reachable: bool, data_count: nat, missing: nat) -> VerificationStatus {
    if reachable && data_count > 0 {
        if missing == 0 {
            VerificationStatus::Success
        } else {
            VerificationStatus::PartialSuccess
        }
    } else {
        VerificationStatus::Failed
    }
}

/// The state of a check, from what it found.
pub fn status_of(reachable: bool, data_count: usize, missing: usize) -> (r: VerificationStatus)
    ensures
        r == outcome(reachable, data_count as nat, missing as nat),
{
    if reachable && data_count > 0 {
        if missing == 0 {
            VerificationStatus::Success
        } else {
            VerificationStatus::PartialSuccess
        }
    } else {
        VerificationStatus::Failed
    }
}

/// The check of a river gauge, from what came back.
///
/// The site exists where the service answered with success. The parameters
/// that are available are those that the time series name; those that are
/// expected and not available are missing. The data count is the number of
/// values in all time series, capped at the largest `usize`.
pub open spec fn usgs_verification(
    site_code: Seq<char>,
    name: Seq<char>,
    expected: Seq<Seq<char>>,
    response: UsgsResponseView,
    peak_flow_available: bool,
) -> UsgsVerificationView {
    let available = codes_in(response.series());
    let missing = missing_from(expected, available);
    let count = capped(values_in(response.series()));
    UsgsVerificationView {
        site_code,
        name,
        status: outcome(response.site_exists(), count, missing.len()),
        site_exists: response.site_exists(),
        parameters_available: available,
        parameters_expected: expected,
        parameters_missing: missing,
        sample_data_count: count,
        peak_flow_available,
        error_message: response.error_message(),
    }
}

/// Whether `item` is one of `list`.
pub fn lists(list: &Vec<String>, item: &str) -> (r: bool)
    ensures
        r == lists_text(strings_view(list@), item@),
{
    let mut i: usize = 0;
    while i < list.len()
        invariant
            i <= list.len(),
            forall|k: int| 0 <= k < i ==> strings_view(list@)[k] != item@,
        decreases list.len() - i,
    {
        if crate::text::same_text(list[i].as_str(), item) {
            assert(strings_view(list@)[i as int] == item@);
            return true;
        }
        i += 1;
    }
    false
}

/// Those of `expected` that are not among `available`, in order.
pub fn missing_parameters(expected: &Vec<String>, available: &Vec<String>) -> (r: Vec<String>)
    ensures
        strings_view(r@) == missing_from(strings_view(expected@), strings_view(available@)),
{
    let ghost all = strings_view(expected@);
    let ghost have = strings_view(available@);
    let ghost absent = |e: Seq<char>| !lists_text(have, e);
    let mut out: Vec<String> = Vec::new();
    let mut i: usize = 0;
    assert(all.take(0) =~= Seq::<Seq<char>>::empty());
    assert(strings_view(out@) =~= all.take(0).filter(absent)) by {
        reveal(Seq::filter);
    }
    while i < expected.len()
        invariant
            i <= expected.len(),
            all == strings_view(expected@),
            have == strings_view(available@),
            absent == (|e: Seq<char>| !lists_text(have, e)),
            strings_view(out@) == all.take(i as int).filter(absent),
        decreases expected.len() - i,
    {
        let ghost before = strings_view(out@);
        let present = lists(available, expected[i].as_str());
        if !present {
            out.push(expected[i].clone());
        }
        proof {
            reveal(Seq::filter);
            assert(all.take(i + 1).drop_last() =~= all.take(i as int));
            assert(all.take(i + 1).last() == expected@[i as int]@);
            if !present {
                assert(strings_view(out@) =~= before.push(expected@[i as int]@));
            }
        }
        i += 1;
    }
    assert(all.take(i as int) =~= all);
    out
}

/// The sum of `counts`, capped at the largest `usize`.
fn capped_sum(start: usize, counts: &Vec<usize>) -> (r: usize)
    ensures
        r == capped(start as nat + sum_of(counts@)),
{
    let mut acc: usize = start;
    let mut i: usize = 0;
    while i < counts.len()
        invariant
            i <= counts.len(),
            acc == capped(start as nat + sum_of(counts@.take(i as int))),
        decreases counts.len() - i,
    {
        assert(counts@.take(i + 1).drop_last() =~= counts@.take(i as int));
        acc = match acc.checked_add(counts[i]) {
            Some(sum) => sum,
            None => usize::MAX,
        };
        i += 1;
    }
    assert(counts@.take(i as int) =~= counts@);
    acc
}

/// The parameter codes that `series` name and the number of values that they
/// hold, capped at the largest `usize`.
fn survey(series: &Vec<TimeSeries>) -> (r: (Vec<String>, usize))
    ensures
        strings_view(r.0@) == codes_in(series_view(series@)),
        r.1 == capped(values_in(series_view(series@))),
{
    let ghost all = series_view(series@);
    let mut codes: Vec<String> = Vec::new();
    let mut count: usize = 0;
    let mut i: usize = 0;
    assert(strings_view(codes@) =~= codes_in(all.take(0)));
    while i < series.len()
        invariant
            i <= series.len(),
            all == series_view(series@),
            strings_view(codes@) == codes_in(all.take(i as int)),
            count == capped(values_in(all.take(i as int))),
        decreases series.len() - i,
    {
        let ghost before = strings_view(codes@);
        assert(all.take(i + 1).drop_last() =~= all.take(i as int));
        assert(all.take(i + 1).last() == series@[i as int]@);
        match &series[i].parameter_code {
            Some(code) => {
                codes.push(code.clone());
                assert(strings_view(codes@) =~= before.push(code@));
            },
            None => {},
        }
        count = capped_sum(count, &series[i].value_counts);
        i += 1;
    }
    assert(all.take(i as int) =~= all);
    (codes, count)
}

/// Checks a river gauge from what came back.
///
/// `response` is what the request for the recent values of the site gave,
/// `peak_flow_available` whether the request for its peak flows succeeded.
/// See [`usgs_verification`] for what the check holds.
pub fn verify_usgs_station(
    site_code: &str,
    name: &str,
    expected_parameters: &Vec<String>,
    response: &UsgsResponse,
    peak_flow_available: bool,
) -> (r: UsgsVerification)
    ensures
        r@ == usgs_verification(
            site_code@,
            name@,
            strings_view(expected_parameters@),
            response@,
            peak_flow_available,
        ),
{
    let mut site_exists = false;
    let mut parameters_available: Vec<String> = Vec::new();
    let mut sample_data_count: usize = 0;
    let mut error_message: Option<String> = None;
    assert(strings_view(parameters_available@) =~= Seq::<Seq<char>>::empty());
    match response {
        UsgsResponse::RequestFailed(e) => {
            let mut msg = String::from_str("Request failed: ");
            msg.append(e.as_str());
            error_message = Some(msg);
        },
        UsgsResponse::Refused(status) => {
            let mut msg = String::from_str("HTTP ");
            msg.append(status.as_str());
            error_message = Some(msg);
        },
        UsgsResponse::Unreadable(e) => {
            site_exists = true;
            let mut msg = String::from_str("Parse error: ");
            msg.append(e.as_str());
            error_message = Some(msg);
        },
        UsgsResponse::Series(series) => {
            site_exists = true;
            let (codes, count) = survey(series);
            parameters_available = codes;
            sample_data_count = count;
        },
    }
    let parameters_missing = missing_parameters(expected_parameters, &parameters_available);
    let status = status_of(site_exists, sample_data_count, parameters_missing.len());
    UsgsVerification {
        site_code: String::from_str(site_code),
        name: String::from_str(name),
        status,
        site_exists,
        parameters_available,
        parameters_expected: clone_strings(expected_parameters),
        parameters_missing,
        sample_data_count,
        peak_flow_available,
        error_message,
    }
}

/// Mathematical form of what a catalog query gave: the names of the time
/// series, or why the query failed.
pub open spec fn catalog_view(catalog: Result<Vec<String>, String>) -> Result<
    Seq<Seq<char>>,
    Seq<char>,
> {
    match catalog {
        Ok(names) => Ok(strings_view(names@)),
        Err(e) => Err(e@),
    }
}

/// The time series to ask a sample of: the first one of the catalog, where
/// the query gave any.
pub open spec fn sample_target(catalog: Result<Seq<Seq<char>>, Seq<char>>) -> Option<Seq<char>> {
    match catalog {
        Ok(names) => if names.len() > 0 {
            Some(names[0])
        } else {
            None
        },
        Err(_) => None,
    }
}

/// The time series to ask a sample of: the first one of the catalog, where
/// the query gave any. Where it gave none there is nothing to ask.
pub fn cwms_sample_target(catalog: &Result<Vec<String>, String>) -> (r: Option<&String>)
    ensures
        (match r {
            Some(name) => Some(name@),
            None => None,
        }) == sample_target(catalog_view(*catalog)),
{
    match catalog {
        Ok(names) => if names.len() > 0 {
            Some(&names[0])
        } else {
            None
        },
        Err(_) => None,
    }
}

/// The check of a reservoir or lock location, from what came back.
///
/// Where the catalog names time series, the catalog is found, and the sample
/// of the first one tells the rest: with values the check succeeds, without
/// it succeeds in part. `sample_values` is the number of values in that
/// sample, or `None` where no sample was to be had; it counts only where the
/// catalog names a time series. An empty catalog and a failed query both fail
/// the check, each with its own message.
pub open spec fn cwms_verification(
    name: Seq<char>,
    office: Seq<char>,
    cwms_location: Seq<char>,
    catalog: Result<Seq<Seq<char>>, Seq<char>>,
    sample_values: Option<usize>,
) -> CwmsVerificationView {
    let names = match catalog {
        Ok(names) => names,
        Err(_) => Seq::empty(),
    };
    let found = names.len() > 0;
    let count: nat = if found && sample_values is Some {
        sample_values->0 as nat
    } else {
        0
    };
    CwmsVerificationView {
        name,
        office,
        cwms_location,
        status: outcome(catalog is Ok, names.len(), if count > 0 { 0 } else { 1 }),
        catalog_found: found,
        timeseries_discovered: names,
        sample_data_available: count > 0,
        sample_data_count: count,
        error_message: match catalog {
            Ok(names) => if names.len() > 0 {
                None
            } else {
                Some("No timeseries found in catalog"@)
            },
            Err(e) => Some("Catalog query failed: "@ + e),
        },
    }
}

/// Checks a reservoir or lock location from what came back: `catalog` from
/// the query for its time series, `sample_values` from the request for a
/// sample of the one that [`cwms_sample_target`] names. See
/// [`cwms_verification`] for what the check holds.
pub fn verify_cwms_location(
    name: &str,
    office: &str,
    cwms_location: &str,
    catalog: &Result<Vec<String>, String>,
    sample_values: Option<usize>,
) -> (r: CwmsVerification)
    ensures
        r@ == cwms_verification(
            name@,
            office@,
            cwms_location@,
            catalog_view(*catalog),
            sample_values,
        ),
{
    let mut catalog_found = false;
    let mut timeseries_discovered: Vec<String> = Vec::new();
    let mut sample_data_available = false;
    let mut sample_data_count: usize = 0;
    let mut error_message: Option<String> = None;
    assert(strings_view(timeseries_discovered@) =~= Seq::<Seq<char>>::empty());
    match catalog {
        Ok(names) => {
            if names.len() > 0 {
                catalog_found = true;
                timeseries_discovered = clone_strings(names);
                match sample_values {
                    Some(count) => {
                        sample_data_count = count;
                        if count > 0 {
                            sample_data_available = true;
                        }
                    },
                    None => {},
                }
            } else {
                assert(strings_view(names@) =~= Seq::<Seq<char>>::empty());
                error_message = Some(String::from_str("No timeseries found in catalog"));
            }
        },
        Err(e) => {
            let mut msg = String::from_str("Catalog query failed: ");
            msg.append(e.as_str());
            error_message = Some(msg);
        },
    }
    let status = if catalog_found {
        if sample_data_available {
            VerificationStatus::Success
        } else {
            VerificationStatus::PartialSuccess
        }
    } else {
        VerificationStatus::Failed
    };
    CwmsVerification {
        name: String::from_str(name),
        office: String::from_str(office),
        cwms_location: String::from_str(cwms_location),
        status,
        catalog_found,
        timeseries_discovered,
        sample_data_available,
        sample_data_count,
        error_message,
    }
}

/// Mathematical form of what a request for observations gave: the
/// observations, or why the request failed.
pub open spec fn fetched_view(fetched: Result<Vec<AsosObservation>, String>) -> Result<
    Seq<AsosObservationView>,
    Seq<char>,
> {
    match fetched {
        Ok(observations) => Ok(observations_view(observations@)),
        Err(e) => Err(e@),
    }
}

/// Some observation reports a temperature.
pub open spec fn reports_temperature(observations: Seq<AsosObservationView>) -> bool {
    exists|i: int| 0 <= i < observations.len() && (#[trigger] observations[i]).temp_f is Some
}

/// Some observation reports precipitation.
pub open spec fn reports_precipitation(observations: Seq<AsosObservationView>) -> bool {
    exists|i: int| 0 <= i < observations.len() && (#[trigger] observations[i]).precip_1hr_in is Some
}

/// Some observation reports a wind speed.
pub open spec fn reports_wind(observations: Seq<AsosObservationView>) -> bool {
    exists|i: int| 0 <= i < observations.len() && (#[trigger] observations[i]).wind_speed_knots is Some
}

/// Some observation reports a pressure.
pub open spec fn reports_pressure(observations: Seq<AsosObservationView>) -> bool {
    exists|i: int| 0 <= i < observations.len() && (#[trigger] observations[i]).pressure_mb is Some
}

/// `name` as a list of one where `present` holds, else the empty list.
pub open spec fn named_if(present: bool, name: Seq<char>) -> Seq<Seq<char>> {
    if present {
        seq![name]
    } else {
        Seq::empty()
    }
}

/// The kinds of data that the observations report: temperature,
/// precipitation, wind and pressure, in this order, each where some
/// observation reports it.
pub open spec fn data_types_in(observations: Seq<AsosObservationView>) -> Seq<Seq<char>> {
    named_if(reports_temperature(observations), "temperature"@) + named_if(
        reports_precipitation(observations),
        "precipitation"@,
    ) + named_if(reports_wind(observations), "wind"@) + named_if(
        reports_pressure(observations),
        "pressure"@,
    )
}

/// The check of a weather station, from what came back.
///
/// Where the request gave observations the service is responsive; the check
/// succeeds where there is at least one observation and fails where there is
/// none. A failed request fails the check, with a message.
pub open spec fn asos_verification(
    station_id: Seq<char>,
    name: Seq<char>,
    fetched: Result<Seq<AsosObservationView>, Seq<char>>,
) -> AsosVerificationView {
    match fetched {
        Ok(observations) => AsosVerificationView {
            station_id,
            name,
            status: outcome(true, capped(observations.len()), 0),
            api_responsive: true,
            sample_data_count: capped(observations.len()),
            data_types_available: data_types_in(observations),
            error_message: None,
        },
        Err(e) => AsosVerificationView {
            station_id,
            name,
            status: VerificationStatus::Failed,
            api_responsive: false,
            sample_data_count: 0,
            data_types_available: Seq::empty(),
            error_message: Some("API request failed: "@ + e),
        },
    }
}

/// Checks a weather station from what the request for its recent
/// observations gave. See [`asos_verification`] for what the check holds.
pub fn verify_asos_station(
    station_id: &str,
    name: &str,
    fetched: &Result<Vec<AsosObservation>, String>,
) -> (r: AsosVerification)
    ensures
        r@ == asos_verification(station_id@, name@, fetched_view(*fetched)),
{
    match fetched {
        Ok(observations) => {
            let ghost all = observations_view(observations@);
            let mut has_temp = false;
            let mut has_precip = false;
            let mut has_wind = false;
            let mut has_pressure = false;
            let mut i: usize = 0;
            while i < observations.len()
                invariant
                    i <= observations.len(),
                    all == observations_view(observations@),
                    has_temp == reports_temperature(all.take(i as int)),
                    has_precip == reports_precipitation(all.take(i as int)),
                    has_wind == reports_wind(all.take(i as int)),
                    has_pressure == reports_pressure(all.take(i as int)),
                decreases observations.len() - i,
            {
                let obs = &observations[i];
                proof {
                    let head = all.take(i as int);
                    let next = all.take(i + 1);
                    assert(next[i as int] == obs@);
                    assert forall|k: int| 0 <= k < i implies head[k] == next[k] by {}
                    if reports_temperature(head) {
                        let k = choose|k: int| 0 <= k < head.len() && (#[trigger] head[k]).temp_f is Some;
                        assert(next[k].temp_f is Some);
                    }
                    if reports_precipitation(head) {
                        let k = choose|k: int|
                            0 <= k < head.len() && (#[trigger] head[k]).precip_1hr_in is Some;
                        assert(next[k].precip_1hr_in is Some);
                    }
                    if reports_wind(head) {
                        let k = choose|k: int|
                            0 <= k < head.len() && (#[trigger] head[k]).wind_speed_knots is Some;
                        assert(next[k].wind_speed_knots is Some);
                    }
                    if reports_pressure(head) {
                        let k = choose|k: int|
                            0 <= k < head.len() && (#[trigger] head[k]).pressure_mb is Some;
                        assert(next[k].pressure_mb is Some);
                    }
                    if reports_temperature(next) && !reports_temperature(head) {
                        let k = choose|k: int| 0 <= k < next.len() && (#[trigger] next[k]).temp_f is Some;
                        if k < i {
                            assert(head[k].temp_f is Some);
                        }
                    }
                    if reports_precipitation(next) && !reports_precipitation(head) {
                        let k = choose|k: int|
                            0 <= k < next.len() && (#[trigger] next[k]).precip_1hr_in is Some;
                        if k < i {
                            assert(head[k].precip_1hr_in is Some);
                        }
                    }
                    if reports_wind(next) && !reports_wind(head) {
                        let k = choose|k: int|
                            0 <= k < next.len() && (#[trigger] next[k]).wind_speed_knots is Some;
                        if k < i {
                            assert(head[k].wind_speed_knots is Some);
                        }
                    }
                    if reports_pressure(next) && !reports_pressure(head) {
                        let k = choose|k: int|
                            0 <= k < next.len() && (#[trigger] next[k]).pressure_mb is Some;
                        if k < i {
                            assert(head[k].pressure_mb is Some);
                        }
                    }
                }
                if obs.temp_f.is_some() {
                    has_temp = true;
                }
                if obs.precip_1hr_in.is_some() {
                    has_precip = true;
                }
                if obs.wind_speed_knots.is_some() {
                    has_wind = true;
                }
                if obs.pressure_mb.is_some() {
                    has_pressure = true;
                }
                i += 1;
            }
            assert(all.take(i as int) =~= all);
            let mut data_types_available: Vec<String> = Vec::new();
            if has_temp {
                data_types_available.push(String::from_str("temperature"));
            }
            if has_precip {
                data_types_available.push(String::from_str("precipitation"));
            }
            if has_wind {
                data_types_available.push(String::from_str("wind"));
            }
            if has_pressure {
                data_types_available.push(String::from_str("pressure"));
            }
            assert(strings_view(data_types_available@) =~= data_types_in(all));
            let sample_data_count = observations.len();
            AsosVerification {
                station_id: String::from_str(station_id),
                name: String::from_str(name),
                status: status_of(true, sample_data_count, 0),
                api_responsive: true,
                sample_data_count,
                data_types_available,
                error_message: None,
            }
        },
        Err(e) => {
            let mut msg = String::from_str("API request failed: ");
            msg.append(e.as_str());
            let data_types_available: Vec<String> = Vec::new();
            assert(strings_view(data_types_available@) =~= Seq::<Seq<char>>::empty());
            AsosVerification {
                station_id: String::from_str(station_id),
                name: String::from_str(name),
                status: VerificationStatus::Failed,
                api_responsive: false,
                sample_data_count: 0,
                data_types_available,
                error_message: Some(msg),
            }
        },
    }
}


/// The counts of a report: for each provider the number of checks, of those
/// that work and of those that failed.
#[derive(Debug, Clone, Copy, PartialEq, Eq, Structural)]
pub struct VerificationSummary {
    pub usgs_total: usize,
    pub usgs_working: usize,
    pub usgs_failed: usize,
    pub cwms_total: usize,
    pub cwms_working: usize,
    pub cwms_failed: usize,
    pub asos_total: usize,
    pub asos_working: usize,
    pub asos_failed: usize,
}

/// The checks of one run, by provider, with their counts.
#[derive(Debug, PartialEq)]
pub struct VerificationReport {
    /// When the run began, as text.
    pub timestamp: String,
    pub usgs_results: Vec<UsgsVerification>,
    pub cwms_results: Vec<CwmsVerification>,
    pub asos_results: Vec<AsosVerification>,
    pub summary: VerificationSummary,
}

/// What a [`VerificationReport`] holds, as mathematical values.
pub struct VerificationReportView {
    pub timestamp: Seq<char>,
    pub usgs_results: Seq<UsgsVerificationView>,
    pub cwms_results: Seq<CwmsVerificationView>,
    pub asos_results: Seq<AsosVerificationView>,
    pub summary: VerificationSummary,
}

/// Mathematical form of a list of gauge checks.
pub open spec fn usgs_view(results: Seq<UsgsVerification>) -> Seq<UsgsVerificationView> {
    results.map_values(|r: UsgsVerification| r@)
}

/// Mathematical form of a list of location checks.
pub open spec fn cwms_view(results: Seq<CwmsVerification>) -> Seq<CwmsVerificationView> {
    results.map_values(|r: CwmsVerification| r@)
}

/// Mathematical form of a list of weather station checks.
pub open spec fn asos_view(results: Seq<AsosVerification>) -> Seq<AsosVerificationView> {
    results.map_values(|r: AsosVerification| r@)
}

impl View for VerificationReport {
    type V = VerificationReportView;

    open spec fn view(&self) -> VerificationReportView {
        VerificationReportView {
            timestamp: self.timestamp@,
            usgs_results: usgs_view(self.usgs_results@),
            cwms_results: cwms_view(self.cwms_results@),
            asos_results: asos_view(self.asos_results@),
            summary: self.summary,
        }
    }
}

/// How many of `statuses` are of sources that work.
pub open spec fn working_among(statuses: Seq<VerificationStatus>) -> nat
    decreases statuses.len(),
{
    if statuses.len() == 0 {
        0
    } else {
        working_among(statuses.drop_last()) + (if statuses.last().working() {
            1nat
        } else {
            0nat
        })
    }
}

/// How many of `statuses` are failures.
pub open spec fn failed_among(statuses: Seq<VerificationStatus>) -> nat
    decreases statuses.len(),
{
    if statuses.len() == 0 {
        0
    } else {
        failed_among(statuses.drop_last()) + (if statuses.last().working() {
            0nat
        } else {
            1nat
        })
    }
}

/// The states of the gauge checks, in order.
pub open spec fn usgs_statuses(results: Seq<UsgsVerificationView>) -> Seq<VerificationStatus> {
    results.map_values(|r: UsgsVerificationView| r.status)
}

/// The states of the location checks, in order.
pub open spec fn cwms_statuses(results: Seq<CwmsVerificationView>) -> Seq<VerificationStatus> {
    results.map_values(|r: CwmsVerificationView| r.status)
}

/// The states of the weather station checks, in order.
pub open spec fn asos_statuses(results: Seq<AsosVerificationView>) -> Seq<VerificationStatus> {
    results.map_values(|r: AsosVerificationView| r.status)
}

/// The counts of the given checks.
pub open spec fn summary_of(
    usgs: Seq<UsgsVerificationView>,
    cwms: Seq<CwmsVerificationView>,
    asos: Seq<AsosVerificationView>,
) -> VerificationSummary {
    VerificationSummary {
        usgs_total: usgs.len() as usize,
        usgs_working: working_among(usgs_statuses(usgs)) as usize,
        usgs_failed: failed_among(usgs_statuses(usgs)) as usize,
        cwms_total: cwms.len() as usize,
        cwms_working: working_among(cwms_statuses(cwms)) as usize,
        cwms_failed: failed_among(cwms_statuses(cwms)) as usize,
        asos_total: asos.len() as usize,
        asos_working: working_among(asos_statuses(asos)) as usize,
        asos_failed: failed_among(asos_statuses(asos)) as usize,
    }
}

/// The report of the given checks, begun at `timestamp`.
pub open spec fn report_of(
    timestamp: Seq<char>,
    usgs: Seq<UsgsVerificationView>,
    cwms: Seq<CwmsVerificationView>,
    asos: Seq<AsosVerificationView>,
) -> VerificationReportView {
    VerificationReportView {
        timestamp,
        usgs_results: usgs,
        cwms_results: cwms,
        asos_results: asos,
        summary: summary_of(usgs, cwms, asos),
    }
}

impl VerificationReportView {
    /// The counts are those of the checks that the report holds, and the
    /// lists are short enough to be held.
    pub open spec fn consistent(self) -> bool {
        &&& self.summary == summary_of(self.usgs_results, self.cwms_results, self.asos_results)
        &&& self.usgs_results.len() <= usize::MAX
        &&& self.cwms_results.len() <= usize::MAX
        &&& self.asos_results.len() <= usize::MAX
    }
}

/// Every status is counted once: as working or as failed.
pub proof fn lemma_working_plus_failed(statuses: Seq<VerificationStatus>)
    ensures
        working_among(statuses) + failed_among(statuses) == statuses.len(),
    decreases statuses.len(),
{
    if statuses.len() > 0 {
        lemma_working_plus_failed(statuses.drop_last());
    }
}

/// In a consistent report the total of each provider is the number of its
/// checks, and it is the sum of those that work and those that failed.
pub proof fn lemma_total_is_working_plus_failed(report: VerificationReportView)
    requires
        report.consistent(),
    ensures
        report.summary.usgs_total == report.usgs_results.len(),
        report.summary.cwms_total == report.cwms_results.len(),
        report.summary.asos_total == report.asos_results.len(),
        report.summary.usgs_total == report.summary.usgs_working + report.summary.usgs_failed,
        report.summary.cwms_total == report.summary.cwms_working + report.summary.cwms_failed,
        report.summary.asos_total == report.summary.asos_working + report.summary.asos_failed,
{
    lemma_working_plus_failed(usgs_statuses(report.usgs_results));
    lemma_working_plus_failed(cwms_statuses(report.cwms_results));
    lemma_working_plus_failed(asos_statuses(report.asos_results));
}

/// One more status adds one to the count that it belongs to.
pub proof fn lemma_count_one_more(statuses: Seq<VerificationStatus>, next: VerificationStatus)
    ensures
        working_among(statuses.push(next)) == working_among(statuses) + (if next.working() {
            1nat
        } else {
            0nat
        }),
        failed_among(statuses.push(next)) == failed_among(statuses) + (if next.working() {
            0nat
        } else {
            1nat
        }),
{
    assert(statuses.push(next).drop_last() =~= statuses);
}

/// How many of `statuses` are of sources that work, and how many are
/// failures.
pub fn tally(statuses: &Vec<VerificationStatus>) -> (r: (usize, usize))
    ensures
        r.0 == working_among(statuses@),
        r.1 == failed_among(statuses@),
        r.0 + r.1 == statuses@.len(),
{
    let mut working: usize = 0;
    let mut failed: usize = 0;
    let mut i: usize = 0;
    while i < statuses.len()
        invariant
            i <= statuses.len(),
            working == working_among(statuses@.take(i as int)),
            failed == failed_among(statuses@.take(i as int)),
            working + failed == i,
        decreases statuses.len() - i,
    {
        assert(statuses@.take(i + 1).drop_last() =~= statuses@.take(i as int));
        if statuses[i].is_working() {
            working += 1;
        } else {
            failed += 1;
        }
        i += 1;
    }
    assert(statuses@.take(i as int) =~= statuses@);
    (working, failed)
}

/// The states of the gauge checks, in order.
fn usgs_status_list(results: &Vec<UsgsVerification>) -> (r: Vec<VerificationStatus>)
    ensures
        r@ == usgs_statuses(usgs_view(results@)),
{
    let mut r: Vec<VerificationStatus> = Vec::new();
    let mut i: usize = 0;
    while i < results.len()
        invariant
            i <= results.len(),
            r@.len() == i,
            forall|k: int| 0 <= k < i ==> r@[k] == results@[k].status,
        decreases results.len() - i,
    {
        r.push(results[i].status);
        i += 1;
    }
    assert(r@ =~= usgs_statuses(usgs_view(results@)));
    r
}

/// The states of the location checks, in order.
fn cwms_status_list(results: &Vec<CwmsVerification>) -> (r: Vec<VerificationStatus>)
    ensures
        r@ == cwms_statuses(cwms_view(results@)),
{
    let mut r: Vec<VerificationStatus> = Vec::new();
    let mut i: usize = 0;
    while i < results.len()
        invariant
            i <= results.len(),
            r@.len() == i,
            forall|k: int| 0 <= k < i ==> r@[k] == results@[k].status,
        decreases results.len() - i,
    {
        r.push(results[i].status);
        i += 1;
    }
    assert(r@ =~= cwms_statuses(cwms_view(results@)));
    r
}

/// The states of the weather station checks, in order.
fn asos_status_list(results: &Vec<AsosVerification>) -> (r: Vec<VerificationStatus>)
    ensures
        r@ == asos_statuses(asos_view(results@)),
{
    let mut r: Vec<VerificationStatus> = Vec::new();
    let mut i: usize = 0;
    while i < results.len()
        invariant
            i <= results.len(),
            r@.len() == i,
            forall|k: int| 0 <= k < i ==> r@[k] == results@[k].status,
        decreases results.len() - i,
    {
        r.push(results[i].status);
        i += 1;
    }
    assert(r@ =~= asos_statuses(asos_view(results@)));
    r
}

impl VerificationReportView {
    /// The report with one more gauge check.
    pub open spec fn with_usgs(self, result: UsgsVerificationView) -> VerificationReportView {
        report_of(
            self.timestamp,
            self.usgs_results.push(result),
            self.cwms_results,
            self.asos_results,
        )
    }

    /// The report with one more location check.
    pub open spec fn with_cwms(self, result: CwmsVerificationView) -> VerificationReportView {
        report_of(
            self.timestamp,
            self.usgs_results,
            self.cwms_results.push(result),
            self.asos_results,
        )
    }

    /// The report with one more weather station check.
    pub open spec fn with_asos(self, result: AsosVerificationView) -> VerificationReportView {
        report_of(
            self.timestamp,
            self.usgs_results,
            self.cwms_results,
            self.asos_results.push(result),
        )
    }
}

impl VerificationReport {
    /// The report of a run that begins at `timestamp` and has checked
    /// nothing yet.
    pub fn new(timestamp: String) -> (r: VerificationReport)
        ensures
            r@ == report_of(timestamp@, Seq::empty(), Seq::empty(), Seq::empty()),
            r@.consistent(),
    {
        let r = VerificationReport {
            timestamp,
            usgs_results: Vec::new(),
            cwms_results: Vec::new(),
            asos_results: Vec::new(),
            summary: VerificationSummary {
                usgs_total: 0,
                usgs_working: 0,
                usgs_failed: 0,
                cwms_total: 0,
                cwms_working: 0,
                cwms_failed: 0,
                asos_total: 0,
                asos_working: 0,
                asos_failed: 0,
            },
        };
        assert(r@.usgs_results =~= Seq::empty());
        assert(r@.cwms_results =~= Seq::empty());
        assert(r@.asos_results =~= Seq::empty());
        assert(usgs_statuses(r@.usgs_results) =~= Seq::empty());
        assert(cwms_statuses(r@.cwms_results) =~= Seq::empty());
        assert(asos_statuses(r@.asos_results) =~= Seq::empty());
        r
    }

    /// Whether the counts are those of the checks that the report holds.
    pub fn is_consistent(&self) -> (r: bool)
        ensures
            r == self@.consistent(),
    {
        let (usgs_working, usgs_failed) = tally(&usgs_status_list(&self.usgs_results));
        let (cwms_working, cwms_failed) = tally(&cwms_status_list(&self.cwms_results));
        let (asos_working, asos_failed) = tally(&asos_status_list(&self.asos_results));
        self.summary.usgs_total == self.usgs_results.len() && self.summary.usgs_working
            == usgs_working && self.summary.usgs_failed == usgs_failed && self.summary.cwms_total
            == self.cwms_results.len() && self.summary.cwms_working == cwms_working
            && self.summary.cwms_failed == cwms_failed && self.summary.asos_total
            == self.asos_results.len() && self.summary.asos_working == asos_working
            && self.summary.asos_failed == asos_failed
    }

    /// Takes the check of one more river gauge into the report and counts
    /// it, whatever its state.
    pub fn record_usgs(&mut self, result: UsgsVerification)
        requires
            old(self)@.consistent(),
        ensures
            final(self)@ == old(self)@.with_usgs(result@),
            final(self)@.consistent(),
    {
        let ghost before = self@;
        let working = result.status.is_working();
        proof {
            lemma_count_one_more(usgs_statuses(before.usgs_results), result.status);
            lemma_working_plus_failed(usgs_statuses(before.usgs_results));
            lemma_working_plus_failed(usgs_statuses(before.usgs_results.push(result@)));
            assert(usgs_statuses(before.usgs_results.push(result@)) =~= usgs_statuses(
                before.usgs_results,
            ).push(result.status));
        }
        self.usgs_results.push(result);
        assert(usgs_view(self.usgs_results@) =~= before.usgs_results.push(result@));
        self.summary.usgs_total = self.usgs_results.len();
        if working {
            self.summary.usgs_working = self.summary.usgs_working + 1;
        } else {
            self.summary.usgs_failed = self.summary.usgs_failed + 1;
        }
    }

    /// Takes the check of one more reservoir or lock location into the
    /// report and counts it, whatever its state.
    pub fn record_cwms(&mut self, result: CwmsVerification)
        requires
            old(self)@.consistent(),
        ensures
            final(self)@ == old(self)@.with_cwms(result@),
            final(self)@.consistent(),
    {
        let ghost before = self@;
        let working = result.status.is_working();
        proof {
            lemma_count_one_more(cwms_statuses(before.cwms_results), result.status);
            lemma_working_plus_failed(cwms_statuses(before.cwms_results));
            lemma_working_plus_failed(cwms_statuses(before.cwms_results.push(result@)));
            assert(cwms_statuses(before.cwms_results.push(result@)) =~= cwms_statuses(
                before.cwms_results,
            ).push(result.status));
        }
        self.cwms_results.push(result);
        assert(cwms_view(self.cwms_results@) =~= before.cwms_results.push(result@));
        self.summary.cwms_total = self.cwms_results.len();
        if working {
            self.summary.cwms_working = self.summary.cwms_working + 1;
        } else {
            self.summary.cwms_failed = self.summary.cwms_failed + 1;
        }
    }

    /// Takes the check of one more weather station into the report and
    /// counts it, whatever its state.
    pub fn record_asos(&mut self, result: AsosVerification)
        requires
            old(self)@.consistent(),
        ensures
            final(self)@ == old(self)@.with_asos(result@),
            final(self)@.consistent(),
    {
        let ghost before = self@;
        let working = result.status.is_working();
        proof {
            lemma_count_one_more(asos_statuses(before.asos_results), result.status);
            lemma_working_plus_failed(asos_statuses(before.asos_results));
            lemma_working_plus_failed(asos_statuses(before.asos_results.push(result@)));
            assert(asos_statuses(before.asos_results.push(result@)) =~= asos_statuses(
                before.asos_results,
            ).push(result.status));
        }
        self.asos_results.push(result);
        assert(asos_view(self.asos_results@) =~= before.asos_results.push(result@));
        self.summary.asos_total = self.asos_results.len();
        if working {
            self.summary.asos_working = self.summary.asos_working + 1;
        } else {
            self.summary.asos_failed = self.summary.asos_failed + 1;
        }
    }
}


/// The note on a provider whose configuration could not be loaded, so that
/// none of its sources could be checked.
pub open spec fn unavailable_note(provider: Seq<char>, reason: Seq<char>) -> Seq<char> {
    "Warning: Could not load "@ + provider + " configuration: "@ + reason
}

/// The note on a provider whose configuration could not be loaded.
/// `provider` names it, `reason` tells why the loading failed.
pub fn configuration_note(provider: &str, reason: &str) -> (r: String)
    ensures
        r@ == unavailable_note(provider@, reason@),
{
    let mut out = String::from_str("Warning: Could not load ");
    out.append(provider);
    out.append(" configuration: ");
    out.append(reason);
    out
}

/// Mathematical form of the location checks of a run: the checks, or why
/// there are none.
pub open spec fn cwms_run_view(run: Result<Vec<CwmsVerification>, String>) -> Result<
    Seq<CwmsVerificationView>,
    Seq<char>,
> {
    match run {
        Ok(results) => Ok(cwms_view(results@)),
        Err(e) => Err(e@),
    }
}

/// Mathematical form of the weather station checks of a run: the checks, or
/// why there are none.
pub open spec fn asos_run_view(run: Result<Vec<AsosVerification>, String>) -> Result<
    Seq<AsosVerificationView>,
    Seq<char>,
> {
    match run {
        Ok(results) => Ok(asos_view(results@)),
        Err(e) => Err(e@),
    }
}

/// The location checks that go into the report: none where the
/// configuration could not be loaded.
pub open spec fn cwms_reported(run: Result<Seq<CwmsVerificationView>, Seq<char>>) -> Seq<
    CwmsVerificationView,
> {
    match run {
        Ok(results) => results,
        Err(_) => Seq::empty(),
    }
}

/// The weather station checks that go into the report: none where the
/// configuration could not be loaded.
pub open spec fn asos_reported(run: Result<Seq<AsosVerificationView>, Seq<char>>) -> Seq<
    AsosVerificationView,
> {
    match run {
        Ok(results) => results,
        Err(_) => Seq::empty(),
    }
}

/// The notes of a run: one for each provider whose configuration could not
/// be loaded, the locations before the weather stations.
pub open spec fn run_notes(
    cwms: Result<Seq<CwmsVerificationView>, Seq<char>>,
    asos: Result<Seq<AsosVerificationView>, Seq<char>>,
) -> Seq<Seq<char>> {
    (match cwms {
        Ok(_) => Seq::empty(),
        Err(e) => seq![unavailable_note("CWMS"@, e)],
    }) + (match asos {
        Ok(_) => Seq::empty(),
        Err(e) => seq![unavailable_note("ASOS"@, e)],
    })
}

/// Puts the checks of one run together into its report.
///
/// `usgs` are the checks of the river gauges. `cwms` and `asos` are the
/// checks of the locations and of the weather stations, or the reason why
/// their configuration could not be loaded: such a provider is reported with
/// no checks and a count of zero, and a note tells of it. Every check is in
/// the report at its place, whatever its state, and each is counted once.
pub fn run_full_verification(
    timestamp: String,
    usgs: Vec<UsgsVerification>,
    cwms: Result<Vec<CwmsVerification>, String>,
    asos: Result<Vec<AsosVerification>, String>,
) -> (r: (VerificationReport, Vec<String>))
    ensures
        r.0@ == report_of(
            timestamp@,
            usgs_view(usgs@),
            cwms_reported(cwms_run_view(cwms)),
            asos_reported(asos_run_view(asos)),
        ),
        r.0@.consistent(),
        strings_view(r.1@) == run_notes(cwms_run_view(cwms), asos_run_view(asos)),
{
    let mut notes: Vec<String> = Vec::new();
    let cwms_results = match cwms {
        Ok(results) => results,
        Err(e) => {
            notes.push(configuration_note("CWMS", e.as_str()));
            let none: Vec<CwmsVerification> = Vec::new();
            assert(cwms_view(none@) =~= Seq::<CwmsVerificationView>::empty());
            none
        },
    };
    let asos_results = match asos {
        Ok(results) => results,
        Err(e) => {
            notes.push(configuration_note("ASOS", e.as_str()));
            let none: Vec<AsosVerification> = Vec::new();
            assert(asos_view(none@) =~= Seq::<AsosVerificationView>::empty());
            none
        },
    };
    assert(strings_view(notes@) =~= run_notes(cwms_run_view(cwms), asos_run_view(asos)));
    let (usgs_working, usgs_failed) = tally(&usgs_status_list(&usgs));
    let (cwms_working, cwms_failed) = tally(&cwms_status_list(&cwms_results));
    let (asos_working, asos_failed) = tally(&asos_status_list(&asos_results));
    let report = VerificationReport {
        timestamp,
        summary: VerificationSummary {
            usgs_total: usgs.len(),
            usgs_working,
            usgs_failed,
            cwms_total: cwms_results.len(),
            cwms_working,
            cwms_failed,
            asos_total: asos_results.len(),
            asos_working,
            asos_failed,
        },
        usgs_results: usgs,
        cwms_results,
        asos_results,
    };
    (report, notes)
}

impl VerificationSummary {
    /// The number of sources of all providers that work.
    pub open spec fn all_working(self) -> nat {
        (self.usgs_working + self.cwms_working + self.asos_working) as nat
    }

    /// The number of sources of all providers that were checked.
    pub open spec fn all_checked(self) -> nat {
        (self.usgs_total + self.cwms_total + self.asos_total) as nat
    }

    /// The number of sources of all providers that work.
    pub fn total_working(&self) -> (r: u128)
        ensures
            r == self.all_working(),
    {
        (self.usgs_working as u128) + (self.cwms_working as u128) + (self.asos_working as u128)
    }

    /// The number of sources of all providers that were checked.
    pub fn total_checked(&self) -> (r: u128)
        ensures
            r == self.all_checked(),
    {
        (self.usgs_total as u128) + (self.cwms_total as u128) + (self.asos_total as u128)
    }
}

/// In a consistent report no more sources work than were checked.
pub proof fn lemma_working_within_checked(report: VerificationReportView)
    requires
        report.consistent(),
    ensures
        report.summary.all_working() <= report.summary.all_checked(),
{
    lemma_total_is_working_plus_failed(report);
}

/// Every check of a run is in its report at its place, whether it failed or
/// not, and the total of each provider is the number of its checks.
pub proof fn lemma_every_check_reported(
    timestamp: Seq<char>,
    usgs: Seq<UsgsVerificationView>,
    cwms: Seq<CwmsVerificationView>,
    asos: Seq<AsosVerificationView>,
)
    requires
        usgs.len() <= usize::MAX,
        cwms.len() <= usize::MAX,
        asos.len() <= usize::MAX,
    ensures
        report_of(timestamp, usgs, cwms, asos).consistent(),
        report_of(timestamp, usgs, cwms, asos).usgs_results == usgs,
        report_of(timestamp, usgs, cwms, asos).cwms_results == cwms,
        report_of(timestamp, usgs, cwms, asos).asos_results == asos,
        report_of(timestamp, usgs, cwms, asos).summary.usgs_total == usgs.len(),
        report_of(timestamp, usgs, cwms, asos).summary.cwms_total == cwms.len(),
        report_of(timestamp, usgs, cwms, asos).summary.asos_total == asos.len(),
{
}

/// A check that failed changes nothing about the checks before it: the
/// report with one more check holds all the earlier ones unchanged.
pub proof fn lemma_failure_keeps_others(report: VerificationReportView, failed: UsgsVerificationView, i: int)
    requires
        0 <= i < report.usgs_results.len(),
    ensures
        report.with_usgs(failed).usgs_results[i] == report.usgs_results[i],
        report.with_usgs(failed).usgs_results.len() == report.usgs_results.len() + 1,
        report.with_usgs(failed).cwms_results == report.cwms_results,
        report.with_usgs(failed).asos_results == report.asos_results,
{
}

} // verus!
