//! The station registry: which gauge stations are monitored, what each is
//! expected to report, and its flood stages where it has any.
//!
//! A registry is built once, checked as it is built, and read from then on. A
//! site code that is not in it is not monitored.

use crate::model::{Decimal, FloodThresholds, ThresholdsView, PARAM_DISCHARGE, PARAM_STAGE};
use crate::text::{lists_text, same_text};
use vstd::prelude::*;

verus! {

/// One gauge station.
#[derive(Debug, PartialEq)]
pub struct Station {
    /// Site code: eight digits.
    pub site_code: &'static str,
    /// Official name of the site.
    pub name: &'static str,
    /// What the station is watched for.
    pub description: &'static str,
    /// Latitude, in degrees north.
    pub latitude: Decimal,
    /// Longitude, in degrees east.
    pub longitude: Decimal,
    /// Flood stages, where they are defined for the station.
    pub thresholds: Option<FloodThresholds>,
    /// The parameter codes that the station is expected to report.
    pub expected_parameters: Vec<&'static str>,
}

/// What a [`Station`] holds, as mathematical values.
pub struct StationView {
    pub site_code: Seq<char>,
    pub name: Seq<char>,
    pub description: Seq<char>,
    pub latitude: int,
    pub longitude: int,
    pub thresholds: Option<ThresholdsView>,
    pub expected_parameters: Seq<Seq<char>>,
}

/// Mathematical form of optional flood stages.
pub open spec fn thresholds_view(t: Option<FloodThresholds>) -> Option<ThresholdsView> {
    match t {
        Some(x) => Some(x@),
        None => None,
    }
}

impl View for Station {
    type V = StationView;

    open spec fn view(&self) -> StationView {
        StationView {
            site_code: self.site_code@,
            name: self.name@,
            description: self.description@,
            latitude: self.latitude@,
            longitude: self.longitude@,
            thresholds: thresholds_view(self.thresholds),
            expected_parameters: self.expected_parameters@.map_values(|p: &'static str| p@),
        }
    }
}

impl Clone for Station {
    fn clone(&self) -> (r: Self)
        ensures
            r@ == self@,
    {
        let mut expected_parameters: Vec<&'static str> = Vec::new();
        let mut i: usize = 0;
        while i < self.expected_parameters.len()
            invariant
                i <= self.expected_parameters.len(),
                expected_parameters@ == self.expected_parameters@.take(i as int),
            decreases self.expected_parameters.len() - i,
        {
            expected_parameters.push(self.expected_parameters[i]);
            assert(self.expected_parameters@.take(i + 1) =~= self.expected_parameters@.take(
                i as int,
            ).push(self.expected_parameters@[i as int]));
            i += 1;
        }
        assert(expected_parameters@ =~= self.expected_parameters@);
        Station {
            site_code: self.site_code,
            name: self.name,
            description: self.description,
            latitude: self.latitude,
            longitude: self.longitude,
            thresholds: self.thresholds,
            expected_parameters,
        }
    }
}

impl Station {
    /// Whether the station is expected to report `param_code`.
    pub fn expects(&self, param_code: &str) -> (r: bool)
        ensures
            r == lists_text(self@.expected_parameters, param_code@),
    {
        let mut i: usize = 0;
        while i < self.expected_parameters.len()
            invariant
                i <= self.expected_parameters.len(),
                forall|k: int| 0 <= k < i ==> self@.expected_parameters[k] != param_code@,
            decreases self.expected_parameters.len() - i,
        {
            if same_text(self.expected_parameters[i], param_code) {
                assert(self@.expected_parameters[i as int] == param_code@);
                return true;
            }
            i += 1;
        }
        false
    }
}

/// Mathematical form of a list of stations.
pub open spec fn stations_view(stations: Seq<Station>) -> Seq<StationView> {
    stations.map_values(|s: Station| s@)
}

/// No two stations share a site code.
pub open spec fn unique_codes(stations: Seq<StationView>) -> bool {
    forall|i: int, j: int|
        0 <= i < j < stations.len() ==> (#[trigger] stations[i]).site_code != (
        #[trigger] stations[j]).site_code
}

/// The station expects at least one parameter, and its flood stages, where it
/// has any, rise from action to major.
pub open spec fn station_sound(s: StationView) -> bool {
    &&& s.expected_parameters.len() >= 1
    &&& s.thresholds matches Some(t) ==> t.ascending()
}

/// What holds of every registry: site codes are unique, and every station is
/// sound.
pub open spec fn registry_sound(stations: Seq<StationView>) -> bool {
    &&& unique_codes(stations)
    &&& forall|i: int| 0 <= i < stations.len() ==> station_sound(#[trigger] stations[i])
}

/// Why a list of stations is refused as a registry. Each fault names the
/// station by its place in the list, counted from 0.
#[derive(Debug, Clone, Copy, PartialEq, Eq, Structural)]
pub enum RegistryError {
    /// The station expects no parameter at all.
    NoExpectedParameters { index: usize },
    /// The station's flood stages do not rise from action to major.
    ThresholdsNotAscending { index: usize },
    /// The station at `second` has the site code of the one at `first`.
    DuplicateSiteCode { first: usize, second: usize },
}

/// `i` is the first place in `stations` that holds the site code `code`.
pub open spec fn first_with_code(stations: Seq<StationView>, code: Seq<char>, i: int) -> bool {
    &&& 0 <= i < stations.len()
    &&& stations[i].site_code == code
    &&& forall|k: int| 0 <= k < i ==> (#[trigger] stations[k]).site_code != code
}

/// The first place in `stations` that holds the site code `code`, if any does.
pub open spec fn position_of(stations: Seq<StationView>, code: Seq<char>) -> Option<int> {
    if exists|i: int| first_with_code(stations, code, i) {
        Some(choose|i: int| first_with_code(stations, code, i))
    } else {
        None
    }
}

/// The station of `stations` with the site code `code`, if there is one.
pub open spec fn lookup(stations: Seq<StationView>, code: Seq<char>) -> Option<StationView> {
    match position_of(stations, code) {
        Some(i) => Some(stations[i]),
        None => None,
    }
}

/// The fault of the station at place `i`, judged with those before it: that
/// it expects no parameter; else that its flood stages do not rise; else that
/// an earlier station has its site code.
pub open spec fn fault_at(stations: Seq<StationView>, i: int) -> Option<RegistryError> {
    if stations[i].expected_parameters.len() == 0 {
        Some(RegistryError::NoExpectedParameters { index: i as usize })
    } else if stations[i].thresholds is Some && !stations[i].thresholds->0.ascending() {
        Some(RegistryError::ThresholdsNotAscending { index: i as usize })
    } else {
        match position_of(stations.take(i), stations[i].site_code) {
            Some(j) => Some(RegistryError::DuplicateSiteCode { first: j as usize, second: i as usize }),
            None => None,
        }
    }
}

/// `i` is the first place in `stations` with a fault.
pub open spec fn first_fault_at(stations: Seq<StationView>, i: int) -> bool {
    &&& 0 <= i < stations.len()
    &&& fault_at(stations, i) is Some
    &&& forall|k: int| 0 <= k < i ==> #[trigger] fault_at(stations, k) is None
}

/// The first fault of `stations`, going through the list in order, if it has
/// one.
pub open spec fn registry_fault(stations: Seq<StationView>) -> Option<RegistryError> {
    if exists|i: int| first_fault_at(stations, i) {
        fault_at(stations, choose|i: int| first_fault_at(stations, i))
    } else {
        None
    }
}

/// The site codes of `stations`, in order.
pub open spec fn codes_of(stations: Seq<StationView>) -> Seq<Seq<char>> {
    stations.map_values(|s: StationView| s.site_code)
}

/// The stations of `stations` that expect `param`, in order.
pub open spec fn expecting(stations: Seq<StationView>, param: Seq<char>) -> Seq<StationView> {
    stations.filter(|s: StationView| lists_text(s.expected_parameters, param))
}

/// Mathematical form of a list of site codes.
pub open spec fn codes_view(codes: Seq<&'static str>) -> Seq<Seq<char>> {
    codes.map_values(|c: &'static str| c@)
}

/// Where `i` is the first place with the code, `position_of` gives `i`.
pub proof fn lemma_position_found(stations: Seq<StationView>, code: Seq<char>, i: int)
    requires
        first_with_code(stations, code, i),
    ensures
        position_of(stations, code) == Some(i),
{
    let j = choose|j: int| first_with_code(stations, code, j);
    assert(first_with_code(stations, code, j));
    if j < i {
        assert(stations[j].site_code != code);
    }
    if i < j {
        assert(stations[i].site_code != code);
    }
}

/// Where no place holds the code, `position_of` gives none; and where it
/// gives none, no place holds the code.
pub proof fn lemma_position_absent(stations: Seq<StationView>, code: Seq<char>)
    ensures
        position_of(stations, code) is None <==> forall|k: int|
            0 <= k < stations.len() ==> (#[trigger] stations[k]).site_code != code,
{
    if forall|k: int| 0 <= k < stations.len() ==> (#[trigger] stations[k]).site_code != code {
        if exists|i: int| first_with_code(stations, code, i) {
            let i = choose|i: int| first_with_code(stations, code, i);
            assert(stations[i].site_code == code);
        }
    } else {
        let k = choose|k: int| 0 <= k < stations.len() && (#[trigger] stations[k]).site_code == code;
        lemma_some_first(stations, code, k);
    }
}

/// Where some place up to `k` holds the code, a first such place exists.
proof fn lemma_some_first(stations: Seq<StationView>, code: Seq<char>, k: int)
    requires
        0 <= k < stations.len(),
        stations[k].site_code == code,
    ensures
        exists|i: int| first_with_code(stations, code, i),
    decreases k,
{
    if forall|j: int| 0 <= j < k ==> (#[trigger] stations[j]).site_code != code {
        assert(first_with_code(stations, code, k));
    } else {
        let j = choose|j: int| 0 <= j < k && (#[trigger] stations[j]).site_code == code;
        lemma_some_first(stations, code, j);
    }
}

/// A list of stations is sound exactly when it has no fault.
pub proof fn lemma_sound_iff_no_fault(stations: Seq<StationView>)
    ensures
        registry_sound(stations) <==> registry_fault(stations) is None,
{
    if registry_sound(stations) {
        assert forall|i: int| 0 <= i < stations.len() implies fault_at(stations, i) is None by {
            assert(station_sound(stations[i]));
            lemma_position_absent(stations.take(i), stations[i].site_code);
            assert forall|k: int| 0 <= k < stations.take(i).len() implies (
            #[trigger] stations.take(i)[k]).site_code != stations[i].site_code by {
                assert(stations.take(i)[k] == stations[k]);
            }
        }
    } else {
        lemma_unsound_has_fault(stations);
        let k = choose|k: int| 0 <= k < stations.len() && fault_at(stations, k) is Some;
        lemma_some_first_fault(stations, k);
        let i = choose|i: int| first_fault_at(stations, i);
        assert(fault_at(stations, i) is Some);
    }
}

/// A list that is not sound has a fault at some place.
proof fn lemma_unsound_has_fault(stations: Seq<StationView>)
    requires
        !registry_sound(stations),
    ensures
        exists|k: int| 0 <= k < stations.len() && fault_at(stations, k) is Some,
{
    if !unique_codes(stations) {
        let (i, j) = choose|i: int, j: int|
            0 <= i < j < stations.len() && (#[trigger] stations[i]).site_code == (
            #[trigger] stations[j]).site_code;
        assert(stations.take(j)[i] == stations[i]);
        lemma_position_absent(stations.take(j), stations[j].site_code);
        assert(fault_at(stations, j) is Some);
    } else {
        let i = choose|i: int| 0 <= i < stations.len() && !station_sound(#[trigger] stations[i]);
        assert(fault_at(stations, i) is Some);
    }
}

/// Where the place `k` has a fault, a first place with a fault exists.
proof fn lemma_some_first_fault(stations: Seq<StationView>, k: int)
    requires
        0 <= k < stations.len(),
        fault_at(stations, k) is Some,
    ensures
        exists|i: int| first_fault_at(stations, i),
    decreases k,
{
    if forall|j: int| 0 <= j < k ==> #[trigger] fault_at(stations, j) is None {
        assert(first_fault_at(stations, k));
    } else {
        let j = choose|j: int| 0 <= j < k && #[trigger] fault_at(stations, j) is Some;
        lemma_some_first_fault(stations, j);
    }
}

/// Where `i` is the first place with a fault, `registry_fault` is that fault.
pub proof fn lemma_fault_found(stations: Seq<StationView>, i: int)
    requires
        first_fault_at(stations, i),
    ensures
        registry_fault(stations) == fault_at(stations, i),
{
    let j = choose|j: int| first_fault_at(stations, j);
    assert(first_fault_at(stations, j));
    if j < i {
        assert(fault_at(stations, j) is None);
    }
    if i < j {
        assert(fault_at(stations, i) is None);
    }
}


/// Mathematical form of an optional station.
pub open spec fn station_view(s: Option<Station>) -> Option<StationView> {
    match s {
        Some(x) => Some(x@),
        None => None,
    }
}

/// Mathematical form of an optional borrowed station.
pub open spec fn station_ref_view(s: Option<&Station>) -> Option<StationView> {
    match s {
        Some(x) => Some(x@),
        None => None,
    }
}

/// The first place among the first `upto` stations that holds the site code
/// `code`, if any does.
fn position_among(stations: &Vec<Station>, upto: usize, code: &str) -> (r: Option<usize>)
    requires
        upto <= stations.len(),
    ensures
        match r {
            Some(i) => position_of(stations_view(stations@).take(upto as int), code@) == Some(
                i as int,
            ) && i < upto,
            None => position_of(stations_view(stations@).take(upto as int), code@) is None,
        },
{
    let ghost head = stations_view(stations@).take(upto as int);
    let mut i: usize = 0;
    while i < upto
        invariant
            i <= upto <= stations.len(),
            head == stations_view(stations@).take(upto as int),
            forall|k: int| 0 <= k < i ==> (#[trigger] head[k]).site_code != code@,
        decreases upto - i,
    {
        if same_text(stations[i].site_code, code) {
            proof {
                assert(head[i as int] == stations@[i as int]@);
                lemma_position_found(head, code@, i as int);
            }
            return Some(i);
        }
        assert(head[i as int] == stations@[i as int]@);
        i += 1;
    }
    proof {
        lemma_position_absent(head, code@);
    }
    None
}

/// The fault of the station at place `i`, judged with those before it.
fn fault_of(stations: &Vec<Station>, i: usize) -> (r: Option<RegistryError>)
    requires
        i < stations.len(),
    ensures
        r == fault_at(stations_view(stations@), i as int),
{
    let station = &stations[i];
    assert(stations_view(stations@)[i as int] == station@);
    if station.expected_parameters.len() == 0 {
        return Some(RegistryError::NoExpectedParameters { index: i });
    }
    match &station.thresholds {
        Some(t) => {
            if !t.is_ascending() {
                return Some(RegistryError::ThresholdsNotAscending { index: i });
            }
        },
        None => {},
    }
    match position_among(stations, i, station.site_code) {
        Some(j) => Some(RegistryError::DuplicateSiteCode { first: j, second: i }),
        None => None,
    }
}

/// A checked list of stations.
///
/// Every registry is sound: no two of its stations share a site code, each
/// expects at least one parameter, and flood stages, where a station has
/// them, rise from action to major.
pub struct StationRegistry {
    stations: Vec<Station>,
}

impl View for StationRegistry {
    type V = Seq<StationView>;

    /// The stations of the registry, in order.
    closed spec fn view(&self) -> Seq<StationView> {
        stations_view(self.stations@)
    }
}

impl StationRegistry {
    #[verifier::type_invariant]
    spec fn sound(&self) -> bool {
        registry_sound(stations_view(self.stations@))
    }

    /// Makes a registry of `stations`, or tells the first fault that keeps
    /// them from being one: a station that expects no parameter, flood stages
    /// that do not rise, or a site code that an earlier station has.
    pub fn new(stations: Vec<Station>) -> (r: Result<StationRegistry, RegistryError>)
        ensures
            r is Ok <==> registry_sound(stations_view(stations@)),
            match r {
                Ok(registry) => registry@ == stations_view(stations@),
                Err(e) => registry_fault(stations_view(stations@)) == Some(e),
            },
    {
        let ghost all = stations_view(stations@);
        let mut i: usize = 0;
        while i < stations.len()
            invariant
                i <= stations.len(),
                all == stations_view(stations@),
                forall|k: int| 0 <= k < i ==> #[trigger] fault_at(all, k) is None,
            decreases stations.len() - i,
        {
            match fault_of(&stations, i) {
                Some(e) => {
                    proof {
                        lemma_fault_found(all, i as int);
                        lemma_sound_iff_no_fault(all);
                    }
                    return Err(e);
                },
                None => {},
            }
            i += 1;
        }
        proof {
            if exists|k: int| first_fault_at(all, k) {
                let k = choose|k: int| first_fault_at(all, k);
                assert(fault_at(all, k) is None);
            }
            lemma_sound_iff_no_fault(all);
        }
        Ok(StationRegistry { stations })
    }

    /// The stations of the registry, in order.
    pub fn stations(&self) -> (r: &Vec<Station>)
        ensures
            stations_view(r@) == self@,
            registry_sound(self@),
    {
        proof {
            use_type_invariant(self);
        }
        &self.stations
    }

    /// The station with the site code `site_code`, or `None` where the
    /// registry has none: such a site is not monitored.
    pub fn find(&self, site_code: &str) -> (r: Option<&Station>)
        ensures
            station_ref_view(r) == lookup(self@, site_code@),
    {
        assert(stations_view(self.stations@).take(self.stations@.len() as int) =~= stations_view(
            self.stations@,
        ));
        match position_among(&self.stations, self.stations.len(), site_code) {
            Some(i) => {
                assert(stations_view(self.stations@)[i as int] == self.stations@[i as int]@);
                Some(&self.stations[i])
            },
            None => None,
        }
    }

    /// The site codes of all stations, in the order of the registry.
    pub fn site_codes(&self) -> (r: Vec<&'static str>)
        ensures
            codes_view(r@) == codes_of(self@),
    {
        let mut out: Vec<&'static str> = Vec::new();
        let mut i: usize = 0;
        while i < self.stations.len()
            invariant
                i <= self.stations.len(),
                out@.len() == i,
                forall|k: int| 0 <= k < i ==> (#[trigger] out@[k])@ == self.stations@[k]@.site_code,
            decreases self.stations.len() - i,
        {
            out.push(self.stations[i].site_code);
            i += 1;
        }
        assert(codes_view(out@) =~= codes_of(self@));
        out
    }

    /// The site codes of the stations that are expected to report
    /// `param_code`, in the order of the registry.
    pub fn sites_with_parameter(&self, param_code: &str) -> (r: Vec<&'static str>)
        ensures
            codes_view(r@) == codes_of(expecting(self@, param_code@)),
    {
        let ghost all = stations_view(self.stations@);
        let mut out: Vec<&'static str> = Vec::new();
        let mut i: usize = 0;
        assert(all.take(0) =~= Seq::<StationView>::empty());
        assert(codes_view(out@) =~= codes_of(expecting(all.take(0), param_code@))) by {
            reveal(Seq::filter);
        }
        while i < self.stations.len()
            invariant
                i <= self.stations.len(),
                all == stations_view(self.stations@),
                codes_view(out@) == codes_of(expecting(all.take(i as int), param_code@)),
            decreases self.stations.len() - i,
        {
            let ghost before = out@;
            let station = &self.stations[i];
            let wanted = station.expects(param_code);
            if wanted {
                out.push(station.site_code);
            }
            proof {
                reveal(Seq::filter);
                assert(all.take(i + 1).drop_last() =~= all.take(i as int));
                assert(all.take(i + 1).last() == station@);
                if wanted {
                    assert(codes_view(out@) =~= codes_view(before).push(station@.site_code));
                    assert(codes_of(expecting(all.take(i + 1), param_code@)) =~= codes_of(
                        expecting(all.take(i as int), param_code@),
                    ).push(station@.site_code));
                }
            }
            i += 1;
        }
        assert(all.take(i as int) =~= all);
        out
    }

    /// Whether the station with the site code `site_code` is expected to
    /// report `param_code`. A site that is not in the registry expects
    /// nothing.
    pub fn has_parameter(&self, site_code: &str, param_code: &str) -> (r: bool)
        ensures
            r == expects_parameter(self@, site_code@, param_code@),
    {
        match self.find(site_code) {
            Some(station) => station.expects(param_code),
            None => false,
        }
    }
}

/// The station with the site code `site` is in `stations` and expects
/// `param`.
pub open spec fn expects_parameter(stations: Seq<StationView>, site: Seq<char>, param: Seq<char>) -> bool {
    match lookup(stations, site) {
        Some(s) => lists_text(s.expected_parameters, param),
        None => false,
    }
}

/// A site is among the sites that expect a parameter exactly when it is in
/// the registry and expects that parameter.
pub proof fn lemma_listed_iff_expected(stations: Seq<StationView>, site: Seq<char>, param: Seq<char>)
    requires
        registry_sound(stations),
    ensures
        lists_text(codes_of(expecting(stations, param)), site) <==> expects_parameter(
            stations,
            site,
            param,
        ),
{
    let pred = |s: StationView| lists_text(s.expected_parameters, param);
    let kept = expecting(stations, param);
    if lists_text(codes_of(kept), site) {
        let i = choose|i: int| 0 <= i < codes_of(kept).len() && codes_of(kept)[i] == site;
        assert(kept[i].site_code == site);
        stations.lemma_filter_pred(pred, i);
        assert(kept.contains(kept[i]));
        stations.lemma_filter_contains_rev(pred, kept[i]);
        let k = choose|k: int| 0 <= k < stations.len() && stations[k] == kept[i];
        lemma_unique_position(stations, k);
    }
    if expects_parameter(stations, site, param) {
        let k = position_of(stations, site)->0;
        assert(first_with_code(stations, site, k));
        stations.lemma_filter_contains(pred, k);
        assert(kept.contains(stations[k]));
        let i = choose|i: int| 0 <= i < kept.len() && kept[i] == stations[k];
        assert(codes_of(kept)[i] == site);
    }
}

/// In a registry with unique site codes, each station is the one that its
/// site code looks up.
pub proof fn lemma_unique_position(stations: Seq<StationView>, k: int)
    requires
        unique_codes(stations),
        0 <= k < stations.len(),
    ensures
        position_of(stations, stations[k].site_code) == Some(k),
        lookup(stations, stations[k].site_code) == Some(stations[k]),
{
    assert(first_with_code(stations, stations[k].site_code, k));
    lemma_position_found(stations, stations[k].site_code, k);
}


// The stations that are watched for flood risk at Peoria, from the main stem
// downstream to the tributaries. Site codes are those of the gauge service;
// flood stages are the official ones, in feet.
/// Site code of the station at Kingston Mines.
pub const KINGSTON_MINES: &'static str = "05568500";

/// Official name of the station at Kingston Mines.
pub const KINGSTON_MINES_NAME: &'static str = "Illinois River at Kingston Mines, IL";

/// What the station at Kingston Mines is watched for.
pub const KINGSTON_MINES_ABOUT: &'static str =
    "Primary downstream reference gauge just below Peoria. Use for current flood status at the property.";

/// Site code of the station at Peoria.
pub const PEORIA: &'static str = "05567500";

/// Official name of the station at Peoria.
pub const PEORIA_NAME: &'static str = "Illinois River at Peoria, IL";

/// What the station at Peoria is watched for.
pub const PEORIA_ABOUT: &'static str =
    "Pool gauge at Peoria Lock & Dam. Reflects managed pool level rather than free-flowing stage; use Kingston Mines for flood stage comparisons.";

/// Site code of the station at Chillicothe.
pub const CHILLICOTHE: &'static str = "05568000";

/// Official name of the station at Chillicothe.
pub const CHILLICOTHE_NAME: &'static str = "Illinois River at Chillicothe, IL";

/// What the station at Chillicothe is watched for.
pub const CHILLICOTHE_ABOUT: &'static str =
    "Upstream warning station ~20 miles north of Peoria. Rising stage here typically leads Peoria by 6\u{2013}12 hours.";

/// Site code of the station at Henry.
pub const HENRY: &'static str = "05557000";

/// Official name of the station at Henry.
pub const HENRY_NAME: &'static str = "Illinois River at Henry, IL";

/// What the station at Henry is watched for.
pub const HENRY_ABOUT: &'static str =
    "Early warning station ~50 miles upstream. Stage here leads Peoria by 12\u{2013}24 hours under typical flow.";

/// Site code of the station at Mackinaw.
pub const MACKINAW: &'static str = "05568580";

/// Official name of the station at Mackinaw.
pub const MACKINAW_NAME: &'static str = "Mackinaw River near Green Valley, IL";

/// What the station at Mackinaw is watched for.
pub const MACKINAW_ABOUT: &'static str =
    "Critical local tributary joining the Illinois near Pekin, just south of Peoria. Responds quickly to rainfall; a rising Mackinaw is a strong short-term flood precursor.";

/// Site code of the station at Spoon.
pub const SPOON: &'static str = "05570000";

/// Official name of the station at Spoon.
pub const SPOON_NAME: &'static str = "Spoon River at Seville, IL";

/// What the station at Spoon is watched for.
pub const SPOON_ABOUT: &'static str =
    "Upstream tributary joining the Illinois above Havana. Less directly coupled to Peoria than the Mackinaw but contributes to overall basin load.";

/// Site code of the station at Marseilles.
pub const MARSEILLES: &'static str = "05552500";

/// Official name of the station at Marseilles.
pub const MARSEILLES_NAME: &'static str = "Illinois River at Marseilles, IL";

/// What the station at Marseilles is watched for.
pub const MARSEILLES_ABOUT: &'static str =
    "Main stem gauge near Starved Rock L&D, ~80 miles upstream. Provides earliest main-stem warning; stage here leads Peoria by roughly 24\u{2013}48 hours.";

/// Site code of the station at Romeoville.
pub const ROMEOVILLE: &'static str = "05536890";

/// Official name of the station at Romeoville.
pub const ROMEOVILLE_NAME: &'static str = "Chicago Sanitary & Ship Canal at Romeoville, IL";

/// What the station at Romeoville is watched for.
pub const ROMEOVILLE_ABOUT: &'static str =
    "Monitors flow from the Chicago metro area entering the Illinois River system. Tracks MWRD releases during heavy rain events, which can spike main-stem flows significantly.";

/// Flood stages given in whole feet.
pub open spec fn stages_ft(action: int, flood: int, moderate: int, major: int) -> ThresholdsView {
    ThresholdsView {
        action: action * 1_000_000,
        flood: flood * 1_000_000,
        moderate: moderate * 1_000_000,
        major: major * 1_000_000,
    }
}

/// The stations watched for flood risk at Peoria: the main stem of the
/// Illinois River from Kingston Mines up to Marseilles, the Mackinaw and
/// Spoon tributaries, and the canal at Romeoville.
pub open spec fn peoria_basin_stations() -> Seq<StationView> {
    seq![
        StationView {
            site_code: KINGSTON_MINES@,
            name: KINGSTON_MINES_NAME@,
            description: KINGSTON_MINES_ABOUT@,
            latitude: 40_561_400,
            longitude: -89_995_600,
            thresholds: Some(stages_ft(14, 16, 20, 24)),
            expected_parameters: seq![PARAM_DISCHARGE@, PARAM_STAGE@],
        },
        StationView {
            site_code: PEORIA@,
            name: PEORIA_NAME@,
            description: PEORIA_ABOUT@,
            latitude: 40_693_900,
            longitude: -89_589_800,
            thresholds: None,
            expected_parameters: seq![PARAM_DISCHARGE@, PARAM_STAGE@],
        },
        StationView {
            site_code: CHILLICOTHE@,
            name: CHILLICOTHE_NAME@,
            description: CHILLICOTHE_ABOUT@,
            latitude: 40_920_000,
            longitude: -89_485_400,
            thresholds: Some(stages_ft(13, 15, 19, 23)),
            expected_parameters: seq![PARAM_DISCHARGE@, PARAM_STAGE@],
        },
        StationView {
            site_code: HENRY@,
            name: HENRY_NAME@,
            description: HENRY_ABOUT@,
            latitude: 41_112_000,
            longitude: -89_354_000,
            thresholds: Some(stages_ft(13, 15, 19, 22)),
            expected_parameters: seq![PARAM_DISCHARGE@, PARAM_STAGE@],
        },
        StationView {
            site_code: MACKINAW@,
            name: MACKINAW_NAME@,
            description: MACKINAW_ABOUT@,
            latitude: 40_705_000,
            longitude: -89_648_000,
            thresholds: None,
            expected_parameters: seq![PARAM_DISCHARGE@, PARAM_STAGE@],
        },
        StationView {
            site_code: SPOON@,
            name: SPOON_NAME@,
            description: SPOON_ABOUT@,
            latitude: 40_490_600,
            longitude: -90_038_100,
            thresholds: None,
            expected_parameters: seq![PARAM_DISCHARGE@, PARAM_STAGE@],
        },
        StationView {
            site_code: MARSEILLES@,
            name: MARSEILLES_NAME@,
            description: MARSEILLES_ABOUT@,
            latitude: 41_330_300,
            longitude: -88_743_100,
            thresholds: Some(stages_ft(12, 14, 18, 22)),
            expected_parameters: seq![PARAM_DISCHARGE@, PARAM_STAGE@],
        },
        StationView {
            site_code: ROMEOVILLE@,
            name: ROMEOVILLE_NAME@,
            description: ROMEOVILLE_ABOUT@,
            latitude: 41_636_700,
            longitude: -88_092_000,
            thresholds: None,
            expected_parameters: seq![PARAM_DISCHARGE@],
        },
    ]
}

/// The site codes of [`peoria_basin_stations`] differ from one another.
proof fn lemma_peoria_codes_differ()
    ensures
        unique_codes(peoria_basin_stations()),
{
    reveal_strlit("05568500");
    reveal_strlit("05567500");
    reveal_strlit("05568000");
    reveal_strlit("05557000");
    reveal_strlit("05568580");
    reveal_strlit("05570000");
    reveal_strlit("05552500");
    reveal_strlit("05536890");
    let s = peoria_basin_stations();
    assert(KINGSTON_MINES@[4] != PEORIA@[4]);
    assert(KINGSTON_MINES@[5] != CHILLICOTHE@[5]);
    assert(KINGSTON_MINES@[3] != HENRY@[3]);
    assert(KINGSTON_MINES@[6] != MACKINAW@[6]);
    assert(KINGSTON_MINES@[3] != SPOON@[3]);
    assert(KINGSTON_MINES@[3] != MARSEILLES@[3]);
    assert(KINGSTON_MINES@[3] != ROMEOVILLE@[3]);
    assert(PEORIA@[4] != CHILLICOTHE@[4]);
    assert(PEORIA@[3] != HENRY@[3]);
    assert(PEORIA@[4] != MACKINAW@[4]);
    assert(PEORIA@[3] != SPOON@[3]);
    assert(PEORIA@[3] != MARSEILLES@[3]);
    assert(PEORIA@[3] != ROMEOVILLE@[3]);
    assert(CHILLICOTHE@[3] != HENRY@[3]);
    assert(CHILLICOTHE@[5] != MACKINAW@[5]);
    assert(CHILLICOTHE@[3] != SPOON@[3]);
    assert(CHILLICOTHE@[3] != MARSEILLES@[3]);
    assert(CHILLICOTHE@[3] != ROMEOVILLE@[3]);
    assert(HENRY@[3] != MACKINAW@[3]);
    assert(HENRY@[3] != SPOON@[3]);
    assert(HENRY@[4] != MARSEILLES@[4]);
    assert(HENRY@[3] != ROMEOVILLE@[3]);
    assert(MACKINAW@[3] != SPOON@[3]);
    assert(MACKINAW@[3] != MARSEILLES@[3]);
    assert(MACKINAW@[3] != ROMEOVILLE@[3]);
    assert(SPOON@[3] != MARSEILLES@[3]);
    assert(SPOON@[3] != ROMEOVILLE@[3]);
    assert(MARSEILLES@[3] != ROMEOVILLE@[3]);
}

/// The built-in stations form a sound registry: their site codes differ, each
/// expects a parameter, and the flood stages that are given rise.
pub proof fn lemma_peoria_basin_sound()
    ensures
        registry_sound(peoria_basin_stations()),
        peoria_basin_stations().len() == 8,
{
    lemma_peoria_codes_differ();
}

/// Flood stages given in whole feet.
fn whole_feet(action: i32, flood: i32, moderate: i32, major: i32) -> (r: FloodThresholds)
    ensures
        r@ == stages_ft(action as int, flood as int, moderate as int, major as int),
{
    FloodThresholds {
        action_stage_ft: Decimal::from_units(action),
        flood_stage_ft: Decimal::from_units(flood),
        moderate_flood_stage_ft: Decimal::from_units(moderate),
        major_flood_stage_ft: Decimal::from_units(major),
    }
}

/// The parameters of a station that reports discharge and, where
/// `with_stage` holds, stage.
fn reported(with_stage: bool) -> (r: Vec<&'static str>)
    ensures
        r@.map_values(|p: &'static str| p@) == (if with_stage {
            seq![PARAM_DISCHARGE@, PARAM_STAGE@]
        } else {
            seq![PARAM_DISCHARGE@]
        }),
{
    let mut r: Vec<&'static str> = Vec::new();
    r.push(PARAM_DISCHARGE);
    if with_stage {
        r.push(PARAM_STAGE);
    }
    assert(r@.map_values(|p: &'static str| p@) =~= (if with_stage {
        seq![PARAM_DISCHARGE@, PARAM_STAGE@]
    } else {
        seq![PARAM_DISCHARGE@]
    }));
    r
}

/// The stations of [`peoria_basin_stations`], in order.
fn peoria_basin_list() -> (r: Vec<Station>)
    ensures
        stations_view(r@) == peoria_basin_stations(),
{
    let mut r: Vec<Station> = Vec::new();
    r.push(
        Station {
            site_code: KINGSTON_MINES,
            name: KINGSTON_MINES_NAME,
            description: KINGSTON_MINES_ABOUT,
            latitude: Decimal::from_micros(40_561_400),
            longitude: Decimal::from_micros(-89_995_600),
            thresholds: Some(whole_feet(14, 16, 20, 24)),
            expected_parameters: reported(true),
        },
    );
    r.push(
        Station {
            site_code: PEORIA,
            name: PEORIA_NAME,
            description: PEORIA_ABOUT,
            latitude: Decimal::from_micros(40_693_900),
            longitude: Decimal::from_micros(-89_589_800),
            thresholds: None,
            expected_parameters: reported(true),
        },
    );
    r.push(
        Station {
            site_code: CHILLICOTHE,
            name: CHILLICOTHE_NAME,
            description: CHILLICOTHE_ABOUT,
            latitude: Decimal::from_micros(40_920_000),
            longitude: Decimal::from_micros(-89_485_400),
            thresholds: Some(whole_feet(13, 15, 19, 23)),
            expected_parameters: reported(true),
        },
    );
    r.push(
        Station {
            site_code: HENRY,
            name: HENRY_NAME,
            description: HENRY_ABOUT,
            latitude: Decimal::from_micros(41_112_000),
            longitude: Decimal::from_micros(-89_354_000),
            thresholds: Some(whole_feet(13, 15, 19, 22)),
            expected_parameters: reported(true),
        },
    );
    r.push(
        Station {
            site_code: MACKINAW,
            name: MACKINAW_NAME,
            description: MACKINAW_ABOUT,
            latitude: Decimal::from_micros(40_705_000),
            longitude: Decimal::from_micros(-89_648_000),
            thresholds: None,
            expected_parameters: reported(true),
        },
    );
    r.push(
        Station {
            site_code: SPOON,
            name: SPOON_NAME,
            description: SPOON_ABOUT,
            latitude: Decimal::from_micros(40_490_600),
            longitude: Decimal::from_micros(-90_038_100),
            thresholds: None,
            expected_parameters: reported(true),
        },
    );
    r.push(
        Station {
            site_code: MARSEILLES,
            name: MARSEILLES_NAME,
            description: MARSEILLES_ABOUT,
            latitude: Decimal::from_micros(41_330_300),
            longitude: Decimal::from_micros(-88_743_100),
            thresholds: Some(whole_feet(12, 14, 18, 22)),
            expected_parameters: reported(true),
        },
    );
    r.push(
        Station {
            site_code: ROMEOVILLE,
            name: ROMEOVILLE_NAME,
            description: ROMEOVILLE_ABOUT,
            latitude: Decimal::from_micros(41_636_700),
            longitude: Decimal::from_micros(-88_092_000),
            thresholds: None,
            expected_parameters: reported(false),
        },
    );
    assert(stations_view(r@) =~= peoria_basin_stations());
    r
}

impl StationRegistry {
    /// The registry of [`peoria_basin_stations`].
    pub fn peoria_basin() -> (r: StationRegistry)
        ensures
            r@ == peoria_basin_stations(),
    {
        let stations = peoria_basin_list();
        proof {
            lemma_peoria_basin_sound();
        }
        StationRegistry { stations }
    }
}

/// The built-in stations, in order.
pub fn station_registry() -> (r: Vec<Station>)
    ensures
        stations_view(r@) == peoria_basin_stations(),
        registry_sound(stations_view(r@)),
{
    proof {
        lemma_peoria_basin_sound();
    }
    peoria_basin_list()
}

/// The site codes of all built-in stations, in order.
pub fn all_site_codes() -> (r: Vec<&'static str>)
    ensures
        codes_view(r@) == codes_of(peoria_basin_stations()),
{
    StationRegistry::peoria_basin().site_codes()
}

/// The site codes of the built-in stations that are expected to report
/// `param_code`, in order.
pub fn sites_with_parameter(param_code: &str) -> (r: Vec<&'static str>)
    ensures
        codes_view(r@) == codes_of(expecting(peoria_basin_stations(), param_code@)),
{
    StationRegistry::peoria_basin().sites_with_parameter(param_code)
}

/// Whether the built-in station with the site code `site_code` is expected
/// to report `param_code`. A site that is not built in expects nothing.
pub fn station_has_parameter(site_code: &str, param_code: &str) -> (r: bool)
    ensures
        r == expects_parameter(peoria_basin_stations(), site_code@, param_code@),
{
    StationRegistry::peoria_basin().has_parameter(site_code, param_code)
}

/// The built-in station with the site code `site_code`, or `None` where
/// there is none.
pub fn find_station(site_code: &str) -> (r: Option<Station>)
    ensures
        station_view(r) == lookup(peoria_basin_stations(), site_code@),
{
    let registry = StationRegistry::peoria_basin();
    match registry.find(site_code) {
        Some(station) => Some(station.clone()),
        None => None,
    }
}

} // verus!
