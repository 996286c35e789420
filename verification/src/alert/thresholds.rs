//! Flood stage of a reading.
//!
//! A stage reading is held against the four flood stages of its station, the
//! highest first, and the first stage that the reading has reached gives the
//! alert. A reading that stands exactly on a stage has reached it. A reading
//! below the action stage gives no alert.

use crate::model::{two_places_text, Decimal, FloodThresholds, GaugeReading, GaugeReadingView, ThresholdsView};
use vstd::prelude::*;

verus! {

/// How severe a flood is, from the least to the most severe.
#[derive(Debug, Clone, Copy, PartialEq, Eq, Hash, Structural)]
pub enum FloodSeverity {
    Action,
    Flood,
    Moderate,
    Major,
}

impl FloodSeverity {
    /// The place of the severity in the order, from 0 for `Action` to 3 for
    /// `Major`.
    pub open spec fn rank(self) -> int {
        match self {
            FloodSeverity::Action => 0,
            FloodSeverity::Flood => 1,
            FloodSeverity::Moderate => 2,
            FloodSeverity::Major => 3,
        }
    }

    /// The stage at which this severity begins.
    pub open spec fn stage(self, t: ThresholdsView) -> int {
        match self {
            FloodSeverity::Action => t.action,
            FloodSeverity::Flood => t.flood,
            FloodSeverity::Moderate => t.moderate,
            FloodSeverity::Major => t.major,
        }
    }

    /// The words that open the alert of this severity.
    pub open spec fn headline(self) -> Seq<char> {
        match self {
            FloodSeverity::Action => "Action stage reached"@,
            FloodSeverity::Flood => "FLOOD"@,
            FloodSeverity::Moderate => "MODERATE FLOOD"@,
            FloodSeverity::Major => "MAJOR FLOOD"@,
        }
    }

    /// The name of the stage at which this severity begins.
    pub open spec fn stage_name(self) -> Seq<char> {
        match self {
            FloodSeverity::Action => "action stage"@,
            FloodSeverity::Flood => "flood stage"@,
            FloodSeverity::Moderate => "moderate flood stage"@,
            FloodSeverity::Major => "major flood stage"@,
        }
    }

    /// The place of the severity in the order, from 0 for `Action` to 3 for
    /// `Major`.
    pub fn level(&self) -> (r: u8)
        ensures
            r == self.rank(),
    {
        match self {
            FloodSeverity::Action => 0,
            FloodSeverity::Flood => 1,
            FloodSeverity::Moderate => 2,
            FloodSeverity::Major => 3,
        }
    }

    /// Whether this severity is strictly worse than `other`.
    pub fn is_worse_than(&self, other: &FloodSeverity) -> (r: bool)
        ensures
            r == (self.rank() > other.rank()),
    {
        self.level() > other.level()
    }
}

/// A flood stage has been reached.
#[derive(Debug, PartialEq)]
pub struct FloodAlert {
    pub severity: FloodSeverity,
    pub message: String,
}

/// What a [`FloodAlert`] holds, as mathematical values.
pub struct FloodAlertView {
    pub severity: FloodSeverity,
    pub message: Seq<char>,
}

impl View for FloodAlert {
    type V = FloodAlertView;

    open spec fn view(&self) -> FloodAlertView {
        FloodAlertView { severity: self.severity, message: self.message@ }
    }
}

impl Clone for FloodAlert {
    fn clone(&self) -> (r: Self)
        ensures
            r@ == self@,
    {
        FloodAlert { severity: self.severity, message: self.message.clone() }
    }
}

/// Mathematical form of an optional alert.
pub open spec fn alert_view(a: Option<FloodAlert>) -> Option<FloodAlertView> {
    match a {
        Some(x) => Some(x@),
        None => None,
    }
}

/// The severity that a `stage` has reached: that of the first of major,
/// moderate, flood and action, in this order, that `stage` is not below.
pub open spec fn severity_at(stage: int, t: ThresholdsView) -> Option<FloodSeverity> {
    if stage >= t.major {
        Some(FloodSeverity::Major)
    } else if stage >= t.moderate {
        Some(FloodSeverity::Moderate)
    } else if stage >= t.flood {
        Some(FloodSeverity::Flood)
    } else if stage >= t.action {
        Some(FloodSeverity::Action)
    } else {
        None
    }
}

/// The message of an alert: what was reached, where, the stage that was read
/// and the stage that it reached, both to two decimal places.
pub open spec fn alert_message(
    severity: FloodSeverity,
    site_name: Seq<char>,
    stage: int,
    t: ThresholdsView,
) -> Seq<char> {
    severity.headline() + " at "@ + site_name + ": "@ + two_places_text(stage) + " ft ("@
        + severity.stage_name() + ": "@ + two_places_text(severity.stage(t)) + " ft)"@
}

/// The alert that a reading gives against the stages `t`, if it gives one.
pub open spec fn flood_alert(reading: GaugeReadingView, t: ThresholdsView) -> Option<
    FloodAlertView,
> {
    match severity_at(reading.value, t) {
        Some(severity) => Some(
            FloodAlertView {
                severity,
                message: alert_message(severity, reading.site_name, reading.value, t),
            },
        ),
        None => None,
    }
}

/// The severity that `stage` has reached against `thresholds`, if any.
pub fn flood_severity(stage: Decimal, thresholds: &FloodThresholds) -> (r: Option<FloodSeverity>)
    ensures
        r == severity_at(stage@, thresholds@),
{
    if stage.micros >= thresholds.major_flood_stage_ft.micros {
        Some(FloodSeverity::Major)
    } else if stage.micros >= thresholds.moderate_flood_stage_ft.micros {
        Some(FloodSeverity::Moderate)
    } else if stage.micros >= thresholds.flood_stage_ft.micros {
        Some(FloodSeverity::Flood)
    } else if stage.micros >= thresholds.action_stage_ft.micros {
        Some(FloodSeverity::Action)
    } else {
        None
    }
}

/// The stage of `thresholds` at which `severity` begins.
pub fn stage_of(severity: FloodSeverity, thresholds: &FloodThresholds) -> (r: Decimal)
    ensures
        r@ == severity.stage(thresholds@),
{
    match severity {
        FloodSeverity::Action => thresholds.action_stage_ft,
        FloodSeverity::Flood => thresholds.flood_stage_ft,
        FloodSeverity::Moderate => thresholds.moderate_flood_stage_ft,
        FloodSeverity::Major => thresholds.major_flood_stage_ft,
    }
}

/// The message of the alert that `reading` gives at `severity`.
fn message_for(severity: FloodSeverity, reading: &GaugeReading, thresholds: &FloodThresholds) -> (r:
    String)
    ensures
        r@ == alert_message(severity, reading@.site_name, reading@.value, thresholds@),
{
    proof {
        reveal_strlit("Action stage reached");
        reveal_strlit("FLOOD");
        reveal_strlit("MODERATE FLOOD");
        reveal_strlit("MAJOR FLOOD");
        reveal_strlit("action stage");
        reveal_strlit("flood stage");
        reveal_strlit("moderate flood stage");
        reveal_strlit("major flood stage");
    }
    let mut out = match severity {
        FloodSeverity::Action => String::from_str("Action stage reached"),
        FloodSeverity::Flood => String::from_str("FLOOD"),
        FloodSeverity::Moderate => String::from_str("MODERATE FLOOD"),
        FloodSeverity::Major => String::from_str("MAJOR FLOOD"),
    };
    out.append(" at ");
    out.append(reading.site_name.as_str());
    out.append(": ");
    reading.value.append_two_places(&mut out);
    out.append(" ft (");
    out.append(
        match severity {
            FloodSeverity::Action => "action stage",
            FloodSeverity::Flood => "flood stage",
            FloodSeverity::Moderate => "moderate flood stage",
            FloodSeverity::Major => "major flood stage",
        },
    );
    out.append(": ");
    stage_of(severity, thresholds).append_two_places(&mut out);
    out.append(" ft)");
    out
}

/// Holds a stage reading against the flood stages of its station and gives
/// the alert of the highest stage that it has reached, or `None` where the
/// reading is below the action stage.
///
/// A station without flood stages has nothing to hold a reading against, so
/// there is no call to make for it.
pub fn check_flood_stage(reading: &GaugeReading, thresholds: &FloodThresholds) -> (r: Option<
    FloodAlert,
>)
    ensures
        alert_view(r) == flood_alert(reading@, thresholds@),
{
    match flood_severity(reading.value, thresholds) {
        Some(severity) => Some(
            FloodAlert { severity, message: message_for(severity, reading, thresholds) },
        ),
        None => None,
    }
}

/// Where the stages rise, a reading that stands exactly on a stage is given
/// the severity of that stage, not the one below.
pub proof fn lemma_stage_value_reaches_stage(t: ThresholdsView, severity: FloodSeverity)
    requires
        t.ascending(),
    ensures
        severity_at(severity.stage(t), t) == Some(severity),
{
}

/// Where the stages rise, a reading gives no alert exactly when it is below
/// the action stage.
pub proof fn lemma_no_alert_below_action(stage: int, t: ThresholdsView)
    requires
        t.ascending(),
    ensures
        severity_at(stage, t) is None <==> stage < t.action,
{
}

/// Where the stages rise, the severity given is the highest one whose stage
/// the reading has reached: the reading is at or above that stage, and below
/// the stage of every worse severity.
pub proof fn lemma_highest_stage_reached(stage: int, t: ThresholdsView, worse: FloodSeverity)
    requires
        t.ascending(),
        severity_at(stage, t) is Some,
    ensures
        stage >= severity_at(stage, t)->0.stage(t),
        worse.rank() > severity_at(stage, t)->0.rank() ==> stage < worse.stage(t),
{
}

/// Where the stages rise, a higher reading never gives a lesser severity.
pub proof fn lemma_severity_rises_with_stage(low: int, high: int, t: ThresholdsView)
    requires
        t.ascending(),
        low <= high,
        severity_at(low, t) is Some,
    ensures
        severity_at(high, t) is Some,
        severity_at(high, t)->0.rank() >= severity_at(low, t)->0.rank(),
{
}

/// A reading gives an alert exactly when it has reached a stage, the alert
/// carries the severity of that stage, and no reading gives two.
pub proof fn lemma_alert_follows_severity(reading: GaugeReadingView, t: ThresholdsView)
    ensures
        flood_alert(reading, t) is Some <==> severity_at(reading.value, t) is Some,
        flood_alert(reading, t) matches Some(a) ==> Some(a.severity) == severity_at(
            reading.value,
            t,
        ),
{
}

} // verus!
