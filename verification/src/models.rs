//! Shared data models for app state, API payloads, and persistence.

use vstd::prelude::*;
use crate::calendar::CalendarDate;
use crate::text::{owned, text_equals};

verus! {

/// Location entry for quick-select buttons.
#[derive(Debug, Clone, Copy)]
pub struct QuickCity {
    pub city: &'static str,
    pub state: &'static str,
}

/// The quick-select locations, in the order the buttons show them.
pub fn quick_cities() -> (res: [QuickCity; 6])
    ensures
        res@[0].city@ == "Phoenix"@ && res@[0].state@ == "AZ"@,
        res@[1].city@ == "New York"@ && res@[1].state@ == "NY"@,
        res@[2].city@ == "Los Angeles"@ && res@[2].state@ == "CA"@,
        res@[3].city@ == "Chicago"@ && res@[3].state@ == "IL"@,
        res@[4].city@ == "Dallas"@ && res@[4].state@ == "TX"@,
        res@[5].city@ == "Seattle"@ && res@[5].state@ == "WA"@,
{
    [
        QuickCity { city: "Phoenix", state: "AZ" },
        QuickCity { city: "New York", state: "NY" },
        QuickCity { city: "Los Angeles", state: "CA" },
        QuickCity { city: "Chicago", state: "IL" },
        QuickCity { city: "Dallas", state: "TX" },
        QuickCity { city: "Seattle", state: "WA" },
    ]
}

/// Input mode shown in the UI.
#[derive(Debug, Clone, Copy, PartialEq, Eq, Structural)]
pub enum InputMode {
    CityState,
    Coordinates,
}

/// Animation behavior for the visualization panel.
#[derive(Debug, Clone, Copy, PartialEq, Eq, Structural)]
pub enum AnimationMode {
    Auto,
    Sunny,
    Rain,
    Snow,
    Cloud,
}

/// The label shown for each animation mode.
pub open spec fn mode_label(mode: AnimationMode) -> Seq<char> {
    match mode {
        AnimationMode::Auto => "Auto"@,
        AnimationMode::Sunny => "Sunny"@,
        AnimationMode::Rain => "Rain"@,
        AnimationMode::Snow => "Snow"@,
        AnimationMode::Cloud => "Cloud"@,
    }
}

/// Each mode's label names that mode and no other.
pub proof fn lemma_mode_labels(mode: AnimationMode)
    ensures
        mode_label(mode) == "Auto"@ <==> mode == AnimationMode::Auto,
        mode_label(mode) == "Sunny"@ <==> mode == AnimationMode::Sunny,
        mode_label(mode) == "Rain"@ <==> mode == AnimationMode::Rain,
        mode_label(mode) == "Snow"@ <==> mode == AnimationMode::Snow,
        mode_label(mode) == "Cloud"@ <==> mode == AnimationMode::Cloud,
{
    reveal_strlit("Auto");
    reveal_strlit("Sunny");
    reveal_strlit("Rain");
    reveal_strlit("Snow");
    reveal_strlit("Cloud");
    assert("Auto"@ != "Sunny"@) by { assert("Auto"@.len() != "Sunny"@.len()); }
    assert("Auto"@ != "Rain"@) by { assert("Auto"@[0] != "Rain"@[0]); }
    assert("Auto"@ != "Snow"@) by { assert("Auto"@[0] != "Snow"@[0]); }
    assert("Auto"@ != "Cloud"@) by { assert("Auto"@.len() != "Cloud"@.len()); }
    assert("Sunny"@ != "Rain"@) by { assert("Sunny"@.len() != "Rain"@.len()); }
    assert("Sunny"@ != "Snow"@) by { assert("Sunny"@.len() != "Snow"@.len()); }
    assert("Sunny"@ != "Cloud"@) by { assert("Sunny"@[0] != "Cloud"@[0]); }
    assert("Rain"@ != "Snow"@) by { assert("Rain"@[0] != "Snow"@[0]); }
    assert("Rain"@ != "Cloud"@) by { assert("Rain"@.len() != "Cloud"@.len()); }
    assert("Snow"@ != "Cloud"@) by { assert("Snow"@.len() != "Cloud"@.len()); }
}

impl AnimationMode {
    pub fn label(self) -> (res: &'static str)
        ensures
            res@ == mode_label(self),
    {
        match self {
            AnimationMode::Auto => "Auto",
            AnimationMode::Sunny => "Sunny",
            AnimationMode::Rain => "Rain",
            AnimationMode::Snow => "Snow",
            AnimationMode::Cloud => "Cloud",
        }
    }

    pub fn all() -> (res: [AnimationMode; 5])
        ensures
            res@ == seq![
                AnimationMode::Auto,
                AnimationMode::Sunny,
                AnimationMode::Rain,
                AnimationMode::Snow,
                AnimationMode::Cloud,
            ],
    {
        [
            AnimationMode::Auto,
            AnimationMode::Sunny,
            AnimationMode::Rain,
            AnimationMode::Snow,
            AnimationMode::Cloud,
        ]
    }
}

/// `AnimationMode::all` lists every mode exactly once.
pub proof fn lemma_all_modes_listed_once(mode: AnimationMode)
    ensures
        ({
            let all = seq![
                AnimationMode::Auto,
                AnimationMode::Sunny,
                AnimationMode::Rain,
                AnimationMode::Snow,
                AnimationMode::Cloud,
            ];
            &&& all.contains(mode)
            &&& forall|i: int, j: int| 0 <= i < j < all.len() ==> all[i] != all[j]
        }),
{
    let all = seq![
        AnimationMode::Auto,
        AnimationMode::Sunny,
        AnimationMode::Rain,
        AnimationMode::Snow,
        AnimationMode::Cloud,
    ];
    match mode {
        AnimationMode::Auto => assert(all[0] == mode),
        AnimationMode::Sunny => assert(all[1] == mode),
        AnimationMode::Rain => assert(all[2] == mode),
        AnimationMode::Snow => assert(all[3] == mode),
        AnimationMode::Cloud => assert(all[4] == mode),
    }
}


/// Parsed user request sent to the background worker.
pub enum LocationQuery<R> {
    CityState { city: String, state: String },
    Coordinates { latitude: R, longitude: R },
}

pub struct WeatherQueryRequest<R> {
    pub location: LocationQuery<R>,
    pub start_date: CalendarDate,
    pub end_date: CalendarDate,
}

/// One day record shown in result cards and used for history/export.
pub struct WeatherDayRecord<R> {
    pub day_date: String,
    pub temperature_max_c: Option<R>,
    pub temperature_min_c: Option<R>,
    pub precipitation_mm: Option<R>,
    pub wind_speed_max_kmh: Option<R>,
    pub weather_code: Option<i32>,
    pub weather_description: String,
    pub source: String,
}

/// Full weather response tied to one user query. `fetched_at` holds the
/// RFC 3339 text of the local time at which the response was fetched.
pub struct WeatherQueryResult<R> {
    pub fetched_at: String,
    pub city: Option<String>,
    pub state: Option<String>,
    pub latitude: R,
    pub longitude: R,
    pub timezone: String,
    pub start_date: String,
    pub end_date: String,
    pub current_temperature_c: Option<R>,
    pub current_apparent_temperature_c: Option<R>,
    pub current_weather_code: Option<i32>,
    pub current_weather_description: Option<String>,
    pub days: Vec<WeatherDayRecord<R>>,
}

/// Persisted history entry: a snapshot of one successful query result.
pub struct HistoryEntry<R> {
    pub timestamp: String,
    pub city: String,
    pub state: String,
    pub start_date: String,
    pub end_date: String,
    pub latitude: R,
    pub longitude: R,
    pub timezone: String,
    pub source: String,
    pub current_temperature_c: Option<R>,
    pub current_apparent_temperature_c: Option<R>,
    pub current_weather_description: Option<String>,
    pub days: Vec<WeatherDayRecord<R>>,
}

impl<R: Copy> WeatherDayRecord<R> {
    /// A field-by-field copy of this record.
    pub fn duplicate(&self) -> (res: Self)
        ensures
            res == *self,
    {
        WeatherDayRecord {
            day_date: self.day_date.clone(),
            temperature_max_c: self.temperature_max_c,
            temperature_min_c: self.temperature_min_c,
            precipitation_mm: self.precipitation_mm,
            wind_speed_max_kmh: self.wind_speed_max_kmh,
            weather_code: self.weather_code,
            weather_description: self.weather_description.clone(),
            source: self.source.clone(),
        }
    }
}

/// A copy of a list of day records.
pub fn duplicate_days<R: Copy>(days: &[WeatherDayRecord<R>]) -> (res: Vec<WeatherDayRecord<R>>)
    ensures
        res@ == days@,
{
    let mut out: Vec<WeatherDayRecord<R>> = Vec::new();
    let mut i: usize = 0;
    while i < days.len()
        invariant
            i <= days@.len(),
            out@ == days@.take(i as int),
        decreases days@.len() - i,
    {
        out.push(days[i].duplicate());
        assert(days@.take(i + 1) =~= days@.take(i as int).push(days@[i as int]));
        i = i + 1;
    }
    assert(days@.take(days@.len() as int) =~= days@);
    out
}

/// A copy of an optional text.
pub fn duplicate_text_option(value: &Option<String>) -> (res: Option<String>)
    ensures
        res == *value,
{
    match value {
        Some(t) => Some(t.clone()),
        None => None,
    }
}

/// Whether some day record came from the source with this label.
pub open spec fn has_source<R>(days: Seq<WeatherDayRecord<R>>, label: Seq<char>) -> bool {
    exists|i: int| 0 <= i < days.len() && #[trigger] days[i].source@ == label
}

/// The summary of the sources of a list of day records.
pub open spec fn source_summary<R>(days: Seq<WeatherDayRecord<R>>) -> Seq<char> {
    let archive = has_source(days, "archive"@);
    let forecast = has_source(days, "forecast"@);
    if archive && forecast {
        "archive+forecast"@
    } else if archive {
        "archive"@
    } else if forecast {
        "forecast"@
    } else {
        "unknown"@
    }
}

/// Summarizes which endpoints the day records came from.
pub fn summarize_sources<R>(days: &[WeatherDayRecord<R>]) -> (res: String)
    ensures
        res@ == source_summary(days@),
{
    let mut has_forecast = false;
    let mut has_archive = false;
    let mut i: usize = 0;
    while i < days.len()
        invariant
            i <= days@.len(),
            has_forecast == has_source(days@.take(i as int), "forecast"@),
            has_archive == has_source(days@.take(i as int), "archive"@),
        decreases days@.len() - i,
    {
        let ghost prefix = days@.take(i as int);
        let ghost next = days@.take(i + 1);
        assert(next =~= prefix.push(days@[i as int]));
        assert forall|label: Seq<char>| has_source(next, label) == (has_source(prefix, label)
            || days@[i as int].source@ == label) by {
            if has_source(next, label) {
                let k = choose|k: int| 0 <= k < next.len() && #[trigger] next[k].source@ == label;
                if k < i {
                    assert(prefix[k] == next[k]);
                }
            }
            if has_source(prefix, label) {
                let k = choose|k: int| 0 <= k < prefix.len() && #[trigger] prefix[k].source@ == label;
                assert(next[k] == prefix[k]);
            }
            if days@[i as int].source@ == label {
                assert(next[i as int] == days@[i as int]);
            }
        }
        if text_equals(days[i].source.as_str(), "forecast") {
            has_forecast = true;
        }
        if text_equals(days[i].source.as_str(), "archive") {
            has_archive = true;
        }
        i = i + 1;
    }
    assert(days@.take(days@.len() as int) =~= days@);
    if has_archive && has_forecast {
        owned("archive+forecast")
    } else if has_archive {
        owned("archive")
    } else if has_forecast {
        owned("forecast")
    } else {
        owned("unknown")
    }
}

/// `entry` is the history snapshot of `result`.
pub open spec fn is_snapshot_of<R>(entry: HistoryEntry<R>, result: WeatherQueryResult<R>) -> bool {
    &&& entry.timestamp == result.fetched_at
    &&& entry.city@ == (match result.city { Some(c) => c@, None => "(coords)"@, })
    &&& entry.state@ == (match result.state { Some(s) => s@, None => "-"@, })
    &&& entry.start_date == result.start_date
    &&& entry.end_date == result.end_date
    &&& entry.latitude == result.latitude
    &&& entry.longitude == result.longitude
    &&& entry.timezone == result.timezone
    &&& entry.source@ == source_summary(result.days@)
    &&& entry.current_temperature_c == result.current_temperature_c
    &&& entry.current_apparent_temperature_c == result.current_apparent_temperature_c
    &&& entry.current_weather_description == result.current_weather_description
    &&& entry.days@ == result.days@
}

/// A history snapshot copies each field of the result into the field of the
/// same name (the fetch time into `timestamp`), puts "(coords)" and "-" in place
/// of a missing city and state, and records as its source "archive", "forecast",
/// both, or "unknown", by which endpoints the result's days came from.
pub proof fn lemma_snapshot_fields<R>(entry: HistoryEntry<R>, result: WeatherQueryResult<R>)
    requires
        is_snapshot_of(entry, result),
    ensures
        entry.timestamp == result.fetched_at,
        result.city is Some ==> entry.city@ == result.city->0@,
        result.city is None ==> entry.city@ == "(coords)"@,
        result.state is Some ==> entry.state@ == result.state->0@,
        result.state is None ==> entry.state@ == "-"@,
        entry.start_date == result.start_date,
        entry.end_date == result.end_date,
        entry.latitude == result.latitude,
        entry.longitude == result.longitude,
        entry.timezone == result.timezone,
        entry.current_temperature_c == result.current_temperature_c,
        entry.current_apparent_temperature_c == result.current_apparent_temperature_c,
        entry.current_weather_description == result.current_weather_description,
        entry.days@ == result.days@,
        has_source(result.days@, "archive"@) && has_source(result.days@, "forecast"@)
            ==> entry.source@ == "archive+forecast"@,
        has_source(result.days@, "archive"@) && !has_source(result.days@, "forecast"@)
            ==> entry.source@ == "archive"@,
        !has_source(result.days@, "archive"@) && has_source(result.days@, "forecast"@)
            ==> entry.source@ == "forecast"@,
        !has_source(result.days@, "archive"@) && !has_source(result.days@, "forecast"@)
            ==> entry.source@ == "unknown"@,
{
}

impl<R: Copy> HistoryEntry<R> {
    /// Snapshots a query result for the history log.
    pub fn from_result(result: &WeatherQueryResult<R>) -> (res: Self)
        ensures
            is_snapshot_of(res, *result),
    {
        let source_summary = if result.days.len() == 0 {
            owned("unknown")
        } else {
            summarize_sources(result.days.as_slice())
        };
        let city = match &result.city {
            Some(c) => c.clone(),
            None => owned("(coords)"),
        };
        let state = match &result.state {
            Some(s) => s.clone(),
            None => owned("-"),
        };
        HistoryEntry {
            timestamp: result.fetched_at.clone(),
            city,
            state,
            start_date: result.start_date.clone(),
            end_date: result.end_date.clone(),
            latitude: result.latitude,
            longitude: result.longitude,
            timezone: result.timezone.clone(),
            source: source_summary,
            current_temperature_c: result.current_temperature_c,
            current_apparent_temperature_c: result.current_apparent_temperature_c,
            current_weather_description: duplicate_text_option(&result.current_weather_description),
            days: duplicate_days(result.days.as_slice()),
        }
    }
}

} // verus!
