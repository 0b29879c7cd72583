//! History storage location and the flattening of history entries into CSV rows
//! (one row per day, or one summary row for an entry without days).

use vstd::prelude::*;
use std::path::PathBuf;
use crate::models::{HistoryEntry, WeatherDayRecord, duplicate_text_option};
use crate::text::join3;

verus! {

#[verifier::external_type_specification]
#[verifier::external_body]
pub struct ExPathBuf(PathBuf);

/// The path that `PathBuf::from` builds from a text.
pub uninterp spec fn path_from_text(text: Seq<char>) -> PathBuf;

/// Calls `PathBuf::from(&str)`. The contract claims that the result is the path
/// built from that text (the name `path_from_text`).
#[verifier::external_body]
fn path_from(text: &str) -> (res: PathBuf)
    ensures
        res == path_from_text(text@),
{
    PathBuf::from(text)
}

/// Where the query history is stored.
pub fn history_file_path() -> (res: PathBuf)
    ensures
        res == path_from_text("weather_history.json"@),
{
    path_from("weather_history.json")
}

/// The name of a CSV export file for a timestamp text (`YYYYmmdd_HHMMSS`).
pub fn export_file_name(stamp: &str) -> (res: String)
    ensures
        res@ == "weather_history_export_"@ + stamp@ + ".csv"@,
{
    join3("weather_history_export_", stamp, ".csv")
}

/// Flat CSV row so multi-day entries can be exported one day per line.
pub struct HistoryCsvRow<R> {
    pub timestamp: String,
    pub city: String,
    pub state: String,
    pub start_date: String,
    pub end_date: String,
    pub day_date: String,
    pub latitude: R,
    pub longitude: R,
    pub timezone: String,
    pub source: String,
    pub current_temperature_c: Option<R>,
    pub current_apparent_temperature_c: Option<R>,
    pub current_weather_description: Option<String>,
    pub day_temperature_max_c: Option<R>,
    pub day_temperature_min_c: Option<R>,
    pub day_precipitation_mm: Option<R>,
    pub day_wind_speed_max_kmh: Option<R>,
    pub day_weather_code: Option<i32>,
    pub day_weather_description: String,
}

/// The columns a row takes from its history entry.
pub open spec fn row_has_entry_fields<R>(row: HistoryCsvRow<R>, e: HistoryEntry<R>) -> bool {
    &&& row.timestamp == e.timestamp
    &&& row.city == e.city
    &&& row.state == e.state
    &&& row.start_date == e.start_date
    &&& row.end_date == e.end_date
    &&& row.latitude == e.latitude
    &&& row.longitude == e.longitude
    &&& row.timezone == e.timezone
    &&& row.current_temperature_c == e.current_temperature_c
    &&& row.current_apparent_temperature_c == e.current_apparent_temperature_c
    &&& row.current_weather_description == e.current_weather_description
}

/// The single row of an entry without days: no day columns, the entry's source.
pub open spec fn is_summary_row<R>(row: HistoryCsvRow<R>, e: HistoryEntry<R>) -> bool {
    &&& row_has_entry_fields(row, e)
    &&& row.day_date@ == Seq::<char>::empty()
    &&& row.source == e.source
    &&& row.day_temperature_max_c is None
    &&& row.day_temperature_min_c is None
    &&& row.day_precipitation_mm is None
    &&& row.day_wind_speed_max_kmh is None
    &&& row.day_weather_code is None
    &&& row.day_weather_description@ == Seq::<char>::empty()
}

/// The row of one day of an entry: the day's columns and the day's source.
pub open spec fn is_day_row<R>(row: HistoryCsvRow<R>, e: HistoryEntry<R>, d: WeatherDayRecord<R>) -> bool {
    &&& row_has_entry_fields(row, e)
    &&& row.day_date == d.day_date
    &&& row.source == d.source
    &&& row.day_temperature_max_c == d.temperature_max_c
    &&& row.day_temperature_min_c == d.temperature_min_c
    &&& row.day_precipitation_mm == d.precipitation_mm
    &&& row.day_wind_speed_max_kmh == d.wind_speed_max_kmh
    &&& row.day_weather_code == d.weather_code
    &&& row.day_weather_description == d.weather_description
}

/// How many rows an entry exports as.
pub open spec fn row_count<R>(e: HistoryEntry<R>) -> nat {
    if e.days@.len() == 0 {
        1
    } else {
        e.days@.len()
    }
}

/// The rows that one entry exports as.
pub open spec fn entry_rows<R>(e: HistoryEntry<R>, rows: Seq<HistoryCsvRow<R>>) -> bool {
    if e.days@.len() == 0 {
        rows.len() == 1 && is_summary_row(rows[0], e)
    } else {
        &&& rows.len() == e.days@.len()
        &&& forall|k: int| 0 <= k < rows.len() ==> is_day_row(#[trigger] rows[k], e, e.days@[k])
    }
}

/// `rows` are the rows of `entries`, entry after entry.
pub open spec fn rows_of<R>(entries: Seq<HistoryEntry<R>>, rows: Seq<HistoryCsvRow<R>>) -> bool
    decreases entries.len(),
{
    if entries.len() == 0 {
        rows.len() == 0
    } else {
        let n = row_count(entries.last());
        &&& rows.len() >= n
        &&& rows_of(entries.drop_last(), rows.take(rows.len() - n))
        &&& entry_rows(entries.last(), rows.skip(rows.len() - n))
    }
}

/// The number of rows a list of entries exports as.
pub open spec fn total_rows<R>(entries: Seq<HistoryEntry<R>>) -> nat
    decreases entries.len(),
{
    if entries.len() == 0 {
        0
    } else {
        total_rows(entries.drop_last()) + row_count(entries.last())
    }
}

/// The export has one row per day of each entry, and one row for each entry without days.
pub proof fn lemma_rows_count<R>(entries: Seq<HistoryEntry<R>>, rows: Seq<HistoryCsvRow<R>>)
    requires
        rows_of(entries, rows),
    ensures
        rows.len() == total_rows(entries),
    decreases entries.len(),
{
    if entries.len() > 0 {
        let n = row_count(entries.last());
        lemma_rows_count(entries.drop_last(), rows.take(rows.len() - n));
    }
}

/// The row that exports day `k` of entry `e` sits right after the rows of the
/// earlier entries and the earlier days, and carries each column from the field
/// of the same meaning: the entry's identity, place and current conditions, and
/// the day's date, source, maximum temperature (`day_temperature_max_c`),
/// minimum temperature (`day_temperature_min_c`), precipitation, wind, code and
/// description.
pub proof fn lemma_day_row_fields<R>(
    entries: Seq<HistoryEntry<R>>,
    rows: Seq<HistoryCsvRow<R>>,
    e: int,
    k: int,
)
    requires
        rows_of(entries, rows),
        0 <= e < entries.len(),
        0 <= k < entries[e].days@.len(),
    ensures
        total_rows(entries.take(e)) + k < rows.len(),
        ({
            let row = rows[total_rows(entries.take(e)) + k];
            let entry = entries[e];
            let d = entries[e].days@[k];
            &&& row.timestamp == entry.timestamp
            &&& row.city == entry.city
            &&& row.state == entry.state
            &&& row.start_date == entry.start_date
            &&& row.end_date == entry.end_date
            &&& row.latitude == entry.latitude
            &&& row.longitude == entry.longitude
            &&& row.timezone == entry.timezone
            &&& row.current_temperature_c == entry.current_temperature_c
            &&& row.current_apparent_temperature_c == entry.current_apparent_temperature_c
            &&& row.current_weather_description == entry.current_weather_description
            &&& row.day_date == d.day_date
            &&& row.source == d.source
            &&& row.day_temperature_max_c == d.temperature_max_c
            &&& row.day_temperature_min_c == d.temperature_min_c
            &&& row.day_precipitation_mm == d.precipitation_mm
            &&& row.day_wind_speed_max_kmh == d.wind_speed_max_kmh
            &&& row.day_weather_code == d.weather_code
            &&& row.day_weather_description == d.weather_description
        }),
    decreases entries.len(),
{
    let last = entries.len() - 1;
    let n = row_count(entries.last());
    let front = rows.take(rows.len() - n);
    lemma_rows_count(entries.drop_last(), front);
    if e == last {
        assert(entries.take(e) =~= entries.drop_last());
        let tail = rows.skip(rows.len() - n);
        assert(is_day_row(tail[k], entries.last(), entries.last().days@[k]));
        assert(tail[k] == rows[rows.len() - n + k]);
    } else {
        lemma_day_row_fields(entries.drop_last(), front, e, k);
        assert(entries.drop_last().take(e) =~= entries.take(e));
        assert(entries.drop_last()[e] == entries[e]);
    }
}

/// The single row that exports an entry without days sits right after the rows
/// of the earlier entries, carries the entry's fields and source, and leaves
/// every day column empty.
pub proof fn lemma_summary_row_fields<R>(entries: Seq<HistoryEntry<R>>, rows: Seq<HistoryCsvRow<R>>, e: int)
    requires
        rows_of(entries, rows),
        0 <= e < entries.len(),
        entries[e].days@.len() == 0,
    ensures
        total_rows(entries.take(e)) < rows.len(),
        ({
            let row = rows[total_rows(entries.take(e)) as int];
            let entry = entries[e];
            &&& row.timestamp == entry.timestamp
            &&& row.city == entry.city
            &&& row.state == entry.state
            &&& row.start_date == entry.start_date
            &&& row.end_date == entry.end_date
            &&& row.latitude == entry.latitude
            &&& row.longitude == entry.longitude
            &&& row.timezone == entry.timezone
            &&& row.source == entry.source
            &&& row.current_temperature_c == entry.current_temperature_c
            &&& row.current_apparent_temperature_c == entry.current_apparent_temperature_c
            &&& row.current_weather_description == entry.current_weather_description
            &&& row.day_date@.len() == 0
            &&& row.day_temperature_max_c is None
            &&& row.day_temperature_min_c is None
            &&& row.day_precipitation_mm is None
            &&& row.day_wind_speed_max_kmh is None
            &&& row.day_weather_code is None
            &&& row.day_weather_description@.len() == 0
        }),
    decreases entries.len(),
{
    let last = entries.len() - 1;
    let n = row_count(entries.last());
    let front = rows.take(rows.len() - n);
    lemma_rows_count(entries.drop_last(), front);
    if e == last {
        assert(entries.take(e) =~= entries.drop_last());
        let tail = rows.skip(rows.len() - n);
        assert(tail[0] == rows[rows.len() - n]);
    } else {
        lemma_summary_row_fields(entries.drop_last(), front, e);
        assert(entries.drop_last().take(e) =~= entries.take(e));
        assert(entries.drop_last()[e] == entries[e]);
    }
}

fn entry_row<R: Copy>(entry: &HistoryEntry<R>, day: Option<&WeatherDayRecord<R>>) -> (res: HistoryCsvRow<R>)
    ensures
        day is None ==> is_summary_row(res, *entry),
        day matches Some(d) ==> is_day_row(res, *entry, *d),
{
    match day {
        None => HistoryCsvRow {
            timestamp: entry.timestamp.clone(),
            city: entry.city.clone(),
            state: entry.state.clone(),
            start_date: entry.start_date.clone(),
            end_date: entry.end_date.clone(),
            day_date: String::new(),
            latitude: entry.latitude,
            longitude: entry.longitude,
            timezone: entry.timezone.clone(),
            source: entry.source.clone(),
            current_temperature_c: entry.current_temperature_c,
            current_apparent_temperature_c: entry.current_apparent_temperature_c,
            current_weather_description: duplicate_text_option(&entry.current_weather_description),
            day_temperature_max_c: None,
            day_temperature_min_c: None,
            day_precipitation_mm: None,
            day_wind_speed_max_kmh: None,
            day_weather_code: None,
            day_weather_description: String::new(),
        },
        Some(day) => HistoryCsvRow {
            timestamp: entry.timestamp.clone(),
            city: entry.city.clone(),
            state: entry.state.clone(),
            start_date: entry.start_date.clone(),
            end_date: entry.end_date.clone(),
            day_date: day.day_date.clone(),
            latitude: entry.latitude,
            longitude: entry.longitude,
            timezone: entry.timezone.clone(),
            source: day.source.clone(),
            current_temperature_c: entry.current_temperature_c,
            current_apparent_temperature_c: entry.current_apparent_temperature_c,
            current_weather_description: duplicate_text_option(&entry.current_weather_description),
            day_temperature_max_c: day.temperature_max_c,
            day_temperature_min_c: day.temperature_min_c,
            day_precipitation_mm: day.precipitation_mm,
            day_wind_speed_max_kmh: day.wind_speed_max_kmh,
            day_weather_code: day.weather_code,
            day_weather_description: day.weather_description.clone(),
        },
    }
}

/// The CSV rows of the history: for each entry in order, one row per day, or a
/// single summary row where the entry has no days.
pub fn history_csv_rows<R: Copy>(entries: &[HistoryEntry<R>]) -> (res: Vec<HistoryCsvRow<R>>)
    ensures
        rows_of(entries@, res@),
{
    let mut out: Vec<HistoryCsvRow<R>> = Vec::new();
    let mut i: usize = 0;
    while i < entries.len()
        invariant
            i <= entries@.len(),
            rows_of(entries@.take(i as int), out@),
        decreases entries@.len() - i,
    {
        let entry = &entries[i];
        let ghost before = out@;
        if entry.days.len() == 0 {
            out.push(entry_row(entry, None));
        } else {
            let mut k: usize = 0;
            while k < entry.days.len()
                invariant
                    k <= entry.days@.len(),
                    out@.len() == before.len() + k,
                    out@.take(before.len() as int) == before,
                    forall|j: int|
                        0 <= j < k ==> is_day_row(#[trigger] out@[before.len() + j], *entry, entry.days@[j]),
                decreases entry.days@.len() - k,
            {
                let row = entry_row(entry, Some(&entry.days[k]));
                out.push(row);
                assert(out@.take(before.len() as int) =~= before);
                k = k + 1;
            }
        }
        proof {
            let p2 = entries@.take(i + 1);
            let n = row_count(*entry);
            assert(p2.drop_last() =~= entries@.take(i as int));
            assert(p2.last() == *entry);
            assert(out@.take(out@.len() - n) =~= before);
            let tail = out@.skip(out@.len() - n);
            if entry.days@.len() > 0 {
                assert forall|k: int| 0 <= k < tail.len() implies is_day_row(#[trigger] tail[k], *entry, entry.days@[k]) by {
                    assert(tail[k] == out@[before.len() + k]);
                }
            }
        }
        i = i + 1;
    }
    assert(entries@.take(entries@.len() as int) =~= entries@);
    out
}

} // verus!
