//! The console's state and its transitions: the query form, fetch status,
//! latest result, animation choice and history log, as the user acts and the
//! background worker answers. Drawing, the worker thread and file access belong
//! to the program around this library.

use vstd::prelude::*;
use crate::calendar::{CalendarDate, parse_date, parsed_day, invalid_date_message, date_before};
use crate::models::{AnimationMode, HistoryEntry, InputMode, LocationQuery, QuickCity, WeatherQueryRequest, WeatherQueryResult, is_snapshot_of};
use crate::text::{trimmed, trim_text, owned, join2, join3, text_equals};
use crate::weather_code_map::{map_weather_code, code_animation};

verus! {

/// Everything the console shows and edits, except drawing details.
pub struct ConsoleState<R> {
    pub input_mode: InputMode,
    pub city_input: String,
    pub state_input: String,
    pub latitude_input: String,
    pub longitude_input: String,
    pub start_date_input: String,
    pub end_date_input: String,
    pub loading: bool,
    pub status_text: String,
    pub latest_result: Option<WeatherQueryResult<R>>,
    pub animation_override: AnimationMode,
    pub auto_animation_mode: AnimationMode,
    pub history_entries: Vec<HistoryEntry<R>>,
    pub show_export_popup: bool,
    pub export_popup_message: String,
}

/// The mode Auto shows for a result: the first day's weather code, else the
/// current weather code, else clouds.
pub open spec fn auto_mode_for<R>(result: WeatherQueryResult<R>) -> AnimationMode {
    if result.days@.len() > 0 && result.days@[0].weather_code is Some {
        code_animation(result.days@[0].weather_code->0 as int)
    } else if result.current_weather_code is Some {
        code_animation(result.current_weather_code->0 as int)
    } else {
        AnimationMode::Cloud
    }
}

/// Picks the animation mode that Auto shows for a result.
pub fn pick_auto_animation_mode<R>(result: &WeatherQueryResult<R>) -> (res: AnimationMode)
    ensures
        res == auto_mode_for(*result),
{
    if result.days.len() > 0 {
        if let Some(code) = result.days[0].weather_code {
            return map_weather_code(code).1;
        }
    }
    if let Some(code) = result.current_weather_code {
        return map_weather_code(code).1;
    }
    AnimationMode::Cloud
}

/// The outcome of reading the date range of the form.
pub open spec fn date_range_outcome(start: Seq<char>, end: Seq<char>) -> Result<
    ((int, int, int), (int, int, int)),
    Seq<char>,
> {
    if trimmed(start).len() == 0 {
        Err("Start date is required."@)
    } else if trimmed(end).len() == 0 {
        Err("End date is required."@)
    } else {
        match parsed_day(start) {
            None => Err(invalid_date_message(start)),
            Some(a) => match parsed_day(end) {
                None => Err(invalid_date_message(end)),
                Some(b) => if date_before(b, a) {
                    Err("Start date must be on or before End date."@)
                } else {
                    Ok((a, b))
                },
            },
        }
    }
}

/// `res` is what reading the date range of the form gives.
pub open spec fn is_date_range_result(
    start: Seq<char>,
    end: Seq<char>,
    res: Result<(CalendarDate, CalendarDate), String>,
) -> bool {
    match date_range_outcome(start, end) {
        Ok(r) => res matches Ok(d) && d.0@ == r.0 && d.1@ == r.1,
        Err(m) => res matches Err(e) && e@ == m,
    }
}

pub open spec fn city_state_required_message() -> Seq<char> {
    "City and state are required in City/State mode."@
}

pub open spec fn coordinates_required_message() -> Seq<char> {
    "Latitude and longitude are required in coordinate mode."@
}

pub open spec fn invalid_latitude_message() -> Seq<char> {
    "Invalid latitude. Enter a numeric value."@
}

pub open spec fn invalid_longitude_message() -> Seq<char> {
    "Invalid longitude. Enter a numeric value."@
}

/// The error that building a request from the form gives, if any. `latitude`
/// and `longitude` are the numbers read from the trimmed coordinate texts
/// (`None` where a text is not a number).
pub open spec fn request_error<R>(s: ConsoleState<R>, latitude: Option<R>, longitude: Option<R>) -> Option<
    Seq<char>,
> {
    match date_range_outcome(s.start_date_input@, s.end_date_input@) {
        Err(m) => Some(m),
        Ok(r) => match s.input_mode {
            InputMode::CityState => if trimmed(s.city_input@).len() == 0 || trimmed(
                s.state_input@,
            ).len() == 0 {
                Some(city_state_required_message())
            } else {
                None
            },
            InputMode::Coordinates => if trimmed(s.latitude_input@).len() == 0 || trimmed(
                s.longitude_input@,
            ).len() == 0 {
                Some(coordinates_required_message())
            } else if latitude is None {
                Some(invalid_latitude_message())
            } else if longitude is None {
                Some(invalid_longitude_message())
            } else {
                None
            },
        },
    }
}

/// `req` is the request that the form gives when it gives no error: the date
/// range, and the trimmed city and state or the coordinates, by input mode.
pub open spec fn is_request_for<R>(
    s: ConsoleState<R>,
    latitude: Option<R>,
    longitude: Option<R>,
    req: WeatherQueryRequest<R>,
) -> bool {
    &&& date_range_outcome(s.start_date_input@, s.end_date_input@) matches Ok(r) && req.start_date@
        == r.0 && req.end_date@ == r.1
    &&& match s.input_mode {
        InputMode::CityState => req.location matches LocationQuery::CityState { city, state }
            && city@ == trimmed(s.city_input@) && state@ == trimmed(s.state_input@),
        InputMode::Coordinates => latitude is Some && longitude is Some && req.location == (
        LocationQuery::Coordinates { latitude: latitude->0, longitude: longitude->0 }),
    }
}

/// A date range read from the form starts at the date parsed from the start
/// text, ends at the date parsed from the end text, and does not run backwards.
pub proof fn lemma_date_range_from_texts(
    start: Seq<char>,
    end: Seq<char>,
    res: Result<(CalendarDate, CalendarDate), String>,
)
    requires
        is_date_range_result(start, end, res),
    ensures
        res matches Ok(d) ==> parsed_day(start) == Some(d.0@) && parsed_day(end) == Some(d.1@)
            && !date_before(d.1@, d.0@),
        res is Ok ==> trimmed(start).len() > 0 && trimmed(end).len() > 0,
{
}

/// A request built from the form asks for the date parsed from the start text
/// as its start and the date parsed from the end text as its end, start not
/// after end; in City/State mode it carries the trimmed city and state texts.
pub proof fn lemma_request_from_form<R>(
    s: ConsoleState<R>,
    latitude: Option<R>,
    longitude: Option<R>,
    req: WeatherQueryRequest<R>,
)
    requires
        is_request_for(s, latitude, longitude, req),
    ensures
        parsed_day(s.start_date_input@) == Some(req.start_date@),
        parsed_day(s.end_date_input@) == Some(req.end_date@),
        !date_before(req.end_date@, req.start_date@),
        s.input_mode == InputMode::CityState ==> (req.location matches LocationQuery::CityState {
            city,
            state,
        } && city@ == trimmed(s.city_input@) && state@ == trimmed(s.state_input@)),
        s.input_mode == InputMode::Coordinates ==> req.location == (LocationQuery::Coordinates {
            latitude: latitude->0,
            longitude: longitude->0,
        }),
{
}

/// The query form: the input mode and the six input texts.
pub open spec fn same_form<R>(a: ConsoleState<R>, b: ConsoleState<R>) -> bool {
    &&& a.input_mode == b.input_mode
    &&& a.city_input == b.city_input
    &&& a.state_input == b.state_input
    &&& a.latitude_input == b.latitude_input
    &&& a.longitude_input == b.longitude_input
    &&& a.start_date_input == b.start_date_input
    &&& a.end_date_input == b.end_date_input
}

/// The fetch state: whether a fetch runs, the latest result and Auto's pick.
pub open spec fn same_fetch_state<R>(a: ConsoleState<R>, b: ConsoleState<R>) -> bool {
    &&& a.loading == b.loading
    &&& a.latest_result == b.latest_result
    &&& a.auto_animation_mode == b.auto_animation_mode
}

/// The chosen animation, the history log and the export popup.
pub open spec fn same_log_and_view<R>(a: ConsoleState<R>, b: ConsoleState<R>) -> bool {
    &&& a.animation_override == b.animation_override
    &&& a.history_entries == b.history_entries
    &&& a.show_export_popup == b.show_export_popup
    &&& a.export_popup_message == b.export_popup_message
}

impl<R: Copy> ConsoleState<R> {
    /// The console as it starts: Phoenix, AZ in City/State mode, today's date
    /// for both ends of the range, and the history that was loaded.
    pub fn new(today: &str, history_entries: Vec<HistoryEntry<R>>) -> (res: Self)
        ensures
            res.input_mode == InputMode::CityState,
            res.city_input@ == "Phoenix"@,
            res.state_input@ == "AZ"@,
            res.latitude_input@ == "33.4484"@,
            res.longitude_input@ == "-112.0740"@,
            res.start_date_input@ == today@,
            res.end_date_input@ == today@,
            !res.loading,
            res.status_text@ == "Ready"@,
            res.latest_result is None,
            res.animation_override == AnimationMode::Auto,
            res.auto_animation_mode == AnimationMode::Cloud,
            res.history_entries == history_entries,
            !res.show_export_popup,
            res.export_popup_message@ == Seq::<char>::empty(),
    {
        ConsoleState {
            input_mode: InputMode::CityState,
            city_input: owned("Phoenix"),
            state_input: owned("AZ"),
            latitude_input: owned("33.4484"),
            longitude_input: owned("-112.0740"),
            start_date_input: owned(today),
            end_date_input: owned(today),
            loading: false,
            status_text: owned("Ready"),
            latest_result: None,
            animation_override: AnimationMode::Auto,
            auto_animation_mode: AnimationMode::Cloud,
            history_entries,
            show_export_popup: false,
            export_popup_message: String::new(),
        }
    }

    /// Reads the date range of the form.
    pub fn parse_date_range(&self) -> (res: Result<(CalendarDate, CalendarDate), String>)
        ensures
            is_date_range_result(self.start_date_input@, self.end_date_input@, res),
    {
        if trim_text(self.start_date_input.as_str()).is_empty() {
            return Err(owned("Start date is required."));
        }
        if trim_text(self.end_date_input.as_str()).is_empty() {
            return Err(owned("End date is required."));
        }
        let start = match parse_date(self.start_date_input.as_str()) {
            Ok(d) => d,
            Err(e) => {
                return Err(e);
            },
        };
        let end = match parse_date(self.end_date_input.as_str()) {
            Ok(d) => d,
            Err(e) => {
                return Err(e);
            },
        };
        if end.is_before(&start) {
            return Err(owned("Start date must be on or before End date."));
        }
        Ok((start, end))
    }

    /// Builds the weather request from the form. `latitude` and `longitude` are
    /// the numbers read from the trimmed coordinate texts, `None` where a text
    /// is not a number.
    pub fn build_request(&self, latitude: Option<R>, longitude: Option<R>) -> (res: Result<
        WeatherQueryRequest<R>,
        String,
    >)
        ensures
            request_error(*self, latitude, longitude) matches Some(m) ==> (res matches Err(e) && e@
                == m),
            request_error(*self, latitude, longitude) is None ==> (res matches Ok(req)
                && is_request_for(*self, latitude, longitude, req)),
    {
        let (start_date, end_date) = match self.parse_date_range() {
            Ok(r) => r,
            Err(e) => {
                return Err(e);
            },
        };
        let location = match self.input_mode {
            InputMode::CityState => {
                let city = trim_text(self.city_input.as_str());
                let state = trim_text(self.state_input.as_str());
                if city.is_empty() || state.is_empty() {
                    return Err(owned("City and state are required in City/State mode."));
                }
                LocationQuery::CityState { city: owned(city), state: owned(state) }
            },
            InputMode::Coordinates => {
                let lat_text = trim_text(self.latitude_input.as_str());
                let lon_text = trim_text(self.longitude_input.as_str());
                if lat_text.is_empty() || lon_text.is_empty() {
                    return Err(owned("Latitude and longitude are required in coordinate mode."));
                }
                let latitude = match latitude {
                    Some(v) => v,
                    None => {
                        return Err(owned("Invalid latitude. Enter a numeric value."));
                    },
                };
                let longitude = match longitude {
                    Some(v) => v,
                    None => {
                        return Err(owned("Invalid longitude. Enter a numeric value."));
                    },
                };
                LocationQuery::Coordinates { latitude, longitude }
            },
        };
        Ok(WeatherQueryRequest { location, start_date, end_date })
    }

    /// Starts a fetch: nothing while one is running; otherwise the request to
    /// hand to the worker, or the form's error in the status line.
    pub fn start_fetch(&mut self, latitude: Option<R>, longitude: Option<R>) -> (res: Option<
        WeatherQueryRequest<R>,
    >)
        ensures
            old(self).loading ==> res is None && *final(self) == *old(self),
            !old(self).loading ==> same_form(*old(self), *final(self)) && same_log_and_view(
                *old(self),
                *final(self),
            ) && final(self).latest_result == old(self).latest_result
                && final(self).auto_animation_mode == old(self).auto_animation_mode,
            !old(self).loading && request_error(*old(self), latitude, longitude) is Some ==> res is None
                && !final(self).loading && final(self).status_text@ == "Error: "@ + request_error(
                *old(self),
                latitude,
                longitude,
            )->0,
            !old(self).loading && request_error(*old(self), latitude, longitude) is None ==> (
            res matches Some(req) && is_request_for(*old(self), latitude, longitude, req))
                && final(self).loading && final(self).status_text@ == "Fetching weather..."@,
    {
        if self.loading {
            return None;
        }
        let request = match self.build_request(latitude, longitude) {
            Ok(req) => req,
            Err(err) => {
                self.status_text = join2("Error: ", err.as_str());
                return None;
            },
        };
        self.loading = true;
        self.status_text = owned("Fetching weather...");
        Some(request)
    }

    /// The worker delivered a result: show it, pick the Auto animation from it
    /// and append its snapshot to the history log (which the caller then saves).
    pub fn apply_worker_success(&mut self, result: WeatherQueryResult<R>)
        ensures
            !final(self).loading,
            final(self).status_text@ == "Weather loaded"@,
            final(self).auto_animation_mode == auto_mode_for(result),
            final(self).latest_result == Some(result),
            final(self).history_entries@.len() == old(self).history_entries@.len() + 1,
            final(self).history_entries@.take(old(self).history_entries@.len() as int)
                == old(self).history_entries@,
            is_snapshot_of(final(self).history_entries@.last(), result),
            same_form(*old(self), *final(self)),
            final(self).animation_override == old(self).animation_override,
            final(self).show_export_popup == old(self).show_export_popup,
            final(self).export_popup_message == old(self).export_popup_message,
    {
        self.loading = false;
        self.status_text = owned("Weather loaded");
        self.auto_animation_mode = pick_auto_animation_mode(&result);
        let entry = HistoryEntry::from_result(&result);
        self.latest_result = Some(result);
        self.history_entries.push(entry);
        assert(self.history_entries@.take(old(self).history_entries@.len() as int)
            =~= old(self).history_entries@);
    }

    /// Saving the history after a result failed.
    pub fn note_history_save_failed(&mut self, err: &str)
        ensures
            final(self).status_text@ == "Weather loaded, but failed to save history: "@ + err@,
            same_form(*old(self), *final(self)),
            same_fetch_state(*old(self), *final(self)),
            same_log_and_view(*old(self), *final(self)),
    {
        self.status_text = join2("Weather loaded, but failed to save history: ", err);
    }

    /// The worker failed.
    pub fn apply_worker_error(&mut self, err: &str)
        ensures
            !final(self).loading,
            final(self).status_text@ == "Error: "@ + err@,
            same_form(*old(self), *final(self)),
            same_log_and_view(*old(self), *final(self)),
            final(self).latest_result == old(self).latest_result,
            final(self).auto_animation_mode == old(self).auto_animation_mode,
    {
        self.loading = false;
        self.status_text = join2("Error: ", err);
    }

    /// The worker went away without an answer.
    pub fn apply_worker_disconnected(&mut self)
        ensures
            !final(self).loading,
            old(self).status_text@ == "Fetching weather..."@ ==> final(self).status_text@
                == "Error: worker channel disconnected"@,
            old(self).status_text@ != "Fetching weather..."@ ==> final(self).status_text
                == old(self).status_text,
            same_form(*old(self), *final(self)),
            same_log_and_view(*old(self), *final(self)),
            final(self).latest_result == old(self).latest_result,
            final(self).auto_animation_mode == old(self).auto_animation_mode,
    {
        self.loading = false;
        if text_equals(self.status_text.as_str(), "Fetching weather...") {
            self.status_text = owned("Error: worker channel disconnected");
        }
    }

    /// A quick-select city was clicked.
    pub fn select_quick_city(&mut self, entry: QuickCity)
        ensures
            final(self).input_mode == InputMode::CityState,
            final(self).city_input@ == entry.city@,
            final(self).state_input@ == entry.state@,
            final(self).status_text@ == "Quick city selected"@,
            final(self).latitude_input == old(self).latitude_input,
            final(self).longitude_input == old(self).longitude_input,
            final(self).start_date_input == old(self).start_date_input,
            final(self).end_date_input == old(self).end_date_input,
            same_fetch_state(*old(self), *final(self)),
            same_log_and_view(*old(self), *final(self)),
    {
        self.input_mode = InputMode::CityState;
        self.city_input = owned(entry.city);
        self.state_input = owned(entry.state);
        self.status_text = owned("Quick city selected");
    }

    /// Sets both ends of the date range to today's date text.
    pub fn use_today_for_both(&mut self, today: &str)
        ensures
            final(self).start_date_input@ == today@,
            final(self).end_date_input@ == today@,
            final(self).status_text == old(self).status_text,
            final(self).input_mode == old(self).input_mode,
            final(self).city_input == old(self).city_input,
            final(self).state_input == old(self).state_input,
            final(self).latitude_input == old(self).latitude_input,
            final(self).longitude_input == old(self).longitude_input,
            same_fetch_state(*old(self), *final(self)),
            same_log_and_view(*old(self), *final(self)),
    {
        self.start_date_input = owned(today);
        self.end_date_input = owned(today);
    }

    /// A "Today" button was clicked: the range becomes today and the status says so.
    pub fn choose_today_range(&mut self, today: &str)
        ensures
            final(self).start_date_input@ == today@,
            final(self).end_date_input@ == today@,
            final(self).status_text@ == "Date range set to today"@,
            final(self).input_mode == old(self).input_mode,
            final(self).city_input == old(self).city_input,
            final(self).state_input == old(self).state_input,
            final(self).latitude_input == old(self).latitude_input,
            final(self).longitude_input == old(self).longitude_input,
            same_fetch_state(*old(self), *final(self)),
            same_log_and_view(*old(self), *final(self)),
    {
        self.use_today_for_both(today);
        self.status_text = owned("Date range set to today");
    }

    /// The mode the visualization shows: the chosen one, or Auto's pick.
    pub fn effective_animation_mode(&self) -> (res: AnimationMode)
        ensures
            self.animation_override == AnimationMode::Auto ==> res == self.auto_animation_mode,
            self.animation_override != AnimationMode::Auto ==> res == self.animation_override,
    {
        if self.animation_override == AnimationMode::Auto {
            self.auto_animation_mode
        } else {
            self.animation_override
        }
    }

    /// A CSV export finished: with the display text of the file's path, or with
    /// the error.
    pub fn apply_export_result(&mut self, outcome: Result<String, String>)
        ensures
            outcome matches Ok(path) ==> final(self).status_text@ == "Export complete: "@ + path@
                && final(self).export_popup_message@ == "CSV export complete.\n\nSaved to:\n"@
                + path@ && final(self).show_export_popup,
            outcome matches Err(e) ==> final(self).status_text@ == "Error: CSV export failed: "@
                + e@ && final(self).export_popup_message == old(self).export_popup_message
                && final(self).show_export_popup == old(self).show_export_popup,
            same_form(*old(self), *final(self)),
            same_fetch_state(*old(self), *final(self)),
            final(self).animation_override == old(self).animation_override,
            final(self).history_entries == old(self).history_entries,
    {
        match outcome {
            Ok(path) => {
                self.status_text = join2("Export complete: ", path.as_str());
                self.export_popup_message = join2("CSV export complete.\n\nSaved to:\n", path.as_str());
                self.show_export_popup = true;
            },
            Err(e) => {
                self.status_text = join2("Error: CSV export failed: ", e.as_str());
            },
        }
    }

    /// Clearing the saved log finished: the log is emptied where it succeeded.
    pub fn apply_history_cleared(&mut self, outcome: Result<(), String>)
        ensures
            outcome is Ok ==> final(self).history_entries@.len() == 0 && final(self).status_text@
                == "Log cleared"@,
            outcome matches Err(e) ==> final(self).history_entries == old(self).history_entries
                && final(self).status_text@ == "Error: failed to clear log: "@ + e@,
            same_form(*old(self), *final(self)),
            same_fetch_state(*old(self), *final(self)),
            final(self).animation_override == old(self).animation_override,
            final(self).show_export_popup == old(self).show_export_popup,
            final(self).export_popup_message == old(self).export_popup_message,
    {
        match outcome {
            Ok(()) => {
                self.history_entries.clear();
                self.status_text = owned("Log cleared");
            },
            Err(e) => {
                self.status_text = join2("Error: failed to clear log: ", e.as_str());
            },
        }
    }
}

/// The location line of a result: "City, State" for a geocoded query,
/// otherwise "Manual coordinates".
pub fn location_label<R>(result: &WeatherQueryResult<R>) -> (res: String)
    ensures
        (result.city is Some && result.state is Some) ==> res@ == result.city->0@ + ", "@
            + result.state->0@,
        !(result.city is Some && result.state is Some) ==> res@ == "Manual coordinates"@,
{
    match (&result.city, &result.state) {
        (Some(city), Some(state)) => join3(city.as_str(), ", ", state.as_str()),
        _ => owned("Manual coordinates"),
    }
}

/// Auto's pick for a result: the mode of the first day's weather code where the
/// first day has one; otherwise the mode of the current weather code where
/// there is one; otherwise Cloud.
pub proof fn lemma_auto_mode_choice<R>(result: WeatherQueryResult<R>)
    ensures
        result.days@.len() > 0 && result.days@[0].weather_code is Some ==> auto_mode_for(result)
            == code_animation(result.days@[0].weather_code->0 as int),
        !(result.days@.len() > 0 && result.days@[0].weather_code is Some)
            && result.current_weather_code is Some ==> auto_mode_for(result) == code_animation(
            result.current_weather_code->0 as int,
        ),
        !(result.days@.len() > 0 && result.days@[0].weather_code is Some)
            && result.current_weather_code is None ==> auto_mode_for(result) == AnimationMode::Cloud,
{
}

/// Auto's pick is always a concrete scene, so the visualization never has to show "Auto".
pub proof fn lemma_auto_pick_is_concrete<R>(result: WeatherQueryResult<R>)
    ensures
        auto_mode_for(result) != AnimationMode::Auto,
{
}

} // verus!
