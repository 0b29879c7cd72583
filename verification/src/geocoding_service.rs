//! Resolution of a city/state query against Open-Meteo geocoding results.
//!
//! The query is validated before the geocoding request, and the best result is
//! chosen once the results have arrived.

use vstd::prelude::*;
use crate::text::{trimmed, uppercased, contains_seq, trim_text, uppercase_text, text_contains, text_equals, owned, join5};
use crate::models::duplicate_text_option;

verus! {

/// One candidate place of a geocoding response.
pub struct GeocodingResult<R> {
    pub name: String,
    pub admin1: Option<String>,
    pub country_code: Option<String>,
    pub latitude: R,
    pub longitude: R,
    pub timezone: Option<String>,
}

/// The place a city/state query resolved to.
pub struct ResolvedLocation<R> {
    pub city: String,
    pub state: String,
    pub latitude: R,
    pub longitude: R,
    pub timezone: Option<String>,
}

pub open spec fn missing_city_state_message() -> Seq<char> {
    "City and state are required."@
}

pub open spec fn no_results_message() -> Seq<char> {
    "No matching city results from geocoding API."@
}

pub open spec fn no_us_city_message(city: Seq<char>, state: Seq<char>) -> Seq<char> {
    "No matching US city found for "@ + city + ", "@ + state + "."@
}

/// Validates a city/state query: both must hold something besides white space.
/// Gives back the trimmed city and state that the geocoding request uses.
pub fn geocode_inputs(city: &str, state: &str) -> (res: Result<(String, String), String>)
    ensures
        (trimmed(city@).len() == 0 || trimmed(state@).len() == 0) ==> (res matches Err(e) && e@
            == missing_city_state_message()),
        (trimmed(city@).len() > 0 && trimmed(state@).len() > 0) ==> (res matches Ok(q) && q.0@
            == trimmed(city@) && q.1@ == trimmed(state@)),
{
    let trimmed_city = trim_text(city);
    let trimmed_state = trim_text(state);
    if trimmed_city.is_empty() || trimmed_state.is_empty() {
        return Err(owned("City and state are required."));
    }
    Ok((owned(trimmed_city), owned(trimmed_state)))
}

/// A result in the United States.
pub open spec fn is_us<R>(r: GeocodingResult<R>) -> bool {
    r.country_code matches Some(c) && c@ == "US"@
}

/// A result in the United States whose first-level region, upper-cased, equals
/// or contains the upper-cased state of the query.
pub open spec fn matches_state<R>(r: GeocodingResult<R>, state_upper: Seq<char>) -> bool {
    &&& is_us(r)
    &&& r.admin1 matches Some(a) && (uppercased(a@) == state_upper || contains_seq(
        uppercased(a@),
        state_upper,
    ))
}

pub open spec fn any_state_match<R>(rs: Seq<GeocodingResult<R>>, state_upper: Seq<char>) -> bool {
    exists|i: int| 0 <= i < rs.len() && matches_state(#[trigger] rs[i], state_upper)
}

pub open spec fn any_us<R>(rs: Seq<GeocodingResult<R>>) -> bool {
    exists|i: int| 0 <= i < rs.len() && is_us(#[trigger] rs[i])
}

pub open spec fn is_first_state_match<R>(rs: Seq<GeocodingResult<R>>, state_upper: Seq<char>, i: int) -> bool {
    &&& 0 <= i < rs.len()
    &&& matches_state(rs[i], state_upper)
    &&& forall|k: int| 0 <= k < i ==> !matches_state(#[trigger] rs[k], state_upper)
}

pub open spec fn is_first_us<R>(rs: Seq<GeocodingResult<R>>, i: int) -> bool {
    &&& 0 <= i < rs.len()
    &&& is_us(rs[i])
    &&& forall|k: int| 0 <= k < i ==> !is_us(#[trigger] rs[k])
}

/// The location resolved from result `r` for a query with state `state`.
pub open spec fn resolves_to<R>(loc: ResolvedLocation<R>, r: GeocodingResult<R>, state: Seq<char>) -> bool {
    &&& loc.city == r.name
    &&& loc.state@ == (match r.admin1 {
        Some(a) => a@,
        None => state,
    })
    &&& loc.latitude == r.latitude
    &&& loc.longitude == r.longitude
    &&& loc.timezone == r.timezone
}

/// A resolved location takes the result's name as its city, the result's region
/// as its state (the query's state where the result has none), and the result's
/// latitude, longitude and timezone unchanged.
pub proof fn lemma_resolved_fields<R>(loc: ResolvedLocation<R>, r: GeocodingResult<R>, state: Seq<char>)
    requires
        resolves_to(loc, r, state),
    ensures
        loc.city == r.name,
        r.admin1 is Some ==> loc.state@ == r.admin1->0@,
        r.admin1 is None ==> loc.state@ == state,
        loc.latitude == r.latitude,
        loc.longitude == r.longitude,
        loc.timezone == r.timezone,
{
}

/// A result matches the state only if it is in the US ("US" country code) and
/// its upper-cased region contains the upper-cased state.
pub proof fn lemma_state_match_meaning<R>(r: GeocodingResult<R>, state_upper: Seq<char>)
    ensures
        matches_state(r, state_upper) <==> (r.country_code is Some && r.country_code->0@ == "US"@
            && r.admin1 is Some && (uppercased(r.admin1->0@) == state_upper || exists|i: int|
            0 <= i && i + state_upper.len() <= uppercased(r.admin1->0@).len()
                && #[trigger] uppercased(r.admin1->0@).subrange(i, i + state_upper.len())
                == state_upper)),
{
}

fn is_us_result<R>(r: &GeocodingResult<R>) -> (res: bool)
    ensures
        res == is_us(*r),
{
    match &r.country_code {
        Some(c) => text_equals(c.as_str(), "US"),
        None => false,
    }
}

fn matches_state_result<R>(r: &GeocodingResult<R>, state_upper: &String) -> (res: bool)
    ensures
        res == matches_state(*r, state_upper@),
{
    if !is_us_result(r) {
        return false;
    }
    match &r.admin1 {
        Some(admin1) => {
            let admin_upper = uppercase_text(admin1.as_str());
            admin_upper == *state_upper || text_contains(admin_upper.as_str(), state_upper.as_str())
        },
        None => false,
    }
}

fn resolve<R: Copy>(r: &GeocodingResult<R>, state: &str) -> (res: ResolvedLocation<R>)
    ensures
        resolves_to(res, *r, state@),
{
    ResolvedLocation {
        city: r.name.clone(),
        state: match &r.admin1 {
            Some(a) => a.clone(),
            None => owned(state),
        },
        latitude: r.latitude,
        longitude: r.longitude,
        timezone: duplicate_text_option(&r.timezone),
    }
}

/// Chooses the best geocoding result for a (trimmed) city/state query: the first
/// US result whose region matches the state, else the first US result.
pub fn select_geocoding_result<R: Copy>(
    results: Option<Vec<GeocodingResult<R>>>,
    city: &str,
    state: &str,
) -> (res: Result<ResolvedLocation<R>, String>)
    ensures
        results is None ==> (res matches Err(e) && e@ == no_results_message()),
        results is Some && any_state_match(results->0@, uppercased(state@)) ==> (res matches Ok(
            loc,
        ) && exists|i: int|
            is_first_state_match(results->0@, uppercased(state@), i) && resolves_to(
                loc,
                #[trigger] results->0@[i],
                state@,
            )),
        results is Some && !any_state_match(results->0@, uppercased(state@)) && any_us(
            results->0@,
        ) ==> (res matches Ok(loc) && exists|i: int|
            is_first_us(results->0@, i) && resolves_to(loc, #[trigger] results->0@[i], state@)),
        results is Some && !any_us(results->0@) ==> (res matches Err(e) && e@ == no_us_city_message(
            city@,
            state@,
        )),
{
    let candidates = match results {
        Some(rs) => rs,
        None => {
            return Err(owned("No matching city results from geocoding API."));
        },
    };
    // Exact or partial state matches come first.
    let state_upper = uppercase_text(state);
    let mut i: usize = 0;
    while i < candidates.len()
        invariant
            results == Some(candidates),
            i <= candidates@.len(),
            state_upper@ == uppercased(state@),
            forall|k: int| 0 <= k < i ==> !matches_state(#[trigger] candidates@[k], state_upper@),
        decreases candidates@.len() - i,
    {
        if matches_state_result(&candidates[i], &state_upper) {
            let loc = resolve(&candidates[i], state);
            assert(is_first_state_match(candidates@, state_upper@, i as int));
            assert(resolves_to(loc, candidates@[i as int], state@));
            assert(is_us(candidates@[i as int]));
            return Ok(loc);
        }
        i = i + 1;
    }
    let mut j: usize = 0;
    while j < candidates.len()
        invariant
            results == Some(candidates),
            j <= candidates@.len(),
            state_upper@ == uppercased(state@),
            forall|k: int| 0 <= k < candidates@.len() ==> !matches_state(#[trigger] candidates@[k], state_upper@),
            forall|k: int| 0 <= k < j ==> !is_us(#[trigger] candidates@[k]),
        decreases candidates@.len() - j,
    {
        if is_us_result(&candidates[j]) {
            let loc = resolve(&candidates[j], state);
            assert(is_first_us(candidates@, j as int));
            assert(resolves_to(loc, candidates@[j as int], state@));
            assert(is_us(candidates@[j as int]));
            return Ok(loc);
        }
        j = j + 1;
    }
    Err(join5("No matching US city found for ", city, ", ", state, "."))
}

} // verus!
