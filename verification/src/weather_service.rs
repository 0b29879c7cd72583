//! Open-Meteo forecast/archive orchestration: which endpoints a date range
//! needs, how a response becomes day records, and how the archive and forecast
//! halves of a split range are merged.

use vstd::prelude::*;
use vstd::string::*;
use crate::models::{WeatherDayRecord, WeatherQueryResult, duplicate_days};
use crate::calendar::{CalendarDate, parse_date, parsed_date, invalid_date_message, date_before, previous_date, lemma_previous_date_valid, lemma_previous_date_adjacent, lemma_date_order};
use crate::text::{trimmed, owned};
use crate::weather_code_map::{map_weather_code, code_description};
use crate::text::{text_before, text_equals, text_less, lemma_text_less_trichotomy, lemma_text_less_transitive};

verus! {

/// Day records whose dates strictly ascend in text order.
pub open spec fn dates_ascending<R>(days: Seq<WeatherDayRecord<R>>) -> bool {
    forall|j: int, k: int|
        #![trigger days[j], days[k]]
        0 <= j < k < days.len() ==> text_less(days[j].day_date@, days[k].day_date@)
}

/// Every date of `input` is the date of some record of `out`.
pub open spec fn covers_dates<R>(out: Seq<WeatherDayRecord<R>>, input: Seq<WeatherDayRecord<R>>) -> bool {
    forall|i: int|
        #![trigger input[i]]
        0 <= i < input.len() ==> exists|j: int|
            #![trigger out[j]]
            0 <= j < out.len() && out[j].day_date@ == input[i].day_date@
}

/// No record after position `i` of `input` has the date of record `i`.
pub open spec fn last_with_date<R>(input: Seq<WeatherDayRecord<R>>, i: int) -> bool {
    forall|k: int| #![trigger input[k]] i < k < input.len() ==> input[k].day_date@ != input[i].day_date@
}

/// Every record of `out` is a record of `input` that no later record of `input` shares a date with.
pub open spec fn from_last_records<R>(out: Seq<WeatherDayRecord<R>>, input: Seq<WeatherDayRecord<R>>) -> bool {
    forall|j: int|
        #![trigger out[j]]
        0 <= j < out.len() ==> exists|i: int|
            #![trigger input[i]]
            0 <= i < input.len() && out[j] == input[i] && last_with_date(input, i)
}

/// `out` holds, in ascending date order, one record per date of `input`: the
/// last one of `input` with that date (a map keyed by date, filled in order).
#[verifier::opaque]
pub open spec fn merged_by_date<R>(out: Seq<WeatherDayRecord<R>>, input: Seq<WeatherDayRecord<R>>) -> bool {
    &&& dates_ascending(out)
    &&& covers_dates(out, input)
    &&& from_last_records(out, input)
}

/// The first position of `out` whose date does not come before `date`.
fn insertion_point<R>(out: &Vec<WeatherDayRecord<R>>, date: &str) -> (pos: usize)
    ensures
        pos <= out@.len(),
        forall|j: int| 0 <= j < pos ==> text_less(#[trigger] out@[j].day_date@, date@),
        pos < out@.len() ==> !text_less(out@[pos as int].day_date@, date@),
{
    let mut pos: usize = 0;
    while pos < out.len()
        invariant
            pos <= out@.len(),
            forall|j: int| 0 <= j < pos ==> text_less(#[trigger] out@[j].day_date@, date@),
        decreases out@.len() - pos,
    {
        if !text_before(out[pos].day_date.as_str(), date) {
            return pos;
        }
        pos = pos + 1;
    }
    pos
}

/// Replacing the record at a position by one with the same date keeps the dates ascending.
proof fn lemma_replace_ascending<R>(
    old_out: Seq<WeatherDayRecord<R>>,
    p: Seq<WeatherDayRecord<R>>,
    rec: WeatherDayRecord<R>,
    pos: int,
)
    requires
        dates_ascending(old_out),
        0 <= pos < old_out.len(),
        old_out[pos].day_date@ == rec.day_date@,
    ensures
        dates_ascending(old_out.update(pos, rec)),
{
    let out = old_out.update(pos, rec);
    assert(dates_ascending(out)) by {
        assert forall|j: int, k: int| 0 <= j < k < out.len() implies text_less(
            #[trigger] out[j].day_date@,
            #[trigger] out[k].day_date@,
        ) by {
            assert(old_out[j].day_date@ == out[j].day_date@);
            assert(old_out[k].day_date@ == out[k].day_date@);
        }
    }
}

/// Replacing a record by a later one with the same date keeps every date covered.
proof fn lemma_replace_covers<R>(
    old_out: Seq<WeatherDayRecord<R>>,
    p: Seq<WeatherDayRecord<R>>,
    rec: WeatherDayRecord<R>,
    pos: int,
)
    requires
        covers_dates(old_out, p),
        0 <= pos < old_out.len(),
        old_out[pos].day_date@ == rec.day_date@,
    ensures
        covers_dates(old_out.update(pos, rec), p.push(rec)),
{
    let out = old_out.update(pos, rec);
    let p2 = p.push(rec);
    assert(covers_dates(out, p2)) by {
        assert forall|a: int| #![trigger p2[a]] 0 <= a < p2.len() implies exists|j: int|
            #![trigger out[j]]
            0 <= j < out.len() && out[j].day_date@ == p2[a].day_date@ by {
            if a < p.len() {
                assert(p2[a] == p[a]);
                let j = choose|j: int|
                    #![trigger old_out[j]]
                    0 <= j < old_out.len() && old_out[j].day_date@ == p[a].day_date@;
                assert(out[j].day_date@ == old_out[j].day_date@);
            } else {
                assert(out[pos] == rec);
            }
        }
    }
}

/// Replacing a record by a later one with the same date keeps only last records.
proof fn lemma_replace_origin<R>(
    old_out: Seq<WeatherDayRecord<R>>,
    p: Seq<WeatherDayRecord<R>>,
    rec: WeatherDayRecord<R>,
    pos: int,
)
    requires
        dates_ascending(old_out),
        from_last_records(old_out, p),
        0 <= pos < old_out.len(),
        old_out[pos].day_date@ == rec.day_date@,
    ensures
        from_last_records(old_out.update(pos, rec), p.push(rec)),
{
    let out = old_out.update(pos, rec);
    let p2 = p.push(rec);
    let key = rec.day_date@;
    assert(from_last_records(out, p2)) by {
        assert forall|j: int| #![trigger out[j]] 0 <= j < out.len() implies exists|a: int|
            #![trigger p2[a]]
            0 <= a < p2.len() && out[j] == p2[a] && last_with_date(p2, a) by {
            if j == pos {
                assert(p2[(p2.len() - 1)] == rec);
                assert(last_with_date(p2, (p2.len() - 1)));
            } else {
                let a = choose|a: int|
                    #![trigger p[a]]
                    0 <= a < p.len() && old_out[j] == p[a] && last_with_date(p, a);
                assert(p2[a] == p[a]);
                lemma_text_less_trichotomy(old_out[j].day_date@, key);
                if j < pos {
                    assert(text_less(old_out[j].day_date@, old_out[pos].day_date@));
                } else {
                    assert(text_less(old_out[pos].day_date@, old_out[j].day_date@));
                }
                lemma_text_less_trichotomy(old_out[j].day_date@, old_out[j].day_date@);
                assert forall|k: int| #![trigger p2[k]] a < k < p2.len() implies p2[k].day_date@
                    != p2[a].day_date@ by {
                    if k < p.len() {
                        assert(p2[k] == p[k]);
                    }
                }
            }
        }
    }
}

/// One step of the merge where the date is already present: the record is replaced.
proof fn lemma_replace_step<R>(
    old_out: Seq<WeatherDayRecord<R>>,
    p: Seq<WeatherDayRecord<R>>,
    rec: WeatherDayRecord<R>,
    pos: int,
)
    requires
        merged_by_date(old_out, p),
        0 <= pos < old_out.len(),
        old_out[pos].day_date@ == rec.day_date@,
    ensures
        merged_by_date(old_out.update(pos, rec), p.push(rec)),
{
    reveal(merged_by_date);
    lemma_replace_ascending(old_out, p, rec, pos);
    lemma_replace_covers(old_out, p, rec, pos);
    lemma_replace_origin(old_out, p, rec, pos);
}

/// Inserting a record at its place in date order keeps the dates ascending.
proof fn lemma_insert_ascending<R>(
    old_out: Seq<WeatherDayRecord<R>>,
    p: Seq<WeatherDayRecord<R>>,
    rec: WeatherDayRecord<R>,
    pos: int,
)
    requires
        dates_ascending(old_out),
        0 <= pos <= old_out.len(),
        forall|j: int| 0 <= j < pos ==> text_less(#[trigger] old_out[j].day_date@, rec.day_date@),
        pos < old_out.len() ==> text_less(rec.day_date@, old_out[pos].day_date@),
    ensures
        dates_ascending(old_out.insert(pos, rec)),
{
    let out = old_out.insert(pos, rec);
    let key = rec.day_date@;
    assert(dates_ascending(out)) by {
        assert forall|j: int, k: int| 0 <= j < k < out.len() implies text_less(
            #[trigger] out[j].day_date@,
            #[trigger] out[k].day_date@,
        ) by {
            if k < pos {
                assert(out[j] == old_out[j] && out[k] == old_out[k]);
            } else if k == pos {
                assert(out[j] == old_out[j]);
            } else if j == pos {
                assert(out[k] == old_out[k - 1]);
                if k - 1 > pos {
                    assert(text_less(old_out[pos].day_date@, old_out[k - 1].day_date@));
                    lemma_text_less_transitive(key, old_out[pos].day_date@, old_out[k - 1].day_date@);
                }
            } else if j < pos {
                assert(out[j] == old_out[j] && out[k] == old_out[k - 1]);
            } else {
                assert(out[j] == old_out[j - 1] && out[k] == old_out[k - 1]);
            }
        }
    }
}

/// Inserting a record with a new date keeps every date covered.
proof fn lemma_insert_covers<R>(
    old_out: Seq<WeatherDayRecord<R>>,
    p: Seq<WeatherDayRecord<R>>,
    rec: WeatherDayRecord<R>,
    pos: int,
)
    requires
        covers_dates(old_out, p),
        0 <= pos <= old_out.len(),
        forall|j: int| 0 <= j < pos ==> text_less(#[trigger] old_out[j].day_date@, rec.day_date@),
        pos < old_out.len() ==> text_less(rec.day_date@, old_out[pos].day_date@),
    ensures
        covers_dates(old_out.insert(pos, rec), p.push(rec)),
{
    let out = old_out.insert(pos, rec);
    let p2 = p.push(rec);
    assert(covers_dates(out, p2)) by {
        assert forall|a: int| #![trigger p2[a]] 0 <= a < p2.len() implies exists|j: int|
            #![trigger out[j]]
            0 <= j < out.len() && out[j].day_date@ == p2[a].day_date@ by {
            if a < p.len() {
                assert(p2[a] == p[a]);
                let j = choose|j: int|
                    #![trigger old_out[j]]
                    0 <= j < old_out.len() && old_out[j].day_date@ == p[a].day_date@;
                if j < pos {
                    assert(out[j] == old_out[j]);
                } else {
                    assert(out[j + 1] == old_out[j]);
                }
            } else {
                assert(out[pos] == rec);
            }
        }
    }
}

/// Inserting a record with a new date keeps only last records.
proof fn lemma_insert_origin<R>(
    old_out: Seq<WeatherDayRecord<R>>,
    p: Seq<WeatherDayRecord<R>>,
    rec: WeatherDayRecord<R>,
    pos: int,
)
    requires
        dates_ascending(old_out),
        from_last_records(old_out, p),
        0 <= pos <= old_out.len(),
        forall|j: int| 0 <= j < pos ==> text_less(#[trigger] old_out[j].day_date@, rec.day_date@),
        pos < old_out.len() ==> text_less(rec.day_date@, old_out[pos].day_date@),
    ensures
        from_last_records(old_out.insert(pos, rec), p.push(rec)),
{
    let out = old_out.insert(pos, rec);
    let p2 = p.push(rec);
    let key = rec.day_date@;
    assert(from_last_records(out, p2)) by {
        assert forall|j: int| #![trigger out[j]] 0 <= j < out.len() implies exists|a: int|
            #![trigger p2[a]]
            0 <= a < p2.len() && out[j] == p2[a] && last_with_date(p2, a) by {
            if j == pos {
                assert(p2[(p2.len() - 1)] == rec);
                assert(last_with_date(p2, (p2.len() - 1)));
            } else {
                let oj = if j < pos { j } else { j - 1 };
                assert(out[j] == old_out[oj]);
                let a = choose|a: int|
                    #![trigger p[a]]
                    0 <= a < p.len() && old_out[oj] == p[a] && last_with_date(p, a);
                assert(p2[a] == p[a]);
                lemma_text_less_trichotomy(key, key);
                if oj < pos {
                    lemma_text_less_trichotomy(old_out[oj].day_date@, key);
                } else {
                    if oj > pos {
                        assert(text_less(old_out[pos].day_date@, old_out[oj].day_date@));
                        lemma_text_less_transitive(key, old_out[pos].day_date@, old_out[oj].day_date@);
                    }
                    lemma_text_less_trichotomy(key, old_out[oj].day_date@);
                }
                assert forall|k: int| #![trigger p2[k]] a < k < p2.len() implies p2[k].day_date@
                    != p2[a].day_date@ by {
                    if k < p.len() {
                        assert(p2[k] == p[k]);
                    }
                }
            }
        }
    }
}

/// One step of the merge where the date is new: the record is inserted in date order.
proof fn lemma_insert_step<R>(
    old_out: Seq<WeatherDayRecord<R>>,
    p: Seq<WeatherDayRecord<R>>,
    rec: WeatherDayRecord<R>,
    pos: int,
)
    requires
        merged_by_date(old_out, p),
        0 <= pos <= old_out.len(),
        forall|j: int| 0 <= j < pos ==> text_less(#[trigger] old_out[j].day_date@, rec.day_date@),
        pos < old_out.len() ==> text_less(rec.day_date@, old_out[pos].day_date@),
    ensures
        merged_by_date(old_out.insert(pos, rec), p.push(rec)),
{
    reveal(merged_by_date);
    lemma_insert_ascending(old_out, p, rec, pos);
    lemma_insert_covers(old_out, p, rec, pos);
    lemma_insert_origin(old_out, p, rec, pos);
}

/// When the archive and forecast records of a split range are merged, each
/// forecast record that is the forecast's last for its date appears in the
/// result: the forecast wins over the archive for a date both answered.
pub proof fn lemma_forecast_wins<R>(
    out: Seq<WeatherDayRecord<R>>,
    archive: Seq<WeatherDayRecord<R>>,
    forecast: Seq<WeatherDayRecord<R>>,
    f: int,
)
    requires
        merged_by_date(out, archive + forecast),
        0 <= f < forecast.len(),
        last_with_date(forecast, f),
    ensures
        exists|j: int| 0 <= j < out.len() && #[trigger] out[j] == forecast[f],
{
    reveal(merged_by_date);
    let input = archive + forecast;
    let at = archive.len() + f;
    assert(input[at] == forecast[f]);
    let j = choose|j: int| #![trigger out[j]] 0 <= j < out.len() && out[j].day_date@ == input[at].day_date@;
    let i = choose|i: int| #![trigger input[i]] 0 <= i < input.len() && out[j] == input[i] && last_with_date(input, i);
    if i < at {
        assert(input[at].day_date@ != input[i].day_date@);
    }
    if i > at {
        assert(input[i] == forecast[i - archive.len()]);
        assert(forecast[i - archive.len()].day_date@ != forecast[f].day_date@);
    }
    assert(out[j] == forecast[f]);
}

/// The records of a merge ascend by date.
proof fn lemma_merged_ascending<R>(a: Seq<WeatherDayRecord<R>>, input: Seq<WeatherDayRecord<R>>)
    requires
        merged_by_date(a, input),
    ensures
        dates_ascending(a),
{
    reveal(merged_by_date);
}

/// In a merge, a record at a lower position has an earlier date.
proof fn lemma_merged_order_at<R>(a: Seq<WeatherDayRecord<R>>, input: Seq<WeatherDayRecord<R>>, x: int, y: int)
    requires
        merged_by_date(a, input),
        0 <= x < y < a.len(),
    ensures
        text_less(a[x].day_date@, a[y].day_date@),
{
    lemma_merged_ascending(a, input);
}

/// The position in merge `b` of the date at position `j` of merge `a`.
proof fn lemma_merged_find<R>(
    a: Seq<WeatherDayRecord<R>>,
    b: Seq<WeatherDayRecord<R>>,
    input: Seq<WeatherDayRecord<R>>,
    j: int,
) -> (k: int)
    requires
        merged_by_date(a, input),
        merged_by_date(b, input),
        0 <= j < a.len(),
    ensures
        0 <= k < b.len(),
        b[k].day_date@ == a[j].day_date@,
{
    lemma_merged_origin(a, input);
    lemma_merged_origin(b, input);
    lemma_date_in_other_merge(a, b, input, j)
}

/// Records of two merges of the same input with the same date are equal.
proof fn lemma_merged_same<R>(
    a: Seq<WeatherDayRecord<R>>,
    b: Seq<WeatherDayRecord<R>>,
    input: Seq<WeatherDayRecord<R>>,
    j: int,
    k: int,
)
    requires
        merged_by_date(a, input),
        merged_by_date(b, input),
        0 <= j < a.len(),
        0 <= k < b.len(),
        a[j].day_date@ == b[k].day_date@,
    ensures
        a[j] == b[k],
{
    lemma_merged_last(a, input);
    lemma_merged_last(b, input);
    lemma_same_date_same_record(a, b, input, j, k);
}

/// A merge covers the dates of its input and keeps only last records.
proof fn lemma_merged_origin<R>(a: Seq<WeatherDayRecord<R>>, input: Seq<WeatherDayRecord<R>>)
    requires
        merged_by_date(a, input),
    ensures
        covers_dates(a, input),
        from_last_records(a, input),
{
    reveal(merged_by_date);
}

/// A merge keeps only last records.
proof fn lemma_merged_last<R>(a: Seq<WeatherDayRecord<R>>, input: Seq<WeatherDayRecord<R>>)
    requires
        merged_by_date(a, input),
    ensures
        from_last_records(a, input),
{
    reveal(merged_by_date);
}

/// Two records kept by merges of the same input, with the same date, are the
/// same record: each is the input's last record with that date.
proof fn lemma_same_date_same_record<R>(
    a: Seq<WeatherDayRecord<R>>,
    b: Seq<WeatherDayRecord<R>>,
    input: Seq<WeatherDayRecord<R>>,
    j: int,
    k: int,
)
    requires
        from_last_records(a, input),
        from_last_records(b, input),
        0 <= j < a.len(),
        0 <= k < b.len(),
        a[j].day_date@ == b[k].day_date@,
    ensures
        a[j] == b[k],
{
    let i1 = choose|i: int| #![trigger input[i]] 0 <= i < input.len() && a[j] == input[i] && last_with_date(input, i);
    let i2 = choose|i: int| #![trigger input[i]] 0 <= i < input.len() && b[k] == input[i] && last_with_date(input, i);
    if i1 < i2 {
        assert(input[i2].day_date@ != input[i1].day_date@);
    }
    if i2 < i1 {
        assert(input[i1].day_date@ != input[i2].day_date@);
    }
}

/// A date of a merge of `input` is a date of any other merge of `input`.
proof fn lemma_date_in_other_merge<R>(
    a: Seq<WeatherDayRecord<R>>,
    b: Seq<WeatherDayRecord<R>>,
    input: Seq<WeatherDayRecord<R>>,
    j: int,
) -> (k: int)
    requires
        from_last_records(a, input),
        covers_dates(b, input),
        0 <= j < a.len(),
    ensures
        0 <= k < b.len(),
        b[k].day_date@ == a[j].day_date@,
{
    let i = choose|i: int| #![trigger input[i]] 0 <= i < input.len() && a[j] == input[i] && last_with_date(input, i);
    choose|k: int| #![trigger b[k]] 0 <= k < b.len() && b[k].day_date@ == input[i].day_date@
}

/// Two merges of the same records agree on their first `j` records.
proof fn lemma_merges_agree_upto<R>(
    a: Seq<WeatherDayRecord<R>>,
    b: Seq<WeatherDayRecord<R>>,
    input: Seq<WeatherDayRecord<R>>,
    j: int,
)
    requires
        merged_by_date(a, input),
        merged_by_date(b, input),
        0 <= j <= a.len(),
        j <= b.len(),
    ensures
        forall|m: int| 0 <= m < j ==> a[m] == b[m],
    decreases j,
{
    if j > 0 {
        lemma_merges_agree_upto(a, b, input, j - 1);
        let i = j - 1;
        let k = lemma_merged_find(a, b, input, i);
        if k < i {
            assert(a[k] == b[k]);
            lemma_merged_order_at(a, input, k, i);
            lemma_text_less_trichotomy(a[k].day_date@, a[k].day_date@);
        } else if k > i {
            let m = lemma_merged_find(b, a, input, i);
            lemma_text_less_trichotomy(b[i].day_date@, b[i].day_date@);
            if m < i {
                assert(a[m] == b[m]);
                lemma_merged_order_at(b, input, m, i);
            } else if m == i {
                lemma_merged_order_at(b, input, i, k);
            } else {
                lemma_merged_order_at(b, input, i, k);
                lemma_merged_order_at(a, input, i, m);
                lemma_text_less_transitive(b[i].day_date@, a[i].day_date@, a[m].day_date@);
            }
        }
        lemma_merged_same(a, b, input, i, i);
    }
}

/// Merging by date is determined by its input: any two sequences that are
/// merges of the same records are equal.
pub proof fn lemma_merge_is_determined<R>(
    a: Seq<WeatherDayRecord<R>>,
    b: Seq<WeatherDayRecord<R>>,
    input: Seq<WeatherDayRecord<R>>,
)
    requires
        merged_by_date(a, input),
        merged_by_date(b, input),
    ensures
        a == b,
{
    let n = if a.len() < b.len() {
        a.len() as int
    } else {
        b.len() as int
    };
    lemma_merges_agree_upto(a, b, input, n);
    if a.len() > n {
        let k = lemma_merged_find(a, b, input, n);
        assert(a[k] == b[k]);
        lemma_merged_order_at(a, input, k, n);
        lemma_text_less_trichotomy(a[k].day_date@, a[k].day_date@);
    }
    if b.len() > n {
        let k = lemma_merged_find(b, a, input, n);
        assert(a[k] == b[k]);
        lemma_merged_order_at(b, input, k, n);
        lemma_text_less_trichotomy(b[k].day_date@, b[k].day_date@);
    }
    assert(a =~= b);
}

/// Merges day records by date: one record per date, in ascending date order,
/// where a later record replaces an earlier one with the same date.
pub fn merge_by_date<R: Copy>(records: &[WeatherDayRecord<R>]) -> (res: Vec<WeatherDayRecord<R>>)
    ensures
        merged_by_date(res@, records@),
{
    let mut out: Vec<WeatherDayRecord<R>> = Vec::new();
    let mut i: usize = 0;
    proof {
        reveal(merged_by_date);
    }
    while i < records.len()
        invariant
            i <= records@.len(),
            merged_by_date(out@, records@.take(i as int)),
        decreases records@.len() - i,
    {
        let rec = records[i].duplicate();
        let ghost p = records@.take(i as int);
        let ghost p2 = records@.take(i + 1);
        let ghost old_out = out@;
        assert(p2 =~= p.push(rec));
        let pos = insertion_point(&out, rec.day_date.as_str());
        if pos < out.len() && text_equals(out[pos].day_date.as_str(), rec.day_date.as_str()) {
            out.remove(pos);
            out.insert(pos, rec);
            proof {
                lemma_replace_step(old_out, p, rec, pos as int);
                assert(out@ =~= old_out.update(pos as int, rec));
            }
        } else {
            proof {
                if pos < old_out.len() {
                    lemma_text_less_trichotomy(old_out[pos as int].day_date@, rec.day_date@);
                }
                lemma_insert_step(old_out, p, rec, pos as int);
            }
            out.insert(pos, rec);
        }
        i = i + 1;
    }
    assert(records@.take(records@.len() as int) =~= records@);
    out
}


/// The `current` block of an Open-Meteo response.
pub struct OpenMeteoCurrent<R> {
    pub temperature_2m: Option<R>,
    pub apparent_temperature: Option<R>,
    pub weather_code: Option<i32>,
}

/// The `daily` block of an Open-Meteo response: one entry per day in each list.
pub struct OpenMeteoDaily<R> {
    pub time: Vec<String>,
    pub temperature_2m_max: Option<Vec<R>>,
    pub temperature_2m_min: Option<Vec<R>>,
    pub precipitation_sum: Option<Vec<R>>,
    pub wind_speed_10m_max: Option<Vec<R>>,
    pub weather_code: Option<Vec<i32>>,
}

/// The fields of an Open-Meteo response that the console reads.
pub struct OpenMeteoResponse<R> {
    pub timezone: Option<String>,
    pub current: Option<OpenMeteoCurrent<R>>,
    pub daily: Option<OpenMeteoDaily<R>>,
}

/// What one endpoint (or the merge of two) contributes to a query result.
pub struct PartialWeatherPayload<R> {
    pub timezone: String,
    pub current_temperature_c: Option<R>,
    pub current_apparent_temperature_c: Option<R>,
    pub current_weather_code: Option<i32>,
    pub days: Vec<WeatherDayRecord<R>>,
}

/// The two Open-Meteo endpoints.
#[derive(Clone, Copy, Debug, PartialEq, Eq, Structural)]
pub enum EndpointKind {
    Forecast,
    Archive,
}

pub open spec fn endpoint_url(kind: EndpointKind) -> Seq<char> {
    match kind {
        EndpointKind::Forecast => "https://api.open-meteo.com/v1/forecast"@,
        EndpointKind::Archive => "https://archive-api.open-meteo.com/v1/archive"@,
    }
}

pub open spec fn endpoint_label(kind: EndpointKind) -> Seq<char> {
    match kind {
        EndpointKind::Forecast => "forecast"@,
        EndpointKind::Archive => "archive"@,
    }
}

/// The forecast endpoint is the one labelled "forecast" and served from
/// api.open-meteo.com; the archive endpoint is labelled "archive" and served
/// from archive-api.open-meteo.com.
pub proof fn lemma_endpoint_names(kind: EndpointKind)
    ensures
        endpoint_label(kind) == "forecast"@ <==> kind == EndpointKind::Forecast,
        endpoint_label(kind) == "archive"@ <==> kind == EndpointKind::Archive,
        endpoint_url(kind) == "https://api.open-meteo.com/v1/forecast"@ <==> kind
            == EndpointKind::Forecast,
        endpoint_url(kind) == "https://archive-api.open-meteo.com/v1/archive"@ <==> kind
            == EndpointKind::Archive,
{
    reveal_strlit("forecast");
    reveal_strlit("archive");
    reveal_strlit("https://api.open-meteo.com/v1/forecast");
    reveal_strlit("https://archive-api.open-meteo.com/v1/archive");
    assert("forecast"@ != "archive"@) by { assert("forecast"@.len() != "archive"@.len()); }
    assert("https://api.open-meteo.com/v1/forecast"@ != "https://archive-api.open-meteo.com/v1/archive"@) by {
        assert("https://api.open-meteo.com/v1/forecast"@.len() != "https://archive-api.open-meteo.com/v1/archive"@.len());
    }
}

impl EndpointKind {
    /// The URL of the endpoint.
    pub fn url(self) -> (res: &'static str)
        ensures
            res@ == endpoint_url(self),
    {
        match self {
            EndpointKind::Forecast => "https://api.open-meteo.com/v1/forecast",
            EndpointKind::Archive => "https://archive-api.open-meteo.com/v1/archive",
        }
    }

    /// The source label that the endpoint's day records carry.
    pub fn source_label(self) -> (res: &'static str)
        ensures
            res@ == endpoint_label(self),
    {
        match self {
            EndpointKind::Forecast => "forecast",
            EndpointKind::Archive => "archive",
        }
    }

    /// Whether the request asks for current conditions too (only the forecast does).
    pub fn requests_current(self) -> (res: bool)
        ensures
            res == (self == EndpointKind::Forecast),
    {
        match self {
            EndpointKind::Forecast => true,
            EndpointKind::Archive => false,
        }
    }
}

/// The daily fields every request asks for.
pub fn daily_query_fields() -> (res: &'static str)
    ensures
        res@ == "weather_code,temperature_2m_max,temperature_2m_min,precipitation_sum,wind_speed_10m_max"@,
{
    "weather_code,temperature_2m_max,temperature_2m_min,precipitation_sum,wind_speed_10m_max"
}

/// The current fields the forecast request asks for.
pub fn current_query_fields() -> (res: &'static str)
    ensures
        res@ == "temperature_2m,apparent_temperature,weather_code"@,
{
    "temperature_2m,apparent_temperature,weather_code"
}

/// The timezone query value: the hint where there is one, else `auto`.
pub fn timezone_query_value(hint: &Option<String>) -> (res: String)
    ensures
        res@ == (match hint {
            Some(t) => t@,
            None => "auto"@,
        }),
{
    match hint {
        Some(t) => t.clone(),
        None => owned("auto"),
    }
}

/// Entry `i` of an optional per-day list that should hold `len` entries: the
/// entry where the list is there with exactly `len` entries, else nothing.
pub open spec fn expanded_at<T>(values: Option<Vec<T>>, len: int, i: int) -> Option<T> {
    match values {
        Some(v) => if v@.len() == len {
            Some(v@[i])
        } else {
            None
        },
        None => None,
    }
}

/// Spreads an optional per-day list over `len` days: every entry where the list
/// has exactly `len` entries, otherwise `None` for every day.
pub fn expand_values<T: Copy>(values: Option<Vec<T>>, len: usize) -> (res: Vec<Option<T>>)
    ensures
        res@.len() == len,
        forall|i: int| 0 <= i < len ==> #[trigger] res@[i] == expanded_at(values, len as int, i),
{
    let mut out: Vec<Option<T>> = Vec::new();
    match &values {
        Some(v) => {
            if v.len() == len {
                let mut i: usize = 0;
                while i < len
                    invariant
                        v@.len() == len,
                        values == Some(*v),
                        i <= len,
                        out@.len() == i,
                        forall|j: int| 0 <= j < i ==> #[trigger] out@[j] == expanded_at(values, len as int, j),
                    decreases len - i,
                {
                    out.push(Some(v[i]));
                    i = i + 1;
                }
                return out;
            }
        },
        None => {},
    }
    let mut i: usize = 0;
    while i < len
        invariant
            i <= len,
            out@.len() == i,
            values is None || values->0@.len() != len,
            forall|j: int| 0 <= j < i ==> #[trigger] out@[j] == expanded_at(values, len as int, j),
        decreases len - i,
    {
        out.push(None);
        i = i + 1;
    }
    out
}

/// Spreads an optional list of readings over `len` days (see `expand_values`).
pub fn expand_reading_vec<R: Copy>(values: Option<Vec<R>>, len: usize) -> (res: Vec<Option<R>>)
    ensures
        res@.len() == len,
        forall|i: int| 0 <= i < len ==> #[trigger] res@[i] == expanded_at(values, len as int, i),
{
    expand_values(values, len)
}

/// Spreads an optional list of weather codes over `len` days (see `expand_values`).
pub fn expand_i32_vec(values: Option<Vec<i32>>, len: usize) -> (res: Vec<Option<i32>>)
    ensures
        res@.len() == len,
        forall|i: int| 0 <= i < len ==> #[trigger] res@[i] == expanded_at(values, len as int, i),
{
    expand_values(values, len)
}

/// The description a day record carries for its weather code.
pub open spec fn day_description(code: Option<i32>) -> Seq<char> {
    match code {
        Some(c) => code_description(c as int),
        None => "Unavailable"@,
    }
}

/// Whether a date text of the API parses as `YYYY-MM-DD`.
pub open spec fn date_text_parses(text: Seq<char>) -> bool {
    parsed_date(trimmed(text), "%Y-%m-%d"@) is Some
}

/// Whether position `i` holds the first date text that does not parse.
pub open spec fn is_first_bad_date(times: Seq<String>, i: int) -> bool {
    &&& 0 <= i < times.len()
    &&& !date_text_parses(times[i]@)
    &&& forall|k: int| 0 <= k < i ==> date_text_parses(#[trigger] times[k]@)
}

pub open spec fn no_daily_records_message() -> Seq<char> {
    "Weather API returned no daily records for that date range."@
}

/// What `build_day_records` answers when it fails, where it fails.
pub open spec fn day_records_error<R>(daily: OpenMeteoDaily<R>) -> Seq<char> {
    if daily.time@.len() == 0 {
        no_daily_records_message()
    } else {
        invalid_date_message(daily.time@[choose|i: int| is_first_bad_date(daily.time@, i)]@)
    }
}

/// Whether every date text parses and there is at least one.
pub open spec fn day_records_succeed<R>(daily: OpenMeteoDaily<R>) -> bool {
    &&& daily.time@.len() > 0
    &&& forall|i: int| 0 <= i < daily.time@.len() ==> date_text_parses(#[trigger] daily.time@[i]@)
}

/// The record built for day `i` of a daily block.
pub open spec fn is_day_record<R>(
    daily: OpenMeteoDaily<R>,
    source: Seq<char>,
    i: int,
    rec: WeatherDayRecord<R>,
) -> bool {
    let len = daily.time@.len() as int;
    &&& rec.day_date == daily.time@[i]
    &&& rec.temperature_max_c == expanded_at(daily.temperature_2m_max, len, i)
    &&& rec.temperature_min_c == expanded_at(daily.temperature_2m_min, len, i)
    &&& rec.precipitation_mm == expanded_at(daily.precipitation_sum, len, i)
    &&& rec.wind_speed_max_kmh == expanded_at(daily.wind_speed_10m_max, len, i)
    &&& rec.weather_code == expanded_at(daily.weather_code, len, i)
    &&& rec.weather_description@ == day_description(rec.weather_code)
    &&& rec.source@ == source
}

/// What a built day record holds, field by field: its date is the `i`-th date
/// text; each reading is entry `i` of the response list of the same name where
/// that list has one entry per day (the maximum temperature from
/// `temperature_2m_max`, the minimum from `temperature_2m_min`, precipitation
/// from `precipitation_sum`, wind from `wind_speed_10m_max`, the code from
/// `weather_code`), and nothing where the list is missing or of another length;
/// its source is the given label.
pub proof fn lemma_day_record_fields<R>(
    daily: OpenMeteoDaily<R>,
    source: Seq<char>,
    i: int,
    rec: WeatherDayRecord<R>,
)
    requires
        0 <= i < daily.time@.len(),
        is_day_record(daily, source, i, rec),
    ensures
        rec.day_date == daily.time@[i],
        rec.source@ == source,
        daily.temperature_2m_max is Some && daily.temperature_2m_max->0@.len() == daily.time@.len()
            ==> rec.temperature_max_c == Some(daily.temperature_2m_max->0@[i]),
        !(daily.temperature_2m_max is Some && daily.temperature_2m_max->0@.len()
            == daily.time@.len()) ==> rec.temperature_max_c is None,
        daily.temperature_2m_min is Some && daily.temperature_2m_min->0@.len() == daily.time@.len()
            ==> rec.temperature_min_c == Some(daily.temperature_2m_min->0@[i]),
        !(daily.temperature_2m_min is Some && daily.temperature_2m_min->0@.len()
            == daily.time@.len()) ==> rec.temperature_min_c is None,
        daily.precipitation_sum is Some && daily.precipitation_sum->0@.len() == daily.time@.len()
            ==> rec.precipitation_mm == Some(daily.precipitation_sum->0@[i]),
        !(daily.precipitation_sum is Some && daily.precipitation_sum->0@.len()
            == daily.time@.len()) ==> rec.precipitation_mm is None,
        daily.wind_speed_10m_max is Some && daily.wind_speed_10m_max->0@.len() == daily.time@.len()
            ==> rec.wind_speed_max_kmh == Some(daily.wind_speed_10m_max->0@[i]),
        !(daily.wind_speed_10m_max is Some && daily.wind_speed_10m_max->0@.len()
            == daily.time@.len()) ==> rec.wind_speed_max_kmh is None,
        daily.weather_code is Some && daily.weather_code->0@.len() == daily.time@.len()
            ==> rec.weather_code == Some(daily.weather_code->0@[i]),
        !(daily.weather_code is Some && daily.weather_code->0@.len() == daily.time@.len())
            ==> rec.weather_code is None,
        rec.weather_code is None ==> rec.weather_description@ == "Unavailable"@,
        rec.weather_code is Some ==> rec.weather_description@ == code_description(
            rec.weather_code->0 as int,
        ),
{
}

/// Spreading a per-day list: entry `i` of the list where the list has exactly
/// `len` entries, otherwise nothing.
pub proof fn lemma_expanded_entry<T>(values: Option<Vec<T>>, len: int, i: int)
    ensures
        values is Some && values->0@.len() == len ==> expanded_at(values, len, i) == Some(
            values->0@[i],
        ),
        !(values is Some && values->0@.len() == len) ==> expanded_at(values, len, i) is None,
{
}

/// Turns a daily block into one record per day, checking each date text.
pub fn build_day_records<R: Copy>(daily: OpenMeteoDaily<R>, source: &str) -> (res: Result<
    Vec<WeatherDayRecord<R>>,
    String,
>)
    ensures
        day_records_succeed(daily) ==> (res matches Ok(days) && days@.len() == daily.time@.len()
            && forall|i: int|
            0 <= i < days@.len() ==> is_day_record(daily, source@, i, #[trigger] days@[i])),
        !day_records_succeed(daily) ==> (res matches Err(e) && e@ == day_records_error(daily)),
{
    let len = daily.time.len();
    if len == 0 {
        return Err(owned("Weather API returned no daily records for that date range."));
    }
    let maxs = expand_reading_vec(daily.temperature_2m_max, len);
    let mins = expand_reading_vec(daily.temperature_2m_min, len);
    let precips = expand_reading_vec(daily.precipitation_sum, len);
    let winds = expand_reading_vec(daily.wind_speed_10m_max, len);
    let codes = expand_i32_vec(daily.weather_code, len);

    let mut out: Vec<WeatherDayRecord<R>> = Vec::with_capacity(len);
    let mut i: usize = 0;
    while i < len
        invariant
            len == daily.time@.len(),
            len > 0,
            i <= len,
            maxs@.len() == len && mins@.len() == len && precips@.len() == len,
            winds@.len() == len && codes@.len() == len,
            forall|j: int| 0 <= j < len ==> #[trigger] maxs@[j] == expanded_at(daily.temperature_2m_max, len as int, j),
            forall|j: int| 0 <= j < len ==> #[trigger] mins@[j] == expanded_at(daily.temperature_2m_min, len as int, j),
            forall|j: int| 0 <= j < len ==> #[trigger] precips@[j] == expanded_at(daily.precipitation_sum, len as int, j),
            forall|j: int| 0 <= j < len ==> #[trigger] winds@[j] == expanded_at(daily.wind_speed_10m_max, len as int, j),
            forall|j: int| 0 <= j < len ==> #[trigger] codes@[j] == expanded_at(daily.weather_code, len as int, j),
            out@.len() == i,
            forall|j: int| 0 <= j < i ==> date_text_parses(#[trigger] daily.time@[j]@),
            forall|j: int| 0 <= j < i ==> is_day_record(daily, source@, j, #[trigger] out@[j]),
        decreases len - i,
    {
        let date_text = &daily.time[i];
        // Validate day values so the app fails with a friendly message if the API shape changes.
        match parse_date(date_text.as_str()) {
            Ok(_) => {},
            Err(e) => {
                assert(is_first_bad_date(daily.time@, i as int));
                proof {
                    let c = choose|c: int| is_first_bad_date(daily.time@, c);
                    if c < i {
                        assert(date_text_parses(daily.time@[c]@));
                    }
                    if c > i {
                        assert(date_text_parses(daily.time@[i as int]@));
                    }
                }
                return Err(e);
            },
        }
        let code = codes[i];
        let description = match code {
            Some(c) => owned(map_weather_code(c).0),
            None => owned("Unavailable"),
        };
        out.push(
            WeatherDayRecord {
                day_date: date_text.clone(),
                temperature_max_c: maxs[i],
                temperature_min_c: mins[i],
                precipitation_mm: precips[i],
                wind_speed_max_kmh: winds[i],
                weather_code: code,
                weather_description: description,
                source: owned(source),
            },
        );
        i = i + 1;
    }
    Ok(out)
}

pub open spec fn missing_daily_message() -> Seq<char> {
    "Weather API did not return daily fields."@
}

/// Shapes the response of one endpoint into a payload (the part of a single
/// endpoint fetch after the response has been read).
pub fn payload_from_response<R: Copy>(kind: EndpointKind, response: OpenMeteoResponse<R>) -> (res: Result<
    PartialWeatherPayload<R>,
    String,
>)
    ensures
        response.daily is None ==> (res matches Err(e) && e@ == missing_daily_message()),
        response.daily matches Some(daily) ==> {
            &&& !day_records_succeed(daily) ==> (res matches Err(e) && e@ == day_records_error(daily))
            &&& day_records_succeed(daily) ==> (res matches Ok(payload) && {
                &&& payload.timezone@ == (match response.timezone {
                    Some(t) => t@,
                    None => "unknown"@,
                })
                &&& payload.current_temperature_c == (match response.current {
                    Some(c) => c.temperature_2m,
                    None => None,
                })
                &&& payload.current_apparent_temperature_c == (match response.current {
                    Some(c) => c.apparent_temperature,
                    None => None,
                })
                &&& payload.current_weather_code == (match response.current {
                    Some(c) => c.weather_code,
                    None => None,
                })
                &&& payload.days@.len() == daily.time@.len()
                &&& forall|i: int|
                    0 <= i < payload.days@.len() ==> is_day_record(
                        daily,
                        endpoint_label(kind),
                        i,
                        #[trigger] payload.days@[i],
                    )
            })
        },
{
    let daily = match response.daily {
        Some(d) => d,
        None => {
            return Err(owned("Weather API did not return daily fields."));
        },
    };
    let days = match build_day_records(daily, kind.source_label()) {
        Ok(days) => days,
        Err(e) => {
            return Err(e);
        },
    };
    let timezone = match response.timezone {
        Some(t) => t,
        None => owned("unknown"),
    };
    let (t, a, c) = match &response.current {
        Some(cur) => (cur.temperature_2m, cur.apparent_temperature, cur.weather_code),
        None => (None, None, None),
    };
    Ok(
        PartialWeatherPayload {
            timezone,
            current_temperature_c: t,
            current_apparent_temperature_c: a,
            current_weather_code: c,
            days,
        },
    )
}


/// Which endpoint requests a date range needs.
pub enum FetchPlan {
    /// One request to one endpoint for the whole range.
    Single { kind: EndpointKind, start: CalendarDate, end: CalendarDate },
    /// The past part from the archive, the rest from the forecast.
    Split {
        archive_start: CalendarDate,
        archive_end: CalendarDate,
        forecast_start: CalendarDate,
        forecast_end: CalendarDate,
    },
}

pub open spec fn split_boundary_message() -> Seq<char> {
    "Could not build split date range for archive/forecast boundary."@
}

/// Chooses the endpoints for `start..=end` given today's date: the archive for a
/// range wholly before today, the forecast for one from today on, and both for a
/// range that crosses today (the archive up to yesterday, the forecast from today).
pub fn plan_fetch(start: &CalendarDate, end: &CalendarDate, today: &CalendarDate) -> (res: Result<
    FetchPlan,
    String,
>)
    ensures
        date_before(end@, today@) ==> (res matches Ok(FetchPlan::Single { kind, start: s, end: e })
            && kind == EndpointKind::Archive && s@ == start@ && e@ == end@),
        !date_before(end@, today@) && !date_before(start@, today@) ==> (res matches Ok(
            FetchPlan::Single { kind, start: s, end: e },
        ) && kind == EndpointKind::Forecast && s@ == start@ && e@ == end@),
        !date_before(end@, today@) && date_before(start@, today@) ==> (res matches Ok(
            FetchPlan::Split { archive_start, archive_end, forecast_start, forecast_end },
        ) && archive_start@ == start@ && archive_end@ == previous_date(today@)
            && forecast_start@ == today@ && forecast_end@ == end@
        // the archive part is not empty, and ends on the day before the forecast part starts
         && !date_before(archive_end@, archive_start@) && date_before(archive_end@, forecast_start@)),
{
    if end.is_before(today) {
        return Ok(FetchPlan::Single { kind: EndpointKind::Archive, start: *start, end: *end });
    }
    if !start.is_before(today) {
        return Ok(FetchPlan::Single { kind: EndpointKind::Forecast, start: *start, end: *end });
    }
    let archive_end = match today.previous_day() {
        Some(d) => d,
        None => {
            assert(date_before(start@, today@));
            return Err(owned("Could not build split date range for archive/forecast boundary."));
        },
    };
    proof {
        lemma_previous_date_valid(today@);
        lemma_previous_date_adjacent(today@, start@);
        lemma_date_order(start@, archive_end@, today@);
    }
    Ok(
        FetchPlan::Split {
            archive_start: *start,
            archive_end,
            forecast_start: *today,
            forecast_end: *end,
        },
    )
}

/// Combines the archive and forecast payloads of a split range: the forecast's
/// timezone unless it is empty, the forecast's current conditions, and the day
/// records of both merged by date (the forecast's record wins for a date both have).
pub fn merge_split_payloads<R: Copy>(
    archive: PartialWeatherPayload<R>,
    forecast: PartialWeatherPayload<R>,
) -> (res: PartialWeatherPayload<R>)
    ensures
        res.timezone == (if forecast.timezone@.len() > 0 {
            forecast.timezone
        } else {
            archive.timezone
        }),
        res.current_temperature_c == forecast.current_temperature_c,
        res.current_apparent_temperature_c == forecast.current_apparent_temperature_c,
        res.current_weather_code == forecast.current_weather_code,
        merged_by_date(res.days@, archive.days@ + forecast.days@),
{
    let timezone = if forecast.timezone.as_str().unicode_len() > 0 {
        forecast.timezone.clone()
    } else {
        archive.timezone.clone()
    };
    let mut all = duplicate_days(archive.days.as_slice());
    let mut rest = duplicate_days(forecast.days.as_slice());
    all.append(&mut rest);
    let days = merge_by_date(all.as_slice());
    PartialWeatherPayload {
        timezone,
        current_temperature_c: forecast.current_temperature_c,
        current_apparent_temperature_c: forecast.current_apparent_temperature_c,
        current_weather_code: forecast.current_weather_code,
        days,
    }
}

/// Assembles the result of a query from its location, dates and payload (the
/// part of a weather fetch after the endpoints have answered).
pub fn build_query_result<R: Copy>(
    fetched_at: String,
    city: Option<String>,
    state: Option<String>,
    latitude: R,
    longitude: R,
    start: &CalendarDate,
    end: &CalendarDate,
    payload: PartialWeatherPayload<R>,
) -> (res: WeatherQueryResult<R>)
    ensures
        res.fetched_at == fetched_at,
        res.city == city,
        res.state == state,
        res.latitude == latitude,
        res.longitude == longitude,
        res.timezone == payload.timezone,
        res.start_date@ == crate::calendar::iso_date_text(start@),
        res.end_date@ == crate::calendar::iso_date_text(end@),
        res.current_temperature_c == payload.current_temperature_c,
        res.current_apparent_temperature_c == payload.current_apparent_temperature_c,
        res.current_weather_code == payload.current_weather_code,
        match payload.current_weather_code {
            Some(c) => res.current_weather_description matches Some(d) && d@ == code_description(c as int),
            None => res.current_weather_description is None,
        },
        res.days == payload.days,
{
    let current_weather_description = match payload.current_weather_code {
        Some(code) => Some(owned(map_weather_code(code).0)),
        None => None,
    };
    WeatherQueryResult {
        fetched_at,
        city,
        state,
        latitude,
        longitude,
        timezone: payload.timezone,
        start_date: start.format_ymd(),
        end_date: end.format_ymd(),
        current_temperature_c: payload.current_temperature_c,
        current_apparent_temperature_c: payload.current_apparent_temperature_c,
        current_weather_code: payload.current_weather_code,
        current_weather_description,
        days: payload.days,
    }
}

} // verus!
