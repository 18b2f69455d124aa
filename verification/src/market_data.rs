//! The Fear & Greed index of alternative.me: the items its API returns and
//! reading them as index values.  Requesting the API is done by the
//! application.
use crate::clock::now_millis;
use crate::records::with_label;
use crate::text::{
    i64_parse_error, parse_i64_or_error, parse_i64_spec, parse_u8_or_error, parse_unsigned_spec,
    u8_parse_error,
};
use vstd::prelude::*;
use vstd::string::*;

verus! {

/// The API's address.
pub open spec fn api_base_url() -> Seq<char> {
    "https://api.alternative.me/fng/"@
}

/// One item of the API's data.
#[derive(Debug, Clone)]
pub struct ApiDataItem {
    pub value: String,
    pub value_classification: String,
    pub timestamp: String,
    pub time_until_update: Option<String>,
}

/// A value of the index on a day (counted from 1970-01-01), and when it
/// was collected.
#[derive(Debug, Clone)]
pub struct FearGreedData {
    pub value: u8,
    pub day: i64,
    pub collected_at: i64,
}

/// Errors of market data providers.
#[derive(Debug, Clone)]
pub enum MarketDataError {
    Timeout { provider: String, reason: String },
    ProviderUnavailable { provider: String, reason: String },
    ParseError(String),
}

/// chrono can hold the Unix timestamp `secs`: from January 1 of year
/// -262143 to the end of December 31 of year 262142.
pub open spec fn chrono_secs_in_range(secs: i64) -> bool {
    -8334601228800 <= secs <= 8210266876799
}

/// The UTC day, counted from 1970-01-01, of the Unix timestamp `secs` (what
/// `chrono::DateTime::from_timestamp(secs, 0)` and its `date_naive()`
/// give), or nothing when chrono cannot hold the instant.
fn utc_day(secs: i64) -> (r: Option<i64>)
    ensures
        match r {
            Some(d) => chrono_secs_in_range(secs) && d == secs / 86400,
            None => !chrono_secs_in_range(secs),
        },
{
    if secs < -8334601228800 || secs > 8210266876799 {
        return None;
    }
    if secs >= 0 {
        Some(secs / 86400)
    } else {
        let up: i64 = (-secs + 86399) / 86400;
        assert(-up == secs / 86400) by (nonlinear_arith)
            requires
                secs < 0,
                up == (-secs + 86399) / 86400,
        ;
        Some(-up)
    }
}

/// What reading an item gives: the value and the day of its timestamp, or
/// the message of the first thing that cannot be read.
pub open spec fn item_read(item: ApiDataItem, r: Result<FearGreedData, MarketDataError>) -> bool {
    match parse_unsigned_spec(item.value@, 255) {
        None => r matches Err(MarketDataError::ParseError(m)) && m@ == "Valor inválido: "@
            + u8_parse_error(item.value@),
        Some(v) => match parse_i64_spec(item.timestamp@) {
            None => r matches Err(MarketDataError::ParseError(m)) && m@ == "Timestamp inválido: "@
                + i64_parse_error(item.timestamp@),
            Some(t) => if !chrono_secs_in_range(t as i64) {
                r matches Err(MarketDataError::ParseError(m)) && m@ == "Timestamp inválido"@
            } else {
                r matches Ok(d) && d.value == v && d.day == (t as i64) / 86400
            },
        },
    }
}

/// Reads an item of the API: its value (0 to 255) and the UTC day of its
/// timestamp, in seconds.
pub fn parse_api_item(item: &ApiDataItem) -> (r: Result<FearGreedData, MarketDataError>)
    ensures
        item_read(*item, r),
{
    let value = match parse_u8_or_error(item.value.as_str()) {
        Ok(v) => v,
        Err(e) => {
            let mut m = "Valor inválido: ".to_string();
            m.append(e.as_str());
            return Err(MarketDataError::ParseError(m));
        },
    };
    let timestamp = match parse_i64_or_error(item.timestamp.as_str()) {
        Ok(t) => t,
        Err(e) => {
            let mut m = "Timestamp inválido: ".to_string();
            m.append(e.as_str());
            return Err(MarketDataError::ParseError(m));
        },
    };
    match utc_day(timestamp) {
        Some(day) => Ok(FearGreedData { value, day, collected_at: now_millis() }),
        None => Err(MarketDataError::ParseError("Timestamp inválido".to_string())),
    }
}

/// The request address: the base, with `?limit=` and the limit when one
/// is given.
pub fn request_url(limit: Option<u32>) -> (r: String)
    ensures
        r@ == match limit {
            Some(l) => api_base_url() + "?limit="@ + crate::text::int_text(l as int),
            None => api_base_url(),
        },
{
    let mut url = "https://api.alternative.me/fng/".to_string();
    match limit {
        Some(l) => {
            url.append("?limit=");
            url.append(crate::text::u64_text(l as u64).as_str());
        },
        None => {},
    }
    url
}

/// The provider's name in errors.
pub open spec fn provider_name() -> Seq<char> {
    "alternative.me"@
}

/// The API's own error, when its metadata reports one: the provider is
/// then unavailable for that reason.
pub fn check_metadata(error: &Option<String>) -> (r: Result<(), MarketDataError>)
    ensures
        match error {
            Some(e) => r matches Err(MarketDataError::ProviderUnavailable { provider, reason })
                && provider@ == provider_name() && reason == e,
            None => r is Ok,
        },
{
    match error {
        Some(e) => Err(
            MarketDataError::ProviderUnavailable {
                provider: "alternative.me".to_string(),
                reason: e.clone(),
            },
        ),
        None => Ok(()),
    }
}

/// The current value: the first item read, or an error when the response
/// holds none.
pub fn current_from_items(items: &Vec<ApiDataItem>) -> (r: Result<FearGreedData, MarketDataError>)
    ensures
        items@.len() == 0 ==> (r matches Err(MarketDataError::ParseError(m)) && m@
            == "Resposta vazia"@),
        items@.len() > 0 ==> item_read(items@[0], r),
{
    if items.len() == 0 {
        Err(MarketDataError::ParseError("Resposta vazia".to_string()))
    } else {
        parse_api_item(&items[0])
    }
}

/// Whether the value fetched today is stored: unless today's stored value
/// (when the lookup found one) is the same.
pub fn should_store_current(stored: Option<u8>, fetched: u8) -> (r: bool)
    ensures
        r == match stored {
            Some(v) => v != fetched,
            None => true,
        },
{
    match stored {
        Some(v) => v != fetched,
        None => true,
    }
}

/// What looking up a stored value of a day found.
#[derive(Clone, Copy, Debug, PartialEq, Eq, Structural)]
pub enum StoredLookup {
    Present,
    Absent,
    Failed,
}

/// Whether a past value is stored: only when none is stored for its day;
/// a failed lookup skips it.
pub fn should_store_past(lookup: StoredLookup) -> (r: bool)
    ensures
        r == (lookup == StoredLookup::Absent),
{
    match lookup {
        StoredLookup::Absent => true,
        _ => false,
    }
}

/// What an item reads as: its value and the day of its timestamp, when
/// both can be read.
pub open spec fn item_value(item: ApiDataItem) -> Option<(u8, i64)> {
    match parse_unsigned_spec(item.value@, 255) {
        None => None,
        Some(v) => match parse_i64_spec(item.timestamp@) {
            None => None,
            Some(t) => if chrono_secs_in_range(t as i64) {
                Some((v as u8, ((t as i64) / 86400) as i64))
            } else {
                None
            },
        },
    }
}

/// The values and days of the items that can be read, in order.
pub open spec fn readable_values(items: Seq<ApiDataItem>) -> Seq<(u8, i64)>
    decreases items.len(),
{
    if items.len() == 0 {
        Seq::empty()
    } else {
        let rest = readable_values(items.drop_last());
        match item_value(items.last()) {
            Some(x) => rest.push(x),
            None => rest,
        }
    }
}

/// How many leading values of `s` are of `day` or later.
pub open spec fn lead(s: Seq<(u8, i64)>, day: i64) -> nat
    decreases s.len(),
{
    if s.len() == 0 {
        0
    } else if s[0].1 >= day {
        1 + lead(s.drop_first(), day)
    } else {
        0
    }
}

/// `x` placed after the leading values of its day or later.
pub open spec fn insert_by_day(s: Seq<(u8, i64)>, x: (u8, i64)) -> Seq<(u8, i64)> {
    s.insert(lead(s, x.1) as int, x)
}

/// The values newest day first; values of the same day keep their order.
pub open spec fn newest_first(s: Seq<(u8, i64)>) -> Seq<(u8, i64)>
    decreases s.len(),
{
    if s.len() == 0 {
        s
    } else {
        insert_by_day(newest_first(s.drop_last()), s.last())
    }
}

/// Days never grow along `s`.
pub open spec fn by_day_desc(s: Seq<(u8, i64)>) -> bool {
    forall|i: int, j: int| 0 <= i < j < s.len() ==> #[trigger] s[i].1 >= #[trigger] s[j].1
}

/// The value and day of each datum.
pub open spec fn data_views(v: Seq<FearGreedData>) -> Seq<(u8, i64)> {
    v.map_values(|d: FearGreedData| (d.value, d.day))
}

/// Reading an item succeeds exactly when it has a value, and gives that.
proof fn lemma_item_read_value(item: ApiDataItem, r: Result<FearGreedData, MarketDataError>)
    requires
        item_read(item, r),
    ensures
        r is Ok <==> item_value(item) is Some,
        r matches Ok(d) ==> item_value(item) == Some((d.value, d.day)),
{
}

/// The leading values of `day` or later stop at the first earlier one.
proof fn lemma_lead(s: Seq<(u8, i64)>, day: i64)
    ensures
        lead(s, day) <= s.len(),
        forall|k: int| 0 <= k < lead(s, day) ==> s[k].1 >= day,
        lead(s, day) < s.len() ==> s[lead(s, day) as int].1 < day,
    decreases s.len(),
{
    if s.len() > 0 && s[0].1 >= day {
        lemma_lead(s.drop_first(), day);
        assert forall|k: int| 0 <= k < lead(s, day) implies s[k].1 >= day by {
            if k > 0 {
                assert(s[k] == s.drop_first()[k - 1]);
            }
        }
    }
}

/// A scan that stops at the first earlier value finds the lead.
proof fn lemma_lead_is(s: Seq<(u8, i64)>, day: i64, p: int)
    requires
        0 <= p <= s.len(),
        forall|k: int| 0 <= k < p ==> s[k].1 >= day,
        p < s.len() ==> s[p].1 < day,
    ensures
        lead(s, day) == p,
    decreases p,
{
    if p > 0 {
        assert forall|k: int| 0 <= k < p - 1 implies s.drop_first()[k].1 >= day by {
            assert(s.drop_first()[k] == s[k + 1]);
        }
        if p - 1 < s.drop_first().len() {
            assert(s.drop_first()[p - 1] == s[p]);
        }
        lemma_lead_is(s.drop_first(), day, p - 1);
    }
}

/// Placing a value by its day keeps the days non-increasing and the
/// values the same, one more.
proof fn lemma_insert_by_day(s: Seq<(u8, i64)>, x: (u8, i64))
    requires
        by_day_desc(s),
    ensures
        by_day_desc(insert_by_day(s, x)),
        insert_by_day(s, x).to_multiset() == s.to_multiset().insert(x),
{
    lemma_lead(s, x.1);
    let p = lead(s, x.1) as int;
    let t = s.insert(p, x);
    assert forall|i: int, j: int| 0 <= i < j < t.len() implies #[trigger] t[i].1 >= #[trigger] t[j].1 by {
        if j < p {
            assert(t[i] == s[i] && t[j] == s[j]);
        } else if j == p {
            assert(t[i] == s[i]);
        } else if i < p {
            assert(t[i] == s[i] && t[j] == s[j - 1]);
            assert(s[i].1 >= s[j - 1].1);
        } else if i == p {
            assert(t[j] == s[j - 1]);
            assert(s[j - 1].1 <= s[p].1);
        } else {
            assert(t[i] == s[i - 1] && t[j] == s[j - 1]);
        }
    }
    vstd::seq_lib::to_multiset_insert(s, p, x);
}

/// The values that can be read from the items, newest day first; values
/// of the same day keep the items' order.
pub fn history_from_items(items: &Vec<ApiDataItem>) -> (r: Vec<FearGreedData>)
    ensures
        data_views(r@) == newest_first(readable_values(items@)),
        by_day_desc(data_views(r@)),
        data_views(r@).to_multiset() == readable_values(items@).to_multiset(),
{
    let mut out: Vec<FearGreedData> = Vec::new();
    let mut i: usize = 0;
    assert(data_views(out@) =~= Seq::<(u8, i64)>::empty());
    assert(items@.take(0) =~= Seq::<ApiDataItem>::empty());
    proof {
        broadcast use vstd::seq_lib::group_to_multiset_ensures;
    }
    while i < items.len()
        invariant
            i <= items@.len(),
            data_views(out@) == newest_first(readable_values(items@.take(i as int))),
            by_day_desc(data_views(out@)),
            data_views(out@).to_multiset() == readable_values(items@.take(i as int)).to_multiset(),
        decreases items@.len() - i,
    {
        let ghost before = readable_values(items@.take(i as int));
        proof {
            let t = items@.take(i as int + 1);
            assert(t.drop_last() =~= items@.take(i as int));
            assert(t.last() == items@[i as int]);
        }
        let read = parse_api_item(&items[i]);
        proof {
            lemma_item_read_value(items@[i as int], read);
        }
        match read {
            Ok(d) => {
                let ghost views = data_views(out@);
                let mut p: usize = 0;
                while p < out.len() && out[p].day >= d.day
                    invariant
                        p <= out@.len(),
                        views == data_views(out@),
                        forall|k: int| 0 <= k < p ==> views[k].1 >= d.day,
                    decreases out@.len() - p,
                {
                    p += 1;
                }
                proof {
                    lemma_lead_is(views, d.day, p as int);
                    lemma_insert_by_day(views, (d.value, d.day));
                    broadcast use vstd::seq_lib::group_to_multiset_ensures;
                }
                out.insert(p, d);
                assert(data_views(out@) =~= views.insert(p as int, (d.value, d.day)));
                proof {
                    let after = readable_values(items@.take(i as int + 1));
                    assert(after =~= before.push((d.value, d.day)));
                    assert(after.drop_last() =~= before);
                    assert(newest_first(after) == insert_by_day(newest_first(before), after.last()));
                }
            },
            Err(_) => {},
        }
        i += 1;
    }
    assert(items@.take(items@.len() as int) =~= items@);
    out
}

// ---------------------------------------------------------------------------
// Stored values.

/// The day, counted from 1970-01-01, that chrono reads from a text in the
/// form `%Y-%m-%d`, when it reads one.
pub uninterp spec fn date_from_text(text: Seq<char>) -> Option<i64>;

/// The message of chrono's error for a text it cannot read as a date.
pub uninterp spec fn date_error_text(text: Seq<char>) -> Seq<char>;

/// `chrono::NaiveDate::parse_from_str(text, "%Y-%m-%d")`, counted in days
/// from 1970-01-01, or the error's message; both depend on the text alone.
#[verifier::external_body]
fn parse_day(text: &str) -> (r: Result<i64, String>)
    ensures
        match date_from_text(text@) {
            Some(d) => r == Ok::<i64, String>(d),
            None => r matches Err(e) && e@ == date_error_text(text@),
        },
{
    match chrono::NaiveDate::parse_from_str(text, "%Y-%m-%d") {
        Ok(d) => Ok(d.signed_duration_since(chrono::NaiveDate::default()).num_days()),
        Err(e) => Err(e.to_string()),
    }
}

/// The instant, in milliseconds, that chrono reads from an RFC 3339 text
/// (`DateTime::parse_from_rfc3339`), when it reads one.
pub uninterp spec fn rfc3339_from_text(text: Seq<char>) -> Option<i64>;

/// The message of chrono's error for a text that is not RFC 3339.
pub uninterp spec fn rfc3339_error_text(text: Seq<char>) -> Seq<char>;

/// `chrono::DateTime::parse_from_rfc3339`, in milliseconds since the Unix
/// epoch, or the error's message; both depend on the text alone.
#[verifier::external_body]
pub(crate) fn parse_rfc3339(text: &str) -> (r: Result<i64, String>)
    ensures
        match rfc3339_from_text(text@) {
            Some(t) => r == Ok::<i64, String>(t),
            None => r matches Err(e) && e@ == rfc3339_error_text(text@),
        },
{
    match chrono::DateTime::parse_from_rfc3339(text) {
        Ok(t) => Ok(t.timestamp_millis()),
        Err(e) => Err(e.to_string()),
    }
}

/// The instant, in milliseconds, that chrono reads from a text in the form
/// `%Y-%m-%d %H:%M:%S`, taken as UTC, when it reads one.
pub uninterp spec fn naive_datetime_from_text(text: Seq<char>) -> Option<i64>;

/// The message of chrono's error for a text not in that form.
pub uninterp spec fn naive_datetime_error_text(text: Seq<char>) -> Seq<char>;

/// `chrono::NaiveDateTime::parse_from_str(text, "%Y-%m-%d %H:%M:%S")` and
/// `and_utc()`, in milliseconds since the Unix epoch, or the error's
/// message; both depend on the text alone.
#[verifier::external_body]
pub(crate) fn parse_naive_datetime(text: &str) -> (r: Result<i64, String>)
    ensures
        match naive_datetime_from_text(text@) {
            Some(t) => r == Ok::<i64, String>(t),
            None => r matches Err(e) && e@ == naive_datetime_error_text(text@),
        },
{
    match chrono::NaiveDateTime::parse_from_str(text, "%Y-%m-%d %H:%M:%S") {
        Ok(t) => Ok(t.and_utc().timestamp_millis()),
        Err(e) => Err(e.to_string()),
    }
}

/// An index value as the `fear_greed` table stores it.
#[derive(Debug, Clone)]
pub struct FearGreedRecord {
    pub value: i32,
    pub classification: String,
    pub date: String,
    pub collected_at: String,
}

/// The message of the first field of a stored index value that cannot be
/// read: the date, then the collection instant.
pub open spec fn fear_greed_record_error(row: FearGreedRecord) -> Option<Seq<char>> {
    match date_from_text(row.date@) {
        None => Some("Data inválida: "@ + date_error_text(row.date@)),
        Some(_) => match rfc3339_from_text(row.collected_at@) {
            None => Some("Timestamp inválido: "@ + rfc3339_error_text(row.collected_at@)),
            Some(_) => None,
        },
    }
}

/// Reads an index value back from its stored row: the low byte of the
/// stored value, its day and its collection instant; the stored
/// classification is not read (it follows from the value).
pub fn fear_greed_from_record(row: FearGreedRecord) -> (r: Result<FearGreedData, String>)
    ensures
        match fear_greed_record_error(row) {
            Some(m) => r matches Err(e) && e@ == m,
            None => r matches Ok(d) && d.value == row.value as u8 && date_from_text(row.date@)
                == Some(d.day) && rfc3339_from_text(row.collected_at@) == Some(d.collected_at),
        },
{
    let day = match parse_day(row.date.as_str()) {
        Ok(d) => d,
        Err(e) => return Err(with_label("Data inválida: ", e)),
    };
    let collected_at = match parse_rfc3339(row.collected_at.as_str()) {
        Ok(t) => t,
        Err(e) => return Err(with_label("Timestamp inválido: ", e)),
    };
    Ok(FearGreedData { value: row.value as u8, day, collected_at })
}

} // verus!
