//! iCalendar (RFC 5545) text, CalDAV request bodies and the reading of
//! CalDAV replies.

use vstd::prelude::*;
use vstd::string::*;

use crate::error::{AdapterError, invalid_params, is_invalid_params};
use crate::json::{JsonNumber, JsonValue, entries_of, keys_of, lookup, str_field, str_of, uint, value_at};
use crate::text::{
    ascii_lowered, chars_of, clean_line_part, contains, is_ascii_text, crlf_text, find, find_from_exec, is_ws, lemma_crlf_text_append,
    lemma_find_char_from, lemma_lines_crlf_text, lemma_trim_unchanged, lines, split_lines,
    str_contains, string_of, trim, trim_chars,
};

verus! {

/// Default number of days ahead to look for events.
pub const DEFAULT_DAYS_AHEAD: i64 = 7;

// ---------------------------------------------------------------------------
// Date and time formats
// ---------------------------------------------------------------------------

/// `YYYYMMDDTHHMMSSZ` for a text that parses as an RFC 3339 date-time, as
/// chrono formats it.
pub uninterp spec fn rfc3339_compact(s: Seq<char>) -> Option<Seq<char>>;

/// `YYYYMMDDTHHMMSS` for a text of the form `%Y-%m-%dT%H:%M:%S`, as chrono
/// parses and formats it.
pub uninterp spec fn naive_datetime_compact(s: Seq<char>) -> Option<Seq<char>>;

/// `YYYYMMDD` for a text of the form `%Y-%m-%d`, as chrono parses and
/// formats it.
pub uninterp spec fn naive_date_compact(s: Seq<char>) -> Option<Seq<char>>;

/// `chrono::DateTime::parse_from_rfc3339`, then `format("%Y%m%dT%H%M%SZ")`:
/// parsing and formatting depend on the text alone, so the result is named.
#[verifier::external_body]
fn parse_rfc3339_compact(iso: &str) -> (r: Option<String>)
    ensures
        match r {
            Some(x) => rfc3339_compact(iso@) == Some(x@),
            None => rfc3339_compact(iso@) is None,
        },
{
    match chrono::DateTime::parse_from_rfc3339(iso) {
        Ok(dt) => Some(dt.format("%Y%m%dT%H%M%SZ").to_string()),
        Err(_) => None,
    }
}

/// `chrono::NaiveDateTime::parse_from_str(iso, "%Y-%m-%dT%H:%M:%S")`, then
/// `format("%Y%m%dT%H%M%S")`; the result is named.
#[verifier::external_body]
fn parse_naive_datetime_compact(iso: &str) -> (r: Option<String>)
    ensures
        match r {
            Some(x) => naive_datetime_compact(iso@) == Some(x@),
            None => naive_datetime_compact(iso@) is None,
        },
{
    match chrono::NaiveDateTime::parse_from_str(iso, "%Y-%m-%dT%H:%M:%S") {
        Ok(dt) => Some(dt.format("%Y%m%dT%H%M%S").to_string()),
        Err(_) => None,
    }
}

/// `chrono::NaiveDate::parse_from_str(iso, "%Y-%m-%d")`, then
/// `format("%Y%m%d")`; the result is named.
#[verifier::external_body]
fn parse_naive_date_compact(iso: &str) -> (r: Option<String>)
    ensures
        match r {
            Some(x) => naive_date_compact(iso@) == Some(x@),
            None => naive_date_compact(iso@) is None,
        },
{
    match chrono::NaiveDate::parse_from_str(iso, "%Y-%m-%d") {
        Ok(dt) => Some(dt.format("%Y%m%d").to_string()),
        Err(_) => None,
    }
}

/// The iCalendar form of a date-time text: the first of the three formats
/// that parses it, else the text unchanged.
pub open spec fn ical_datetime_from(iso: Seq<char>, a: Option<Seq<char>>, b: Option<Seq<char>>, c: Option<Seq<char>>) -> Seq<char> {
    match a {
        Some(x) => x,
        None => match b {
            Some(x) => x,
            None => match c {
                Some(x) => x,
                None => iso,
            },
        },
    }
}

/// The iCalendar form of an ISO 8601 text.
pub open spec fn ical_datetime(iso: Seq<char>) -> Seq<char> {
    ical_datetime_from(iso, rfc3339_compact(iso), naive_datetime_compact(iso), naive_date_compact(iso))
}

/// Chooses the iCalendar form from the results of the three parsers.
pub fn choose_ical_datetime(iso: &str, rfc3339: Option<String>, naive_datetime: Option<String>, naive_date: Option<String>) -> (r: String)
    ensures
        r@ == ical_datetime_from(
            iso@,
            match rfc3339 {
                Some(x) => Some(x@),
                None => None,
            },
            match naive_datetime {
                Some(x) => Some(x@),
                None => None,
            },
            match naive_date {
                Some(x) => Some(x@),
                None => None,
            },
        ),
{
    match rfc3339 {
        Some(x) => x,
        None => match naive_datetime {
            Some(x) => x,
            None => match naive_date {
                Some(x) => x,
                None => String::from_str(iso),
            },
        },
    }
}

/// Formats an ISO 8601 date-time for DTSTART/DTEND: `2026-02-24T10:00:00Z`
/// becomes `20260224T100000Z`; text that does not parse is kept.
pub fn format_ical_datetime(iso: &str) -> (r: String)
    ensures
        r@ == ical_datetime(iso@),
{
    let a = parse_rfc3339_compact(iso);
    if a.is_some() {
        return choose_ical_datetime(iso, a, None, None);
    }
    let b = parse_naive_datetime_compact(iso);
    if b.is_some() {
        return choose_ical_datetime(iso, a, b, None);
    }
    let c = parse_naive_date_compact(iso);
    choose_ical_datetime(iso, a, b, c)
}

// ---------------------------------------------------------------------------
// iCalendar events
// ---------------------------------------------------------------------------

/// An optional `NAME:value` line.
pub open spec fn optional_line(name: Seq<char>, value: Option<Seq<char>>) -> Seq<char> {
    match value {
        Some(v) => name + v + "\r\n"@,
        None => Seq::empty(),
    }
}

/// The VCALENDAR text of one event, with its times already formatted.
pub open spec fn ical_text(uid: Seq<char>, summary: Seq<char>, dtstart: Seq<char>, dtend: Seq<char>, description: Option<Seq<char>>, location: Option<Seq<char>>) -> Seq<char> {
    "BEGIN:VCALENDAR\r\n"@ + "VERSION:2.0\r\n"@ + "PRODID:-//OpenIntentOS//Calendar//EN\r\n"@
        + "BEGIN:VEVENT\r\n"@ + "UID:"@ + uid + "\r\n"@ + "DTSTART:"@ + dtstart + "\r\n"@ + "DTEND:"@
        + dtend + "\r\n"@ + "SUMMARY:"@ + summary + "\r\n"@ + optional_line("DESCRIPTION:"@, description)
        + optional_line("LOCATION:"@, location) + "END:VEVENT\r\n"@ + "END:VCALENDAR\r\n"@
}

/// The view of an optional string slice.
pub open spec fn opt_view(o: Option<&str>) -> Option<Seq<char>> {
    match o {
        Some(s) => Some(s@),
        None => None,
    }
}

/// Generates the VCALENDAR text for a new event; `start` and `end` are
/// ISO 8601 texts.
pub fn generate_ical_event(uid: &str, summary: &str, start: &str, end: &str, description: Option<&str>, location: Option<&str>) -> (r: String)
    ensures
        r@ == ical_text(
            uid@,
            summary@,
            ical_datetime(start@),
            ical_datetime(end@),
            opt_view(description),
            opt_view(location),
        ),
{
    let dtstart = format_ical_datetime(start);
    let dtend = format_ical_datetime(end);
    let mut ical = String::from_str("BEGIN:VCALENDAR\r\n");
    ical.append("VERSION:2.0\r\n");
    ical.append("PRODID:-//OpenIntentOS//Calendar//EN\r\n");
    ical.append("BEGIN:VEVENT\r\n");
    ical.append("UID:");
    ical.append(uid);
    ical.append("\r\n");
    ical.append("DTSTART:");
    ical.append(dtstart.as_str());
    ical.append("\r\n");
    ical.append("DTEND:");
    ical.append(dtend.as_str());
    ical.append("\r\n");
    ical.append("SUMMARY:");
    ical.append(summary);
    ical.append("\r\n");
    let ghost before_opt = ical@;
    match description {
        Some(d) => {
            ical.append("DESCRIPTION:");
            ical.append(d);
            ical.append("\r\n");
        },
        None => {},
    }
    assert(ical@ =~= before_opt + optional_line("DESCRIPTION:"@, opt_view(description)));
    let ghost before_loc = ical@;
    match location {
        Some(l) => {
            ical.append("LOCATION:");
            ical.append(l);
            ical.append("\r\n");
        },
        None => {},
    }
    assert(ical@ =~= before_loc + optional_line("LOCATION:"@, opt_view(location)));
    ical.append("END:VEVENT\r\n");
    ical.append("END:VCALENDAR\r\n");
    ical
}

// ---------------------------------------------------------------------------
// CalDAV XML request bodies
// ---------------------------------------------------------------------------

/// The CalDAV REPORT body asking for the events between `start` and `end`.
pub open spec fn calendar_query_xml(start: Seq<char>, end: Seq<char>) -> Seq<char> {
    r#"<?xml version="1.0" encoding="utf-8" ?>
<C:calendar-query xmlns:D="DAV:" xmlns:C="urn:ietf:params:xml:ns:caldav">
  <D:prop>
    <D:getetag/>
    <C:calendar-data/>
  </D:prop>
  <C:filter>
    <C:comp-filter name="VCALENDAR">
      <C:comp-filter name="VEVENT">
        <C:time-range start=""#@ + start + r#"" end=""#@ + end + r#""/>
      </C:comp-filter>
    </C:comp-filter>
  </C:filter>
</C:calendar-query>"#@
}

/// `YYYYMMDDTHHMMSSZ` for a Unix time in seconds, as chrono formats it;
/// `None` when the time is outside chrono's range.
pub uninterp spec fn caldav_datetime_of(secs: int) -> Option<Seq<char>>;

/// `chrono::DateTime::<Utc>::from_timestamp(secs, 0)`, then
/// `format("%Y%m%dT%H%M%SZ")`: the UTC date and time of a Unix time, which
/// depend on the time alone; `None` when chrono cannot represent it.
#[verifier::external_body]
pub fn format_caldav_datetime(secs: i64) -> (r: Option<String>)
    ensures
        match r {
            Some(x) => caldav_datetime_of(secs as int) == Some(x@),
            None => caldav_datetime_of(secs as int) is None,
        },
{
    match chrono::DateTime::<chrono::Utc>::from_timestamp(secs, 0) {
        Some(dt) => Some(dt.format("%Y%m%dT%H%M%SZ").to_string()),
        None => None,
    }
}

/// Seconds in a day.
pub const SECONDS_PER_DAY: i64 = 86400;

/// The reason given when a time window cannot be written.
pub open spec fn window_reason() -> Seq<char> {
    "days_ahead is out of range"@
}

/// The two ends of the window from `now` (Unix seconds) to `days_ahead`
/// days later, in CalDAV form, when both can be written.
pub open spec fn window_ends(now: int, days_ahead: int) -> Option<(Seq<char>, Seq<char>)> {
    let end = now + days_ahead * SECONDS_PER_DAY;
    if i64::MIN <= end && end <= i64::MAX {
        match (caldav_datetime_of(now), caldav_datetime_of(end)) {
            (Some(a), Some(b)) => Some((a, b)),
            _ => None,
        }
    } else {
        None
    }
}

/// The CalDAV times of the window from `now_secs` to `days_ahead` days
/// later; an invalid parameter of `tool` when an end is out of range.
pub fn window_at(tool: &str, now_secs: i64, days_ahead: i64) -> (r: Result<(String, String), AdapterError>)
    ensures
        match window_ends(now_secs as int, days_ahead as int) {
            Some((a, b)) => r matches Ok((x, y)) && x@ == a && y@ == b,
            None => r matches Err(e) && is_invalid_params(e, tool@, window_reason()),
        },
{
    let d: i128 = days_ahead as i128;
    assert(-0x8000_0000_0000_0000 * 86400 <= d * 86400 <= 0x7fff_ffff_ffff_ffff * 86400) by (nonlinear_arith)
        requires
            -0x8000_0000_0000_0000 <= d <= 0x7fff_ffff_ffff_ffff,
    ;
    let end: i128 = (now_secs as i128) + d * 86400;
    if end < (i64::MIN as i128) || end > (i64::MAX as i128) {
        return Err(invalid_params(tool, String::from_str("days_ahead is out of range")));
    }
    let start = format_caldav_datetime(now_secs);
    let stop = format_caldav_datetime(end as i64);
    match (start, stop) {
        (Some(a), Some(b)) => Ok((a, b)),
        _ => Err(invalid_params(tool, String::from_str("days_ahead is out of range"))),
    }
}

/// The CalDAV times of the window from now, by the clock, to `days_ahead`
/// days later.
pub fn window_now(tool: &str, days_ahead: i64) -> (r: Result<(String, String), AdapterError>)
    ensures
        exists|now: i64|
            match #[trigger] window_ends(now as int, days_ahead as int) {
                Some((a, b)) => r matches Ok((x, y)) && x@ == a && y@ == b,
                None => r matches Err(e) && is_invalid_params(e, tool@, window_reason()),
            },
{
    let now = crate::cron::unix_now();
    window_at(tool, now, days_ahead)
}

/// Builds the CalDAV REPORT body for listing events in a time range.
pub fn build_calendar_query_xml(start: &str, end: &str) -> (r: String)
    ensures
        r@ == calendar_query_xml(start@, end@),
{
    let mut s = String::from_str(
        r#"<?xml version="1.0" encoding="utf-8" ?>
<C:calendar-query xmlns:D="DAV:" xmlns:C="urn:ietf:params:xml:ns:caldav">
  <D:prop>
    <D:getetag/>
    <C:calendar-data/>
  </D:prop>
  <C:filter>
    <C:comp-filter name="VCALENDAR">
      <C:comp-filter name="VEVENT">
        <C:time-range start=""#,
    );
    s.append(start);
    s.append(r#"" end=""#);
    s.append(end);
    s.append(
        r#""/>
      </C:comp-filter>
    </C:comp-filter>
  </C:filter>
</C:calendar-query>"#,
    );
    s
}

/// Builds the CalDAV PROPFIND body for discovering calendars.
pub fn build_propfind_xml() -> (r: String)
    ensures
        r@ == r#"<?xml version="1.0" encoding="utf-8" ?>
<D:propfind xmlns:D="DAV:" xmlns:C="urn:ietf:params:xml:ns:caldav">
  <D:prop>
    <D:displayname/>
    <D:resourcetype/>
    <C:supported-calendar-component-set/>
  </D:prop>
</D:propfind>"#@,
{
    String::from_str(
        r#"<?xml version="1.0" encoding="utf-8" ?>
<D:propfind xmlns:D="DAV:" xmlns:C="urn:ietf:params:xml:ns:caldav">
  <D:prop>
    <D:displayname/>
    <D:resourcetype/>
    <C:supported-calendar-component-set/>
  </D:prop>
</D:propfind>"#,
    )
}

// ---------------------------------------------------------------------------
// Reading iCalendar replies
// ---------------------------------------------------------------------------

/// The lower-case form of a text (`str::to_lowercase`, Unicode case mapping).
pub uninterp spec fn lowercase_of(s: Seq<char>) -> Seq<char>;

/// The lower-case form of a text: for ASCII text, its capitals lowered;
/// otherwise as `str::to_lowercase` maps it.
pub open spec fn lower_text(s: Seq<char>) -> Seq<char> {
    if is_ascii_text(s) {
        ascii_lowered(s)
    } else {
        lowercase_of(s)
    }
}

/// `str::to_lowercase`: Unicode lower-casing depends on the text alone, so
/// its result is named; on ASCII text it lowers the capitals A to Z and
/// keeps every other character, as the Unicode case mapping does.
#[verifier::external_body]
pub(crate) fn lowercase(s: &str) -> (r: String)
    ensures
        r@ == lowercase_of(s@),
        is_ascii_text(s@) ==> r@ == ascii_lowered(s@),
{
    s.to_lowercase()
}

/// The key of a property line: its name before any `;` parameters.
pub open spec fn key_name(k: Seq<char>) -> Seq<char> {
    match find(k, seq![';']) {
        Some(i) => k.take(i),
        None => k,
    }
}

/// The state while reading: the events so far, whether inside a VEVENT, and
/// the properties of the current event (lower-cased key, value) in order.
pub type IcalState = (Seq<Seq<(Seq<char>, Seq<char>)>>, bool, Seq<(Seq<char>, Seq<char>)>);

/// Reading one trimmed line.
pub open spec fn ical_step(st: IcalState, t: Seq<char>) -> IcalState {
    if t == "BEGIN:VEVENT"@ {
        (st.0, true, Seq::empty())
    } else if t == "END:VEVENT"@ {
        (st.0.push(st.2), false, st.2)
    } else if st.1 && find(t, seq![':']) is Some {
        let i = find(t, seq![':'])->0;
        (st.0, st.1, st.2.push((lower_text(key_name(t.take(i))), t.skip(i + 1))))
    } else {
        st
    }
}

/// Reading lines.
pub open spec fn ical_fold(ls: Seq<Seq<char>>) -> IcalState
    decreases ls.len(),
{
    if ls.len() == 0 {
        (Seq::empty(), false, Seq::empty())
    } else {
        ical_step(ical_fold(ls.drop_last()), trim(ls.last()))
    }
}

/// The events of an iCalendar text: each one's properties in order.
pub open spec fn ical_events(text: Seq<char>) -> Seq<Seq<(Seq<char>, Seq<char>)>> {
    ical_fold(lines(text)).0
}

// ---------------------------------------------------------------------------
// Reading back a generated event
// ---------------------------------------------------------------------------

/// A `NAME:value` line without its line break.
pub open spec fn prop_line(name: Seq<char>, value: Seq<char>) -> Seq<char> {
    name + seq![':'] + value
}

/// An optional `NAME:value` line, as a list of lines.
pub open spec fn opt_prop_lines(name: Seq<char>, value: Option<Seq<char>>) -> Seq<Seq<char>> {
    match value {
        Some(v) => seq![prop_line(name, v)],
        None => Seq::empty(),
    }
}

/// The lines of the VCALENDAR text of one event.
pub open spec fn ical_lines(uid: Seq<char>, summary: Seq<char>, dtstart: Seq<char>, dtend: Seq<char>, description: Option<Seq<char>>, location: Option<Seq<char>>) -> Seq<Seq<char>> {
    seq![
        "BEGIN:VCALENDAR"@,
        "VERSION:2.0"@,
        "PRODID:-//OpenIntentOS//Calendar//EN"@,
        "BEGIN:VEVENT"@,
        prop_line("UID"@, uid),
        prop_line("DTSTART"@, dtstart),
        prop_line("DTEND"@, dtend),
        prop_line("SUMMARY"@, summary),
    ] + opt_prop_lines("DESCRIPTION"@, description) + opt_prop_lines("LOCATION"@, location) + seq![
        "END:VEVENT"@,
        "END:VCALENDAR"@,
    ]
}

/// An optional property as read back under `key`, as a list of properties.
pub open spec fn opt_prop(key: Seq<char>, value: Option<Seq<char>>) -> Seq<(Seq<char>, Seq<char>)> {
    match value {
        Some(v) => seq![(key, v)],
        None => Seq::empty(),
    }
}

/// The properties of a generated event as `parse_ical_events` reads them.
pub open spec fn generated_props(uid: Seq<char>, summary: Seq<char>, dtstart: Seq<char>, dtend: Seq<char>, description: Option<Seq<char>>, location: Option<Seq<char>>) -> Seq<(Seq<char>, Seq<char>)> {
    seq![("uid"@, uid), ("dtstart"@, dtstart), ("dtend"@, dtend), ("summary"@, summary)] + opt_prop(
        "description"@,
        description,
    ) + opt_prop("location"@, location)
}

/// Whether an optional field can be written on one line and read back.
pub open spec fn clean_opt(value: Option<Seq<char>>) -> bool {
    match value {
        Some(v) => clean_line_part(v),
        None => true,
    }
}

proof fn lemma_fold_push(a: Seq<Seq<char>>, x: Seq<char>)
    ensures
        ical_fold(a.push(x)) == ical_step(ical_fold(a), trim(x)),
{
    assert(a.push(x).drop_last() =~= a);
}

proof fn lemma_prop_step(st: IcalState, name: Seq<char>, value: Seq<char>)
    requires
        st.1,
        name.len() > 0,
        name[0] != 'B',
        name[0] != 'E',
        !is_ws(name[0]),
        forall|j: int| 0 <= j < name.len() ==> name[j] != ':' && name[j] != ';',
        clean_line_part(value),
    ensures
        trim(prop_line(name, value)) == prop_line(name, value),
        ical_step(st, trim(prop_line(name, value))) == (st.0, true, st.2.push((lower_text(name), value))),
{
    let t = prop_line(name, value);
    let n = name.len() as int;
    assert(t[0] == name[0]);
    assert(t[n] == ':');
    if value.len() > 0 {
        assert(t.last() == value.last());
    } else {
        assert(t.last() == ':');
    }
    lemma_trim_unchanged(t);
    reveal_strlit("BEGIN:VEVENT");
    reveal_strlit("END:VEVENT");
    assert(t != "BEGIN:VEVENT"@) by {
        assert("BEGIN:VEVENT"@[0] == 'B');
    }
    assert(t != "END:VEVENT"@) by {
        assert("END:VEVENT"@[0] == 'E');
    }
    assert forall|j: int| 0 <= j < n implies t[j] != ':' by {
        assert(t[j] == name[j]);
    }
    lemma_find_char_from(t, ':', 0, n);
    assert(t.take(n) =~= name);
    assert(t.skip(n + 1) =~= value);
    lemma_find_char_from(name, ';', 0, n);
}

proof fn lemma_outside_step(st: IcalState, t: Seq<char>)
    requires
        !st.1,
        trim(t) == t,
        t != "BEGIN:VEVENT"@,
        t != "END:VEVENT"@,
    ensures
        ical_step(st, trim(t)) == st,
{
}

proof fn lemma_crlf_one(x: Seq<char>)
    ensures
        crlf_text(seq![x]) == x + seq!['\r', '\n'],
{
    assert(seq![x].drop_first() =~= Seq::<Seq<char>>::empty());
    assert(crlf_text(seq![x]) == x + seq!['\r', '\n'] + crlf_text(Seq::<Seq<char>>::empty()));
    assert(x + seq!['\r', '\n'] + Seq::<char>::empty() =~= x + seq!['\r', '\n']);
}

proof fn lemma_crlf_many(ls: Seq<Seq<char>>)
    ensures
        ls.len() == 2 ==> crlf_text(ls) == crlf_text(seq![ls[0]]) + crlf_text(seq![ls[1]]),
    decreases ls.len(),
{
    if ls.len() == 2 {
        assert(ls =~= seq![ls[0]] + seq![ls[1]]);
        lemma_crlf_text_append(seq![ls[0]], seq![ls[1]]);
    }
}

proof fn lemma_crlf_opt(name: Seq<char>, value: Option<Seq<char>>)
    requires
        name.len() > 0,
    ensures
        crlf_text(opt_prop_lines(name, value)) == optional_line(name.push(':'), value),
{
    reveal_strlit("\r\n");
    match value {
        Some(v) => {
            lemma_crlf_one(prop_line(name, v));
            assert(prop_line(name, v) + seq!['\r', '\n'] =~= name.push(':') + v + "\r\n"@);
        },
        None => {
            assert(crlf_text(Seq::<Seq<char>>::empty()) == Seq::<char>::empty());
        },
    }
}

proof fn lemma_line_literals()
    ensures
        "BEGIN:VCALENDAR\r\n"@ == "BEGIN:VCALENDAR"@ + seq!['\r', '\n'],
        "VERSION:2.0\r\n"@ == "VERSION:2.0"@ + seq!['\r', '\n'],
        "PRODID:-//OpenIntentOS//Calendar//EN\r\n"@ == "PRODID:-//OpenIntentOS//Calendar//EN"@ + seq!['\r', '\n'],
        "BEGIN:VEVENT\r\n"@ == "BEGIN:VEVENT"@ + seq!['\r', '\n'],
        "END:VEVENT\r\n"@ == "END:VEVENT"@ + seq!['\r', '\n'],
        "END:VCALENDAR\r\n"@ == "END:VCALENDAR"@ + seq!['\r', '\n'],
        "\r\n"@ == seq!['\r', '\n'],
        "UID:"@ == "UID"@.push(':'),
        "DTSTART:"@ == "DTSTART"@.push(':'),
        "DTEND:"@ == "DTEND"@.push(':'),
        "SUMMARY:"@ == "SUMMARY"@.push(':'),
        "DESCRIPTION:"@ == "DESCRIPTION"@.push(':'),
        "LOCATION:"@ == "LOCATION"@.push(':'),
        "DESCRIPTION"@.len() > 0,
        "LOCATION"@.len() > 0,
{
    reveal_strlit("BEGIN:VCALENDAR\r\n");
    reveal_strlit("BEGIN:VCALENDAR");
    assert("BEGIN:VCALENDAR\r\n"@ =~= "BEGIN:VCALENDAR"@ + seq!['\r', '\n']);
    reveal_strlit("VERSION:2.0\r\n");
    reveal_strlit("VERSION:2.0");
    assert("VERSION:2.0\r\n"@ =~= "VERSION:2.0"@ + seq!['\r', '\n']);
    reveal_strlit("PRODID:-//OpenIntentOS//Calendar//EN\r\n");
    reveal_strlit("PRODID:-//OpenIntentOS//Calendar//EN");
    assert("PRODID:-//OpenIntentOS//Calendar//EN\r\n"@ =~= "PRODID:-//OpenIntentOS//Calendar//EN"@ + seq!['\r', '\n']);
    reveal_strlit("BEGIN:VEVENT\r\n");
    reveal_strlit("BEGIN:VEVENT");
    assert("BEGIN:VEVENT\r\n"@ =~= "BEGIN:VEVENT"@ + seq!['\r', '\n']);
    reveal_strlit("END:VEVENT\r\n");
    reveal_strlit("END:VEVENT");
    assert("END:VEVENT\r\n"@ =~= "END:VEVENT"@ + seq!['\r', '\n']);
    reveal_strlit("END:VCALENDAR\r\n");
    reveal_strlit("END:VCALENDAR");
    assert("END:VCALENDAR\r\n"@ =~= "END:VCALENDAR"@ + seq!['\r', '\n']);
    reveal_strlit("\r\n");
    assert("\r\n"@ =~= seq!['\r', '\n']);
    reveal_strlit("UID:");
    reveal_strlit("UID");
    assert("UID:"@ =~= "UID"@.push(':'));
    reveal_strlit("DTSTART:");
    reveal_strlit("DTSTART");
    assert("DTSTART:"@ =~= "DTSTART"@.push(':'));
    reveal_strlit("DTEND:");
    reveal_strlit("DTEND");
    assert("DTEND:"@ =~= "DTEND"@.push(':'));
    reveal_strlit("SUMMARY:");
    reveal_strlit("SUMMARY");
    assert("SUMMARY:"@ =~= "SUMMARY"@.push(':'));
    reveal_strlit("DESCRIPTION:");
    reveal_strlit("DESCRIPTION");
    assert("DESCRIPTION:"@ =~= "DESCRIPTION"@.push(':'));
    reveal_strlit("LOCATION:");
    reveal_strlit("LOCATION");
    assert("LOCATION:"@ =~= "LOCATION"@.push(':'));
}

/// The event text is its lines, each ended by `\r\n`.
#[verifier::spinoff_prover]
#[verifier::rlimit(40)]
proof fn lemma_ical_text_lines(uid: Seq<char>, summary: Seq<char>, dtstart: Seq<char>, dtend: Seq<char>, description: Option<Seq<char>>, location: Option<Seq<char>>)
    ensures
        ical_text(uid, summary, dtstart, dtend, description, location) == crlf_text(
            ical_lines(uid, summary, dtstart, dtend, description, location),
        ),
{
    lemma_line_literals();
    let l0 = "BEGIN:VCALENDAR"@;
    let l1 = "VERSION:2.0"@;
    let l2 = "PRODID:-//OpenIntentOS//Calendar//EN"@;
    let l3 = "BEGIN:VEVENT"@;
    let l4 = prop_line("UID"@, uid);
    let l5 = prop_line("DTSTART"@, dtstart);
    let l6 = prop_line("DTEND"@, dtend);
    let l7 = prop_line("SUMMARY"@, summary);
    let d = opt_prop_lines("DESCRIPTION"@, description);
    let lo = opt_prop_lines("LOCATION"@, location);
    let e0 = "END:VEVENT"@;
    let e1 = "END:VCALENDAR"@;
    let a01 = seq![l0, l1];
    let a23 = seq![l2, l3];
    let a45 = seq![l4, l5];
    let a67 = seq![l6, l7];
    let e = seq![e0, e1];
    let ls = ical_lines(uid, summary, dtstart, dtend, description, location);
    assert(ls =~= a01 + a23 + a45 + a67 + d + lo + e);
    lemma_crlf_text_append(a01 + a23 + a45 + a67 + d + lo, e);
    lemma_crlf_text_append(a01 + a23 + a45 + a67 + d, lo);
    lemma_crlf_text_append(a01 + a23 + a45 + a67, d);
    lemma_crlf_text_append(a01 + a23 + a45, a67);
    lemma_crlf_text_append(a01 + a23, a45);
    lemma_crlf_text_append(a01, a23);
    lemma_crlf_many(a01);
    lemma_crlf_many(a23);
    lemma_crlf_many(a45);
    lemma_crlf_many(a67);
    lemma_crlf_many(e);
    lemma_crlf_one(l0);
    lemma_crlf_one(l1);
    lemma_crlf_one(l2);
    lemma_crlf_one(l3);
    lemma_crlf_one(l4);
    lemma_crlf_one(l5);
    lemma_crlf_one(l6);
    lemma_crlf_one(l7);
    lemma_crlf_one(e0);
    lemma_crlf_one(e1);
    lemma_crlf_opt("DESCRIPTION"@, description);
    lemma_crlf_opt("LOCATION"@, location);
    let crlf = seq!['\r', '\n'];
    assert(crlf_text(ls) == (l0 + crlf) + (l1 + crlf) + (l2 + crlf) + (l3 + crlf) + (l4 + crlf) + (l5 + crlf) + (
    l6 + crlf) + (l7 + crlf) + optional_line("DESCRIPTION:"@, description) + optional_line("LOCATION:"@, location) + (e0
        + crlf) + (e1 + crlf));
    assert(ical_text(uid, summary, dtstart, dtend, description, location) =~= crlf_text(ls));
}

/// A property name in upper case that reads back as a key.
pub open spec fn plain_name(name: Seq<char>) -> bool {
    &&& name.len() > 0
    &&& name[0] != 'B'
    &&& name[0] != 'E'
    &&& !is_ws(name[0])
    &&& forall|j: int| 0 <= j < name.len() ==> 'A' <= #[trigger] name[j] <= 'Z'
}

proof fn lemma_plain_names()
    ensures
        plain_name("UID"@),
        plain_name("DTSTART"@),
        plain_name("DTEND"@),
        plain_name("SUMMARY"@),
        plain_name("DESCRIPTION"@),
        plain_name("LOCATION"@),
{
    reveal_strlit("UID");
    reveal_strlit("DTSTART");
    reveal_strlit("DTEND");
    reveal_strlit("SUMMARY");
    reveal_strlit("DESCRIPTION");
    reveal_strlit("LOCATION");
    assert("UID"@ =~= seq!['U', 'I', 'D']);
    assert("DTSTART"@ =~= seq!['D', 'T', 'S', 'T', 'A', 'R', 'T']);
    assert("DTEND"@ =~= seq!['D', 'T', 'E', 'N', 'D']);
    assert("SUMMARY"@ =~= seq!['S', 'U', 'M', 'M', 'A', 'R', 'Y']);
    assert("DESCRIPTION"@ =~= seq!['D', 'E', 'S', 'C', 'R', 'I', 'P', 'T', 'I', 'O', 'N']);
    assert("LOCATION"@ =~= seq!['L', 'O', 'C', 'A', 'T', 'I', 'O', 'N']);
}

proof fn lemma_prop_line_no_lf(name: Seq<char>, value: Seq<char>)
    requires
        plain_name(name),
        clean_line_part(value),
    ensures
        !prop_line(name, value).contains('\n'),
{
    let t = prop_line(name, value);
    let n = name.len() as int;
    assert forall|j: int| 0 <= j < t.len() implies t[j] != '\n' by {
        if j < n {
            assert(t[j] == name[j]);
        } else if j > n {
            assert(t[j] == value[j - n - 1]);
        }
    }
}

proof fn lemma_fixed_lines()
    ensures
        !"BEGIN:VCALENDAR"@.contains('\n'),
        !"VERSION:2.0"@.contains('\n'),
        !"PRODID:-//OpenIntentOS//Calendar//EN"@.contains('\n'),
        !"BEGIN:VEVENT"@.contains('\n'),
        !"END:VEVENT"@.contains('\n'),
        !"END:VCALENDAR"@.contains('\n'),
        "BEGIN:VCALENDAR"@ != "BEGIN:VEVENT"@,
        "BEGIN:VCALENDAR"@ != "END:VEVENT"@,
        "VERSION:2.0"@ != "BEGIN:VEVENT"@,
        "VERSION:2.0"@ != "END:VEVENT"@,
        "PRODID:-//OpenIntentOS//Calendar//EN"@ != "BEGIN:VEVENT"@,
        "PRODID:-//OpenIntentOS//Calendar//EN"@ != "END:VEVENT"@,
        "END:VCALENDAR"@ != "BEGIN:VEVENT"@,
        "END:VCALENDAR"@ != "END:VEVENT"@,
        "END:VEVENT"@ != "BEGIN:VEVENT"@,
        trim("BEGIN:VCALENDAR"@) == "BEGIN:VCALENDAR"@,
        trim("VERSION:2.0"@) == "VERSION:2.0"@,
        trim("PRODID:-//OpenIntentOS//Calendar//EN"@) == "PRODID:-//OpenIntentOS//Calendar//EN"@,
        trim("BEGIN:VEVENT"@) == "BEGIN:VEVENT"@,
        trim("END:VEVENT"@) == "END:VEVENT"@,
        trim("END:VCALENDAR"@) == "END:VCALENDAR"@,
{
    reveal_strlit("BEGIN:VCALENDAR");
    reveal_strlit("VERSION:2.0");
    reveal_strlit("PRODID:-//OpenIntentOS//Calendar//EN");
    reveal_strlit("BEGIN:VEVENT");
    reveal_strlit("END:VEVENT");
    reveal_strlit("END:VCALENDAR");
    let a = "BEGIN:VCALENDAR"@;
    let b = "VERSION:2.0"@;
    let c = "PRODID:-//OpenIntentOS//Calendar//EN"@;
    let d = "BEGIN:VEVENT"@;
    let e = "END:VEVENT"@;
    let f = "END:VCALENDAR"@;
    assert(a =~= seq!['B', 'E', 'G', 'I', 'N', ':', 'V', 'C', 'A', 'L', 'E', 'N', 'D', 'A', 'R']);
    assert(b =~= seq!['V', 'E', 'R', 'S', 'I', 'O', 'N', ':', '2', '.', '0']);
    assert(c =~= seq![
        'P', 'R', 'O', 'D', 'I', 'D', ':', '-', '/', '/', 'O', 'p', 'e', 'n', 'I', 'n', 't', 'e', 'n',
        't', 'O', 'S', '/', '/', 'C', 'a', 'l', 'e', 'n', 'd', 'a', 'r', '/', '/', 'E', 'N',
    ]);
    assert(d =~= seq!['B', 'E', 'G', 'I', 'N', ':', 'V', 'E', 'V', 'E', 'N', 'T']);
    assert(e =~= seq!['E', 'N', 'D', ':', 'V', 'E', 'V', 'E', 'N', 'T']);
    assert(f =~= seq!['E', 'N', 'D', ':', 'V', 'C', 'A', 'L', 'E', 'N', 'D', 'A', 'R']);
    lemma_trim_unchanged(a);
    lemma_trim_unchanged(b);
    lemma_trim_unchanged(c);
    lemma_trim_unchanged(d);
    lemma_trim_unchanged(e);
    lemma_trim_unchanged(f);
}

proof fn lemma_ical_lines_no_lf(uid: Seq<char>, summary: Seq<char>, dtstart: Seq<char>, dtend: Seq<char>, description: Option<Seq<char>>, location: Option<Seq<char>>)
    requires
        clean_line_part(uid),
        clean_line_part(summary),
        clean_line_part(dtstart),
        clean_line_part(dtend),
        clean_opt(description),
        clean_opt(location),
    ensures
        forall|i: int| 0 <= i < ical_lines(uid, summary, dtstart, dtend, description, location).len()
            ==> !(#[trigger] ical_lines(uid, summary, dtstart, dtend, description, location)[i]).contains('\n'),
{
    lemma_plain_names();
    lemma_fixed_lines();
    lemma_prop_line_no_lf("UID"@, uid);
    lemma_prop_line_no_lf("DTSTART"@, dtstart);
    lemma_prop_line_no_lf("DTEND"@, dtend);
    lemma_prop_line_no_lf("SUMMARY"@, summary);
    if let Some(v) = description {
        lemma_prop_line_no_lf("DESCRIPTION"@, v);
    }
    if let Some(v) = location {
        lemma_prop_line_no_lf("LOCATION"@, v);
    }
}

proof fn lemma_key_names()
    ensures
        lower_text("UID"@) == "uid"@,
        lower_text("DTSTART"@) == "dtstart"@,
        lower_text("DTEND"@) == "dtend"@,
        lower_text("SUMMARY"@) == "summary"@,
        lower_text("DESCRIPTION"@) == "description"@,
        lower_text("LOCATION"@) == "location"@,
{
    reveal_strlit("UID");
    reveal_strlit("uid");
    assert(ascii_lowered("UID"@) =~= "uid"@);
    reveal_strlit("DTSTART");
    reveal_strlit("dtstart");
    assert(ascii_lowered("DTSTART"@) =~= "dtstart"@);
    reveal_strlit("DTEND");
    reveal_strlit("dtend");
    assert(ascii_lowered("DTEND"@) =~= "dtend"@);
    reveal_strlit("SUMMARY");
    reveal_strlit("summary");
    assert(ascii_lowered("SUMMARY"@) =~= "summary"@);
    reveal_strlit("DESCRIPTION");
    reveal_strlit("description");
    assert(ascii_lowered("DESCRIPTION"@) =~= "description"@);
    reveal_strlit("LOCATION");
    reveal_strlit("location");
    assert(ascii_lowered("LOCATION"@) =~= "location"@);
}

/// Reading the lines of a generated event.
proof fn lemma_fold_ical_lines(uid: Seq<char>, summary: Seq<char>, dtstart: Seq<char>, dtend: Seq<char>, description: Option<Seq<char>>, location: Option<Seq<char>>)
    requires
        clean_line_part(uid),
        clean_line_part(summary),
        clean_line_part(dtstart),
        clean_line_part(dtend),
        clean_opt(description),
        clean_opt(location),
    ensures
        ical_fold(ical_lines(uid, summary, dtstart, dtend, description, location)).0 == seq![
            generated_props(uid, summary, dtstart, dtend, description, location),
        ],
{
    lemma_plain_names();
    lemma_fixed_lines();
    lemma_key_names();
    let p0 = Seq::<Seq<char>>::empty();
    let s0: IcalState = (Seq::empty(), false, Seq::empty());
    assert(ical_fold(p0) == s0);
    let p1 = p0.push("BEGIN:VCALENDAR"@);
    lemma_fold_push(p0, "BEGIN:VCALENDAR"@);
    lemma_outside_step(s0, "BEGIN:VCALENDAR"@);
    let p2 = p1.push("VERSION:2.0"@);
    lemma_fold_push(p1, "VERSION:2.0"@);
    lemma_outside_step(s0, "VERSION:2.0"@);
    let p3 = p2.push("PRODID:-//OpenIntentOS//Calendar//EN"@);
    lemma_fold_push(p2, "PRODID:-//OpenIntentOS//Calendar//EN"@);
    lemma_outside_step(s0, "PRODID:-//OpenIntentOS//Calendar//EN"@);
    let p4 = p3.push("BEGIN:VEVENT"@);
    lemma_fold_push(p3, "BEGIN:VEVENT"@);
    let s4: IcalState = (Seq::empty(), true, Seq::empty());
    assert(ical_fold(p4) == s4);
    let p5 = p4.push(prop_line("UID"@, uid));
    lemma_fold_push(p4, prop_line("UID"@, uid));
    lemma_prop_step(s4, "UID"@, uid);
    let s5: IcalState = (Seq::empty(), true, s4.2.push((lower_text("UID"@), uid)));
    let p6 = p5.push(prop_line("DTSTART"@, dtstart));
    lemma_fold_push(p5, prop_line("DTSTART"@, dtstart));
    lemma_prop_step(s5, "DTSTART"@, dtstart);
    let s6: IcalState = (Seq::empty(), true, s5.2.push((lower_text("DTSTART"@), dtstart)));
    let p7 = p6.push(prop_line("DTEND"@, dtend));
    lemma_fold_push(p6, prop_line("DTEND"@, dtend));
    lemma_prop_step(s6, "DTEND"@, dtend);
    let s7: IcalState = (Seq::empty(), true, s6.2.push((lower_text("DTEND"@), dtend)));
    let p8 = p7.push(prop_line("SUMMARY"@, summary));
    lemma_fold_push(p7, prop_line("SUMMARY"@, summary));
    lemma_prop_step(s7, "SUMMARY"@, summary);
    let s8: IcalState = (Seq::empty(), true, s7.2.push((lower_text("SUMMARY"@), summary)));
    assert(ical_fold(p8) == s8);
    let pd = p8 + opt_prop_lines("DESCRIPTION"@, description);
    let sd: IcalState = (Seq::empty(), true, s8.2 + opt_prop("description"@, description));
    match description {
        Some(v) => {
            assert(pd =~= p8.push(prop_line("DESCRIPTION"@, v)));
            lemma_fold_push(p8, prop_line("DESCRIPTION"@, v));
            lemma_prop_step(s8, "DESCRIPTION"@, v);
            assert(s8.2.push(("description"@, v)) =~= sd.2);
        },
        None => {
            assert(pd =~= p8);
            assert(sd.2 =~= s8.2);
        },
    }
    assert(ical_fold(pd) == sd);
    let pl = pd + opt_prop_lines("LOCATION"@, location);
    let sl: IcalState = (Seq::empty(), true, sd.2 + opt_prop("location"@, location));
    match location {
        Some(v) => {
            assert(pl =~= pd.push(prop_line("LOCATION"@, v)));
            lemma_fold_push(pd, prop_line("LOCATION"@, v));
            lemma_prop_step(sd, "LOCATION"@, v);
            assert(sd.2.push(("location"@, v)) =~= sl.2);
        },
        None => {
            assert(pl =~= pd);
            assert(sl.2 =~= sd.2);
        },
    }
    assert(ical_fold(pl) == sl);
    let pe = pl.push("END:VEVENT"@);
    lemma_fold_push(pl, "END:VEVENT"@);
    let se: IcalState = (seq![sl.2], false, sl.2);
    assert(Seq::<Seq<(Seq<char>, Seq<char>)>>::empty().push(sl.2) =~= seq![sl.2]);
    assert(ical_fold(pe) == se);
    let pf = pe.push("END:VCALENDAR"@);
    lemma_fold_push(pe, "END:VCALENDAR"@);
    lemma_outside_step(se, "END:VCALENDAR"@);
    assert(pf =~= ical_lines(uid, summary, dtstart, dtend, description, location));
    assert(sl.2 =~= generated_props(uid, summary, dtstart, dtend, description, location));
}

/// Reading back a generated event: the iCalendar text that
/// `generate_ical_event` writes holds one event, whose properties are `uid`,
/// `dtstart`, `dtend` and `summary`, then `description` and `location`
/// where given, in that order, each with the value written.  This holds when no field
/// holds a line feed or ends in whitespace (which reading would trim).
pub proof fn law_parse_generated_event(uid: Seq<char>, summary: Seq<char>, dtstart: Seq<char>, dtend: Seq<char>, description: Option<Seq<char>>, location: Option<Seq<char>>)
    requires
        clean_line_part(uid),
        clean_line_part(summary),
        clean_line_part(dtstart),
        clean_line_part(dtend),
        clean_opt(description),
        clean_opt(location),
    ensures
        ical_events(ical_text(uid, summary, dtstart, dtend, description, location)) == seq![
            generated_props(uid, summary, dtstart, dtend, description, location),
        ],
{
    let ls = ical_lines(uid, summary, dtstart, dtend, description, location);
    lemma_ical_text_lines(uid, summary, dtstart, dtend, description, location);
    lemma_ical_lines_no_lf(uid, summary, dtstart, dtend, description, location);
    lemma_lines_crlf_text(ls);
    lemma_fold_ical_lines(uid, summary, dtstart, dtend, description, location);
}

proof fn lemma_lookup_unique(es: Seq<(String, JsonValue)>, k: Seq<char>, m: int)
    requires
        0 <= m < es.len(),
        es[m].0@ == k,
        forall|i: int| 0 <= i < es.len() && i != m ==> (#[trigger] es[i]).0@ != k,
    ensures
        lookup(es, k) == Some(es[m].1),
    decreases m,
{
    if m > 0 {
        assert(es[0].0@ != k);
        let t = es.drop_first();
        assert forall|i: int| 0 <= i < t.len() && i != m - 1 implies (#[trigger] t[i]).0@ != k by {
            assert(t[i] == es[i + 1]);
        }
        lemma_lookup_unique(t, k, m - 1);
    }
}

proof fn lemma_lookup_absent(es: Seq<(String, JsonValue)>, k: Seq<char>)
    requires
        forall|i: int| 0 <= i < es.len() ==> (#[trigger] es[i]).0@ != k,
    ensures
        lookup(es, k) is None,
    decreases es.len(),
{
    if es.len() > 0 {
        assert(es[0].0@ != k);
        let t = es.drop_first();
        assert forall|i: int| 0 <= i < t.len() implies (#[trigger] t[i]).0@ != k by {
            assert(t[i] == es[i + 1]);
        }
        lemma_lookup_absent(t, k);
    }
}

/// The string field `k` of an event read as JSON: the value of its one
/// property named `k`, if it has one.
proof fn lemma_event_field(j: JsonValue, ev: Seq<(Seq<char>, Seq<char>)>, k: Seq<char>)
    requires
        event_json(j, ev),
        forall|a: int, b: int| 0 <= a < b < ev.len() ==> (#[trigger] ev[a]).0 != (#[trigger] ev[b]).0,
    ensures
        forall|p: int| 0 <= p < ev.len() && (#[trigger] ev[p]).0 == k ==> str_field(j, k) == Some(ev[p].1),
        (forall|p: int| 0 <= p < ev.len() ==> (#[trigger] ev[p]).0 != k) ==> str_field(j, k) is None,
{
    let es = entries_of(j);
    let n = ev.len() as int;
    assert forall|p: int| 0 <= p < n && (#[trigger] ev[p]).0 == k implies str_field(j, k) == Some(ev[p].1) by {
        let m = n - 1 - p;
        assert(es[m].0@ == ev[p].0);
        assert forall|i: int| 0 <= i < es.len() && i != m implies (#[trigger] es[i]).0@ != k by {
            assert(es[i].0@ == ev[n - 1 - i].0);
            if n - 1 - i < p {
                assert(ev[n - 1 - i].0 != ev[p].0);
            } else {
                assert(ev[p].0 != ev[n - 1 - i].0);
            }
        }
        lemma_lookup_unique(es, k, m);
    }
    if forall|p: int| 0 <= p < n ==> (#[trigger] ev[p]).0 != k {
        assert forall|i: int| 0 <= i < es.len() implies (#[trigger] es[i]).0@ != k by {
            assert(es[i].0@ == ev[n - 1 - i].0);
        }
        lemma_lookup_absent(es, k);
    }
}

proof fn lemma_key_literals()
    ensures
        "uid"@ != "dtstart"@,
        "uid"@ != "dtend"@,
        "uid"@ != "summary"@,
        "uid"@ != "description"@,
        "uid"@ != "location"@,
        "dtstart"@ != "dtend"@,
        "dtstart"@ != "summary"@,
        "dtstart"@ != "description"@,
        "dtstart"@ != "location"@,
        "dtend"@ != "summary"@,
        "dtend"@ != "description"@,
        "dtend"@ != "location"@,
        "summary"@ != "description"@,
        "summary"@ != "location"@,
        "description"@ != "location"@,
{
    reveal_strlit("uid");
    reveal_strlit("dtstart");
    reveal_strlit("dtend");
    reveal_strlit("summary");
    reveal_strlit("description");
    reveal_strlit("location");
    assert("uid"@.len() == 3 && "dtstart"@.len() == 7 && "dtend"@.len() == 5);
    assert("summary"@.len() == 7 && "description"@.len() == 11 && "location"@.len() == 8);
    assert("dtstart"@[0] != "summary"@[0]);
}

/// Reading back a generated event as JSON: `parse_ical_events` gives one
/// object whose `uid`, `summary`, `dtstart` and `dtend` are the values
/// written, and whose `description` and `location` are those given (absent
/// when not given), under the same conditions as
/// `law_parse_generated_event`.
pub proof fn law_generated_event_json(uid: Seq<char>, summary: Seq<char>, dtstart: Seq<char>, dtend: Seq<char>, description: Option<Seq<char>>, location: Option<Seq<char>>, js: Seq<JsonValue>)
    requires
        clean_line_part(uid),
        clean_line_part(summary),
        clean_line_part(dtstart),
        clean_line_part(dtend),
        clean_opt(description),
        clean_opt(location),
        events_json(js, ical_events(ical_text(uid, summary, dtstart, dtend, description, location))),
    ensures
        js.len() == 1,
        str_field(js[0], "uid"@) == Some(uid),
        str_field(js[0], "summary"@) == Some(summary),
        str_field(js[0], "dtstart"@) == Some(dtstart),
        str_field(js[0], "dtend"@) == Some(dtend),
        str_field(js[0], "description"@) == description,
        str_field(js[0], "location"@) == location,
{
    law_parse_generated_event(uid, summary, dtstart, dtend, description, location);
    lemma_key_literals();
    let ev = generated_props(uid, summary, dtstart, dtend, description, location);
    let evs = ical_events(ical_text(uid, summary, dtstart, dtend, description, location));
    assert(evs == seq![ev]);
    assert(js.len() == 1);
    assert(event_json(js[0], evs[0]));
    assert(evs[0] == ev);
    let base = seq![("uid"@, uid), ("dtstart"@, dtstart), ("dtend"@, dtend), ("summary"@, summary)];
    let ks: Seq<Seq<char>> = match (description, location) {
        (Some(_), Some(_)) => seq!["uid"@, "dtstart"@, "dtend"@, "summary"@, "description"@, "location"@],
        (Some(_), None) => seq!["uid"@, "dtstart"@, "dtend"@, "summary"@, "description"@],
        (None, Some(_)) => seq!["uid"@, "dtstart"@, "dtend"@, "summary"@, "location"@],
        (None, None) => seq!["uid"@, "dtstart"@, "dtend"@, "summary"@],
    };
    assert(ev.len() == ks.len());
    assert forall|i: int| 0 <= i < ev.len() implies #[trigger] ev[i].0 == ks[i] by {
        match (description, location) {
            (Some(d), Some(l)) => {
                assert(ev =~= base + seq![("description"@, d)] + seq![("location"@, l)]);
            },
            (Some(d), None) => {
                assert(ev =~= base + seq![("description"@, d)]);
            },
            (None, Some(l)) => {
                assert(ev =~= base + seq![("location"@, l)]);
            },
            (None, None) => {
                assert(ev =~= base);
            },
        }
    }
    assert forall|a: int, b: int| 0 <= a < b < ev.len() implies (#[trigger] ev[a]).0 != (#[trigger] ev[b]).0 by {
        assert(ev[a].0 == ks[a] && ev[b].0 == ks[b]);
    }
    lemma_event_field(js[0], ev, "uid"@);
    lemma_event_field(js[0], ev, "summary"@);
    lemma_event_field(js[0], ev, "dtstart"@);
    lemma_event_field(js[0], ev, "dtend"@);
    lemma_event_field(js[0], ev, "description"@);
    lemma_event_field(js[0], ev, "location"@);
    assert(ev[0].0 == "uid"@ && ev[0].1 == uid);
    assert(ev[1].0 == "dtstart"@ && ev[1].1 == dtstart);
    assert(ev[2].0 == "dtend"@ && ev[2].1 == dtend);
    assert(ev[3].0 == "summary"@ && ev[3].1 == summary);
    match description {
        Some(d) => {
            assert(ev[4].0 == "description"@ && ev[4].1 == d);
        },
        None => {
            assert forall|p: int| 0 <= p < ev.len() implies (#[trigger] ev[p]).0 != "description"@ by {
                assert(ev[p].0 == ks[p]);
            }
        },
    }
    match location {
        Some(l) => {
            let p = ev.len() - 1;
            assert(ev[p].0 == "location"@ && ev[p].1 == l);
        },
        None => {
            assert forall|p: int| 0 <= p < ev.len() implies (#[trigger] ev[p]).0 != "location"@ by {
                assert(ev[p].0 == ks[p]);
            }
        },
    }
}

/// The view of parsed properties.
pub open spec fn props_view(v: Seq<(String, String)>) -> Seq<(Seq<char>, Seq<char>)> {
    v.map_values(|p: (String, String)| (p.0@, p.1@))
}

/// The view of parsed events.
pub open spec fn events_view(v: Seq<Vec<(String, String)>>) -> Seq<Seq<(Seq<char>, Seq<char>)>> {
    v.map_values(|e: Vec<(String, String)>| props_view(e@))
}

fn chars_eq_str(v: &Vec<char>, s: &str) -> (r: bool)
    ensures
        r == (v@ == s@),
{
    let w = chars_of(s);
    if v.len() != w.len() {
        assert(v@.len() != w@.len());
        return false;
    }
    let mut i: usize = 0;
    while i < v.len()
        invariant
            i <= v.len() == w.len(),
            w@ == s@,
            forall|k: int| 0 <= k < i ==> v@[k] == w@[k],
        decreases v.len() - i,
    {
        if v[i] != w[i] {
            assert(v@[i as int] != w@[i as int]);
            return false;
        }
        i = i + 1;
    }
    assert(v@ =~= w@);
    true
}

/// The key of a line whose first `:` is at `c`: the text before the first
/// `;` when that comes earlier, else the text before `c`.
proof fn lemma_key_name(t: Seq<char>, c: int, key_end: int)
    requires
        0 <= c < t.len(),
        key_end == match find(t, seq![';']) {
            Some(s) => if s < c {
                s
            } else {
                c
            },
            None => c,
        },
    ensures
        key_name(t.take(c)) =~= t.take(key_end),
{
    let key = t.take(c);
    let p = seq![';'];
    crate::text::lemma_find_from(t, p, 0);
    crate::text::lemma_find_from(key, p, 0);
    assert forall|j: int| 0 <= j < c implies #[trigger] crate::text::occurs_at(key, p, j)
        == crate::text::occurs_at(t, p, j) by {
        if j + 1 <= c {
            assert(key.subrange(j, j + 1) =~= t.subrange(j, j + 1));
        }
    }
    match find(key, p) {
        Some(s2) => {
            assert(crate::text::occurs_at(t, p, s2));
            match find(t, p) {
                Some(s) => {
                    if s < c {
                        assert(crate::text::occurs_at(key, p, s));
                    }
                },
                None => {},
            }
            assert(key.take(s2) =~= t.take(key_end));
        },
        None => {
            match find(t, p) {
                Some(s) => {
                    if s < c {
                        assert(crate::text::occurs_at(key, p, s));
                    }
                },
                None => {},
            }
        },
    }
}

/// Reads the events of an iCalendar text as property lists.
pub fn parse_ical_properties(ical_data: &str) -> (r: Vec<Vec<(String, String)>>)
    ensures
        events_view(r@) == ical_events(ical_data@),
{
    let v = chars_of(ical_data);
    let ls = split_lines(v.as_slice());
    let ghost lv = ls@.map_values(|w: Vec<char>| w@);
    let mut events: Vec<Vec<(String, String)>> = Vec::new();
    let mut in_vevent = false;
    let mut current: Vec<(String, String)> = Vec::new();
    let mut i: usize = 0;
    while i < ls.len()
        invariant
            i <= ls@.len(),
            lv == ls@.map_values(|w: Vec<char>| w@),
            lv == lines(ical_data@),
            ical_fold(lv.take(i as int)) == (events_view(events@), in_vevent, props_view(current@)),
        decreases ls.len() - i,
    {
        assert(lv.take(i + 1).drop_last() =~= lv.take(i as int));
        let t = trim_chars(ls[i].as_slice());
        assert(t@ == trim(lv.take(i + 1).last()));
        let ghost ev0 = events@;
        let ghost cur0 = current@;
        if chars_eq_str(&t, "BEGIN:VEVENT") {
            in_vevent = true;
            current = Vec::new();
            assert(props_view(current@) =~= Seq::<(Seq<char>, Seq<char>)>::empty());
        } else if chars_eq_str(&t, "END:VEVENT") {
            in_vevent = false;
            let mut copy: Vec<(String, String)> = Vec::new();
            let mut k: usize = 0;
            while k < current.len()
                invariant
                    k <= current@.len(),
                    props_view(copy@) == props_view(current@).take(k as int),
                decreases current.len() - k,
            {
                let ghost c0 = copy@;
                copy.push((current[k].0.clone(), current[k].1.clone()));
                assert(props_view(copy@) =~= props_view(c0).push((current@[k as int].0@, current@[k as int].1@)));
                assert(props_view(current@).take(k + 1) =~= props_view(current@).take(k as int).push(
                    props_view(current@)[k as int],
                ));
                k = k + 1;
            }
            assert(props_view(current@).take(current@.len() as int) =~= props_view(current@));
            events.push(copy);
            assert(events_view(events@) =~= events_view(ev0).push(props_view(cur0)));
        } else if in_vevent {
            let colon: [char; 1] = [':'];
            assert(colon@ =~= seq![':']);
            match find_from_exec(t.as_slice(), &colon, 0) {
                Some(c) => {
                    let semi: [char; 1] = [';'];
                    assert(semi@ =~= seq![';']);
                    let key_end = match find_from_exec(t.as_slice(), &semi, 0) {
                        Some(s) => if s < c {
                            s
                        } else {
                            c
                        },
                        None => c,
                    };
                    proof {
                        lemma_key_name(t@, c as int, key_end as int);
                    }
                    let key_raw = crate::text::string_of_range(t.as_slice(), 0, key_end);
                    let ghost kr = key_raw@;
                    assert(kr =~= t@.take(key_end as int));
                    let key = lowercase(key_raw.as_str());
                    let mut value: Vec<char> = Vec::new();
                    let mut j: usize = c + 1;
                    while j < t.len()
                        invariant
                            c + 1 <= j <= t@.len(),
                            value@ == t@.subrange(c + 1, j as int),
                        decreases t.len() - j,
                    {
                        value.push(t[j]);
                        assert(t@.subrange(c + 1, j + 1) =~= t@.subrange(c + 1, j as int).push(t@[j as int]));
                        j = j + 1;
                    }
                    assert(value@ =~= t@.skip(c + 1));
                    current.push((key, string_of(value.as_slice())));
                    assert(props_view(current@) =~= props_view(cur0).push(
                        (lower_text(key_name(t@.take(c as int))), t@.skip(c + 1)),
                    ));
                },
                None => {},
            }
        }
        i = i + 1;
    }
    assert(lv.take(ls@.len() as int) =~= lv);
    events
}

/// Whether `j` is the JSON form of an event: an object whose entries are
/// its properties, the latest first, so that a key reads its last value.
pub open spec fn event_json(j: JsonValue, ev: Seq<(Seq<char>, Seq<char>)>) -> bool {
    &&& j is Object
    &&& entries_of(j).len() == ev.len()
    &&& forall|m: int|
        0 <= m < ev.len() ==> #[trigger] entries_of(j)[m].0@ == ev[ev.len() - 1 - m].0 && str_of(
            entries_of(j)[m].1,
        ) == Some(ev[ev.len() - 1 - m].1)
}

/// The JSON form of an event's properties.
pub fn event_to_json(ev: &Vec<(String, String)>) -> (j: JsonValue)
    ensures
        event_json(j, props_view(ev@)),
{
    let mut es: Vec<(String, JsonValue)> = Vec::new();
    let n = ev.len();
    let mut m: usize = 0;
    while m < n
        invariant
            m <= n == ev@.len(),
            es@.len() == m,
            forall|q: int|
                0 <= q < m ==> #[trigger] es@[q].0@ == ev@[n - 1 - q].0@ && str_of(es@[q].1) == Some(
                    ev@[n - 1 - q].1@,
                ),
        decreases n - m,
    {
        let p = &ev[n - 1 - m];
        let ghost old_es = es@;
        es.push((p.0.clone(), JsonValue::Str(p.1.clone())));
        let ghost k: int = n - 1 - m;
        assert(es@[m as int].0@ == ev@[k].0@ && str_of(es@[m as int].1) == Some(ev@[k].1@));
        assert forall|q: int| 0 <= q < m + 1 implies #[trigger] es@[q].0@ == ev@[n - 1 - q].0@ && str_of(es@[q].1)
            == Some(ev@[n - 1 - q].1@) by {
            if q < m {
                assert(es@[q] == old_es[q]);
            }
        }
        m = m + 1;
    }
    JsonValue::Object(es)
}

/// Whether `js` are the JSON forms of the events `evs`, in order.
pub open spec fn events_json(js: Seq<JsonValue>, evs: Seq<Seq<(Seq<char>, Seq<char>)>>) -> bool {
    js.len() == evs.len() && forall|i: int| 0 <= i < js.len() ==> #[trigger] event_json(js[i], evs[i])
}

/// Extracts the VEVENT blocks of an iCalendar text as JSON objects keyed
/// by lower-cased property names (parameters after `;` dropped).
pub fn parse_ical_events(ical_data: &str) -> (r: Vec<JsonValue>)
    ensures
        events_json(r@, ical_events(ical_data@)),
{
    let evs = parse_ical_properties(ical_data);
    let mut out: Vec<JsonValue> = Vec::new();
    let mut i: usize = 0;
    while i < evs.len()
        invariant
            i <= evs@.len(),
            events_view(evs@) == ical_events(ical_data@),
            out@.len() == i,
            forall|k: int| 0 <= k < i ==> #[trigger] event_json(out@[k], events_view(evs@)[k]),
        decreases evs.len() - i,
    {
        out.push(event_to_json(&evs[i]));
        i = i + 1;
    }
    out
}

// ---------------------------------------------------------------------------
// Searching events
// ---------------------------------------------------------------------------

/// The last value of `key` among an event's properties.
pub open spec fn last_value(ev: Seq<(Seq<char>, Seq<char>)>, key: Seq<char>) -> Option<Seq<char>>
    decreases ev.len(),
{
    if ev.len() == 0 {
        None
    } else if ev.last().0 == key {
        Some(ev.last().1)
    } else {
        last_value(ev.drop_last(), key)
    }
}

/// The value of an optional text, or empty.
pub open spec fn or_empty(o: Option<Seq<char>>) -> Seq<char> {
    match o {
        Some(s) => s,
        None => Seq::empty(),
    }
}

/// Whether an event matches a query: its summary or description holds the
/// query, all lower-cased.
pub open spec fn event_matches(ev: Seq<(Seq<char>, Seq<char>)>, query: Seq<char>) -> bool {
    contains(lower_text(or_empty(last_value(ev, "summary"@))), lower_text(query)) || contains(
        lower_text(or_empty(last_value(ev, "description"@))),
        lower_text(query),
    )
}

/// The events that match a query, in order.
pub open spec fn matching_events(evs: Seq<Seq<(Seq<char>, Seq<char>)>>, query: Seq<char>) -> Seq<Seq<(Seq<char>, Seq<char>)>> {
    evs.filter(|ev: Seq<(Seq<char>, Seq<char>)>| event_matches(ev, query))
}

fn last_value_exec(ev: &Vec<(String, String)>, key: &str) -> (r: String)
    ensures
        r@ == or_empty(last_value(props_view(ev@), key@)),
{
    let mut i: usize = ev.len();
    assert(props_view(ev@).take(ev@.len() as int) =~= props_view(ev@));
    while i > 0
        invariant
            i <= ev@.len(),
            last_value(props_view(ev@), key@) == last_value(props_view(ev@).take(i as int), key@),
        decreases i,
    {
        assert(props_view(ev@).take(i as int).drop_last() =~= props_view(ev@).take(i - 1));
        if crate::text::same_text(ev[i - 1].0.as_str(), key) {
            return ev[i - 1].1.clone();
        }
        i = i - 1;
    }
    String::new()
}

/// Keeps the events whose summary or description holds the query.
pub fn filter_events(evs: &Vec<Vec<(String, String)>>, query: &str) -> (r: Vec<JsonValue>)
    ensures
        events_json(r@, matching_events(events_view(evs@), query@)),
{
    let q = lowercase(query);
    let mut out: Vec<JsonValue> = Vec::new();
    let ghost kept: Seq<Seq<(Seq<char>, Seq<char>)>> = Seq::empty();
    let mut i: usize = 0;
    assert(events_view(evs@).take(0).filter(|ev: Seq<(Seq<char>, Seq<char>)>| event_matches(ev, query@))
        =~= Seq::<Seq<(Seq<char>, Seq<char>)>>::empty());
    while i < evs.len()
        invariant
            i <= evs@.len(),
            q@ == lower_text(query@),
            events_json(out@, events_view(evs@).take(i as int).filter(
                |ev: Seq<(Seq<char>, Seq<char>)>| event_matches(ev, query@),
            )),
        decreases evs.len() - i,
    {
        let ghost evv = events_view(evs@);
        let ghost before = out@;
        assert(evv.take(i + 1).drop_last() =~= evv.take(i as int));
        let summary = last_value_exec(&evs[i], "summary");
        let desc = last_value_exec(&evs[i], "description");
        let s_low = lowercase(summary.as_str());
        let d_low = lowercase(desc.as_str());
        let hit = str_contains(s_low.as_str(), q.as_str()) || str_contains(d_low.as_str(), q.as_str());
        proof {
            reveal(Seq::filter);
        }
        if hit {
            out.push(event_to_json(&evs[i]));
            assert(evv.take(i + 1).filter(|ev: Seq<(Seq<char>, Seq<char>)>| event_matches(ev, query@))
                =~= evv.take(i as int).filter(|ev: Seq<(Seq<char>, Seq<char>)>| event_matches(ev, query@)).push(evv[i as int]));
        } else {
            assert(evv.take(i + 1).filter(|ev: Seq<(Seq<char>, Seq<char>)>| event_matches(ev, query@))
                =~= evv.take(i as int).filter(|ev: Seq<(Seq<char>, Seq<char>)>| event_matches(ev, query@)));
        }
        i = i + 1;
    }
    assert(events_view(evs@).take(evs@.len() as int) =~= events_view(evs@));
    out
}

} // verus!
