//! Daily briefing: a morning summary in Markdown with calendar, email,
//! tasks, news and system sections.
//!
//! Each section is gathered on its own; a source that is not available
//! gives a placeholder, so the briefing is always complete.

use vstd::prelude::*;
use vstd::string::*;

use crate::error::AdapterError;
use crate::json::{JsonValue, field, get_str, str_field};
use crate::text::{ascii_lower, decimal, join, join_strings, trim, trim_str, u64_to_decimal};
use crate::traits::views;

verus! {

/// The default briefing time.
pub const DEFAULT_BRIEFING_TIME: &'static str = "07:00";

/// The calendar section while no calendar source is connected.
pub const NO_EVENTS: &'static str = "No events today";

/// The task section while no task source is connected.
pub const ALL_CLEAR: &'static str = "All clear";

/// The email section when no email address is configured.
pub const EMAIL_NOT_CONFIGURED: &'static str = "Email not configured";

/// The email section when an address is configured but no mail source is
/// connected.
pub const EMAIL_UNAVAILABLE: &'static str = "Email unavailable";

/// The news section when no headline could be had.
pub const NO_HEADLINES: &'static str = "No headlines available";

/// How many headlines the news section shows at most.
pub const MAX_HEADLINES: usize = 3;

/// Configuration of the daily briefing.
#[derive(Debug)]
pub struct BriefingConfig {
    /// Time of the briefing, `HH:MM` on a 24-hour clock.
    pub briefing_time: String,
    /// Whether the scheduled briefing is enabled.
    pub enabled: bool,
    /// Version shown in the system section.
    pub version: String,
}

/// Whether a setting reads `true`, ignoring surrounding whitespace and ASCII
/// case.
pub open spec fn is_true_setting(s: Seq<char>) -> bool {
    let t = trim(s);
    t.len() == 4 && ascii_lower(t[0]) == 't' && ascii_lower(t[1]) == 'r' && ascii_lower(t[2]) == 'u'
        && ascii_lower(t[3]) == 'e'
}

fn lower(c: char) -> (r: char)
    ensures
        r == ascii_lower(c),
{
    if 'A' <= c && c <= 'Z' {
        let u: u32 = (c as u32) + 32;
        let b: u8 = u as u8;
        b as char
    } else {
        c
    }
}

/// Whether a setting reads `true`, ignoring surrounding whitespace and ASCII
/// case.
pub fn true_setting(s: &str) -> (r: bool)
    ensures
        r == is_true_setting(s@),
{
    let t = trim_str(s);
    let v = crate::text::chars_of(t.as_str());
    if v.len() != 4 {
        return false;
    }
    lower(v[0]) == 't' && lower(v[1]) == 'r' && lower(v[2]) == 'u' && lower(v[3]) == 'e'
}

impl BriefingConfig {
    /// The configuration from its settings: the `BRIEFING_TIME` value
    /// (`07:00` when unset), the `BRIEFING_ENABLED` value (enabled only when
    /// it reads `true`), and the version.
    pub fn from_settings(briefing_time: Option<String>, enabled: Option<String>, version: &str) -> (r: Self)
        ensures
            r.briefing_time@ == match briefing_time {
                Some(t) => t@,
                None => DEFAULT_BRIEFING_TIME@,
            },
            r.enabled == match enabled {
                Some(e) => is_true_setting(e@),
                None => false,
            },
            r.version@ == version@,
    {
        let t = match briefing_time {
            Some(t) => t,
            None => String::from_str(DEFAULT_BRIEFING_TIME),
        };
        let e = match enabled {
            Some(e) => true_setting(e.as_str()),
            None => false,
        };
        BriefingConfig { briefing_time: t, enabled: e, version: String::from_str(version) }
    }
}

/// The sections gathered for a briefing.
#[derive(Debug)]
pub struct BriefingSections {
    pub calendar: String,
    pub email: String,
    pub tasks: String,
    pub news: String,
}

/// The email section: whether an address is configured (`EMAIL_ADDRESS`,
/// not blank).
pub fn email_section(email_address: Option<String>) -> (r: String)
    ensures
        r@ == match email_address {
            Some(a) => if trim(a@).len() > 0 {
                EMAIL_UNAVAILABLE@
            } else {
                EMAIL_NOT_CONFIGURED@
            },
            None => EMAIL_NOT_CONFIGURED@,
        },
{
    match email_address {
        Some(a) => {
            let t = trim_str(a.as_str());
            if t.as_str().is_empty() {
                String::from_str(EMAIL_NOT_CONFIGURED)
            } else {
                String::from_str(EMAIL_UNAVAILABLE)
            }
        },
        None => String::from_str(EMAIL_NOT_CONFIGURED),
    }
}

/// The `Text` of each news topic that has one, in order.
pub open spec fn topic_texts(topics: Seq<JsonValue>) -> Seq<Seq<char>>
    decreases topics.len(),
{
    if topics.len() == 0 {
        Seq::empty()
    } else {
        let t = topic_texts(topics.drop_last());
        match str_field(topics.last(), "Text"@) {
            Some(x) => t.push(x),
            None => t,
        }
    }
}

/// The first headlines among the topics.
pub open spec fn first_headlines(topics: Seq<JsonValue>) -> Seq<Seq<char>> {
    let t = topic_texts(topics);
    if t.len() <= MAX_HEADLINES {
        t
    } else {
        t.take(MAX_HEADLINES as int)
    }
}

/// The topics of a news reply: its `RelatedTopics` array, if any.
pub open spec fn reply_topics(reply: Option<JsonValue>) -> Seq<JsonValue> {
    match reply {
        Some(j) => match field(j, "RelatedTopics"@) {
            Some(JsonValue::Array(a)) => a@,
            _ => Seq::empty(),
        },
        None => Seq::empty(),
    }
}

/// Numbered headline lines: `1. text`, `2. text`, ...
pub open spec fn numbered(hs: Seq<Seq<char>>) -> Seq<Seq<char>> {
    Seq::new(hs.len(), |i: int| decimal((i + 1) as nat) + ". "@ + hs[i])
}

/// The news section of a reply from the news service (`None` when the
/// request failed, was refused or could not be parsed).
pub open spec fn news_text(reply: Option<JsonValue>) -> Seq<char> {
    let hs = first_headlines(reply_topics(reply));
    if hs.len() == 0 {
        NO_HEADLINES@
    } else {
        join(numbered(hs), seq!['\n'])
    }
}

fn collect_headlines(topics: &Vec<JsonValue>) -> (r: Vec<String>)
    ensures
        views(r@) == first_headlines(topics@),
{
    let mut out: Vec<String> = Vec::new();
    let mut i: usize = 0;
    while i < topics.len()
        invariant
            i <= topics.len(),
            views(out@) == first_headlines(topics@.take(i as int)),
        decreases topics.len() - i,
    {
        let ghost before = topic_texts(topics@.take(i as int));
        assert(topics@.take(i + 1).drop_last() =~= topics@.take(i as int));
        assert(topics@.take(i + 1).last() == topics@[i as int]);
        let ghost after = topic_texts(topics@.take(i + 1));
        match get_str(&topics[i], "Text") {
            Some(t) => {
                assert(after == before.push(t@));
                assert(views(out@).len() == out@.len());
                if out.len() < MAX_HEADLINES {
                    assert(before.len() < MAX_HEADLINES);
                    out.push(t);
                    assert(views(out@) =~= after);
                } else {
                    assert(after.take(MAX_HEADLINES as int) =~= before.take(MAX_HEADLINES as int));
                }
            },
            None => {
                assert(after == before);
            },
        }
        i = i + 1;
    }
    assert(topics@.take(topics.len() as int) =~= topics@);
    out
}

/// The news section from the reply of the news service.
pub fn news_section(reply: Option<JsonValue>) -> (r: String)
    ensures
        r@ == news_text(reply),
{
    let empty: Vec<JsonValue> = Vec::new();
    let topics: &Vec<JsonValue> = match &reply {
        Some(j) => match j.get("RelatedTopics") {
            Some(JsonValue::Array(a)) => a,
            _ => &empty,
        },
        None => &empty,
    };
    assert(topics@ == reply_topics(reply));
    let hs = collect_headlines(topics);
    assert(views(hs@) == first_headlines(reply_topics(reply)));
    assert(views(hs@).len() == hs@.len());
    if hs.len() == 0 {
        return String::from_str(NO_HEADLINES);
    }
    let mut lines: Vec<String> = Vec::new();
    let mut i: usize = 0;
    while i < hs.len()
        invariant
            i <= hs.len() <= MAX_HEADLINES,
            views(lines@) == numbered(views(hs@)).take(i as int),
        decreases hs.len() - i,
    {
        let mut line = u64_to_decimal((i + 1) as u64);
        line.append(". ");
        line.append(hs[i].as_str());
        assert(views(hs@)[i as int] == hs@[i as int]@);
        assert(line@ == numbered(views(hs@))[i as int]);
        let ghost old_lines = views(lines@);
        lines.push(line);
        assert(views(lines@) =~= old_lines.push(numbered(views(hs@))[i as int]));
        assert(views(lines@) =~= numbered(views(hs@)).take(i + 1));
        i = i + 1;
    }
    assert(numbered(views(hs@)).take(hs.len() as int) =~= numbered(views(hs@)));
    assert(lines@.map_values(|s: String| s@) =~= views(lines@));
    let r = join_strings(lines.as_slice(), "\n");
    proof {
        reveal_strlit("\n");
        assert("\n"@ =~= seq!['\n']);
        assert(views(lines@) == numbered(views(hs@)));
        assert(r@ == join(numbered(views(hs@)), seq!['\n']));
    }
    r
}

/// `Monday, January 5, 2026` for a calendar date, as chrono formats it
/// (`%A, %B %-d, %Y`); `None` when there is no such date.
pub uninterp spec fn long_date_of(year: int, month: int, day: int) -> Option<Seq<char>>;

/// `chrono::NaiveDate::from_ymd_opt`, then `format("%A, %B %-d, %Y")`: the
/// weekday, month name, day and year of a date, which depend on the date
/// alone; `None` when the date does not exist.
#[verifier::external_body]
fn long_date(year: i32, month: u32, day: u32) -> (r: Option<String>)
    ensures
        match r {
            Some(x) => long_date_of(year as int, month as int, day as int) == Some(x@),
            None => long_date_of(year as int, month as int, day as int) is None,
        },
{
    match chrono::NaiveDate::from_ymd_opt(year, month, day) {
        Some(d) => Some(d.format("%A, %B %-d, %Y").to_string()),
        None => None,
    }
}

/// The briefing document.
pub open spec fn briefing_text(day: Seq<char>, s: BriefingSections, system: Seq<char>) -> Seq<char> {
    "# Morning Briefing \u{2014} "@ + day + "\n\n## Calendar\n"@ + s.calendar@ + "\n\n## Email\n"@ + s.email@
        + "\n\n## Tasks\n"@ + s.tasks@ + "\n\n## News\n"@ + s.news@ + "\n\n## System\n"@ + system + "\n"@
}

/// The system line for a version.
pub open spec fn system_text(version: Seq<char>) -> Seq<char> {
    "OpenIntentOS v"@ + version + " \u{2014} memory OK"@
}

/// Lays out the briefing for a day label.
pub fn render_briefing(day: &str, sections: &BriefingSections, system: &str) -> (r: String)
    ensures
        r@ == briefing_text(day@, *sections, system@),
{
    let mut s = String::from_str("# Morning Briefing \u{2014} ");
    s.append(day);
    s.append("\n\n## Calendar\n");
    s.append(sections.calendar.as_str());
    s.append("\n\n## Email\n");
    s.append(sections.email.as_str());
    s.append("\n\n## Tasks\n");
    s.append(sections.tasks.as_str());
    s.append("\n\n## News\n");
    s.append(sections.news.as_str());
    s.append("\n\n## System\n");
    s.append(system);
    s.append("\n");
    s
}

/// Composes morning briefings.
#[derive(Debug)]
pub struct DailyBriefingAdapter {
    pub config: BriefingConfig,
}

impl DailyBriefingAdapter {
    /// A briefing adapter with a given configuration.
    pub fn with_config(config: BriefingConfig) -> (r: Self)
        ensures
            r.config == config,
    {
        DailyBriefingAdapter { config }
    }

    /// Whether the scheduled briefing is enabled.
    pub fn is_enabled(&self) -> (r: bool)
        ensures
            r == self.config.enabled,
    {
        self.config.enabled
    }

    /// The configured briefing time.
    pub fn briefing_time(&self) -> (r: &str)
        ensures
            r@ == self.config.briefing_time@,
    {
        self.config.briefing_time.as_str()
    }

    /// The system line: the version and the memory state.
    pub fn system_status(&self) -> (r: String)
        ensures
            r@ == system_text(self.config.version@),
    {
        let mut s = String::from_str("OpenIntentOS v");
        s.append(self.config.version.as_str());
        s.append(" \u{2014} memory OK");
        s
    }

    /// The briefing for a date from its gathered sections; a date that does
    /// not exist is an invalid input.
    pub fn compose_briefing(&self, year: i32, month: u32, day: u32, sections: &BriefingSections) -> (r: Result<String, AdapterError>)
        ensures
            match long_date_of(year as int, month as int, day as int) {
                Some(d) => r matches Ok(t) && t@ == briefing_text(d, *sections, system_text(self.config.version@)),
                None => r matches Err(AdapterError::InvalidInput(m)) && m@ == "no such date"@,
            },
    {
        let label = match long_date(year, month, day) {
            Some(l) => l,
            None => {
                return Err(AdapterError::InvalidInput(String::from_str("no such date")));
            },
        };
        let system = self.system_status();
        Ok(render_briefing(label.as_str(), sections, system.as_str()))
    }
}

} // verus!
