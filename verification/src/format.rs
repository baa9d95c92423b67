//! The response formatter: events rendered as markdown text, and the
//! composition of a whole query response from a feed-fetch outcome.
//!
//! Timestamps are rendered through a best-effort human-readable formatter
//! (the `chrono` crate, behind trusted wrappers) that falls back to the raw
//! canonical text when parsing fails; formatting never fails.

use vstd::prelude::*;
use vstd::string::StringExecFns;

use crate::config::ReminderType;
use crate::events::{take_limit, upcoming_events, CalendarEvent, EventView, IcalCalendar};

verus! {

/// What rendering a timestamp through the offset-aware parser yields:
/// the human-readable form, or nothing when the text does not parse.
/// Rendering is a function of the text alone.
pub uninterp spec fn offset_rendering(s: Seq<char>) -> Option<Seq<char>>;

/// What rendering a timestamp through the offset-less parser yields:
/// the human-readable form, or nothing when the text does not parse.
/// Rendering is a function of the text alone.
pub uninterp spec fn naive_rendering(s: Seq<char>) -> Option<Seq<char>>;

/// Relies on `chrono::DateTime::parse_from_str` and chrono's formatter: both
/// are pure computations on the text; `None` exactly when parsing fails.
#[verifier::external_body]
fn render_offset_timestamp(s: &str) -> (r: Option<String>)
    ensures
        r matches Some(t) ==> offset_rendering(s@) matches Some(st) && t@ == st,
        r is None ==> offset_rendering(s@) is None,
{
    match chrono::DateTime::parse_from_str(s, "%Y%m%dT%H%M%SZ") {
        Ok(dt) => Some(dt.format("%a, %b %d, %Y at %I:%M %p").to_string()),
        Err(_) => None,
    }
}

/// Relies on `chrono::NaiveDateTime::parse_from_str` and chrono's formatter:
/// both are pure computations on the text; `None` exactly when parsing fails.
#[verifier::external_body]
fn render_naive_timestamp(s: &str) -> (r: Option<String>)
    ensures
        r matches Some(t) ==> naive_rendering(s@) matches Some(st) && t@ == st,
        r is None ==> naive_rendering(s@) is None,
{
    match chrono::NaiveDateTime::parse_from_str(s, "%Y%m%dT%H%M%S") {
        Ok(dt) => Some(dt.format("%a, %b %d, %Y at %I:%M %p").to_string()),
        Err(_) => None,
    }
}

/// What the timestamp renderer emits: the offset-aware rendering when the
/// text parses with an offset, else the offset-less rendering, else the raw
/// text unchanged.
pub open spec fn rendered_date(s: Seq<char>) -> Seq<char> {
    match offset_rendering(s) {
        Some(t) => t,
        None => match naive_rendering(s) {
            Some(t) => t,
            None => s,
        },
    }
}

/// Renders a timestamp for humans, falling back to the raw text when it does
/// not parse: exactly [`rendered_date`]. Never fails.
pub fn format_ical_date(ical_date: &str) -> (r: String)
    ensures
        r@ == rendered_date(ical_date@),
{
    match render_offset_timestamp(ical_date) {
        Some(s) => s,
        None => match render_naive_timestamp(ical_date) {
            Some(s) => s,
            None => ical_date.to_owned(),
        },
    }
}

/// The "more information" trailer: present exactly when an info URL is
/// configured.
pub open spec fn info_line(info: Option<Seq<char>>) -> Seq<char> {
    match info {
        Some(u) => "\nFor more information: "@ + u + "\n"@,
        None => Seq::empty(),
    }
}

/// The summary line: a markdown link when the event carries a URL, bold
/// text otherwise.
pub open spec fn summary_line_text(summary: Seq<char>, url: Option<Seq<char>>) -> Seq<char> {
    match url {
        Some(u) => "**["@ + summary + "]("@ + u + ")**\n"@,
        None => "**"@ + summary + "**\n"@,
    }
}

/// One event's rendered block: the summary line, then a start, end and
/// location line for each field the event has, then a blank line; an event
/// with no summary renders as nothing.
pub open spec fn event_block_text(e: EventView) -> Seq<char> {
    match e.summary {
        None => Seq::empty(),
        Some(s) => summary_line_text(s, e.url) + (match e.start_time {
            Some(t) => "* Starts: "@ + rendered_date(t) + "\n"@,
            None => Seq::empty(),
        }) + (match e.end_time {
            Some(t) => "* Ends: "@ + rendered_date(t) + "\n"@,
            None => Seq::empty(),
        }) + (match e.location {
            Some(l) => "* Location: "@ + l + "\n"@,
            None => Seq::empty(),
        }) + "\n\n"@,
    }
}

/// The texts of all event blocks, concatenated in order.
pub open spec fn blocks_text(events: Seq<EventView>) -> Seq<char>
    decreases events.len(),
{
    if events.len() == 0 {
        Seq::empty()
    } else {
        blocks_text(events.drop_last()) + event_block_text(events.last())
    }
}

/// The "more information" trailer as text.
fn info_line_string(info_url: &Option<String>) -> (r: String)
    ensures
        r@ == info_line(info_url.deep_view()),
{
    match info_url {
        Some(u) => {
            let mut out = String::from_str("\nFor more information: ");
            out.append(u.as_str());
            out.append("\n");
            out
        },
        None => {
            let out = String::new();
            proof {
                assert(out@ =~= info_line(info_url.deep_view()));
            }
            out
        },
    }
}

/// The summary line as text.
fn summary_line_string(summary: &String, url: &Option<String>) -> (r: String)
    ensures
        r@ == summary_line_text(summary@, url.deep_view()),
{
    match url {
        Some(u) => {
            let mut out = String::from_str("**[");
            out.append(summary.as_str());
            out.append("](");
            out.append(u.as_str());
            out.append(")**\n");
            out
        },
        None => {
            let mut out = String::from_str("**");
            out.append(summary.as_str());
            out.append("**\n");
            out
        },
    }
}

/// One event's block as text: the summary line, then a start, end and
/// location line for each field the event has, then a blank line; an event
/// with no summary renders as nothing.
fn event_block_string(event: &CalendarEvent) -> (r: String)
    ensures
        r@ == event_block_text(event@),
{
    let summary = match &event.summary {
        Some(s) => s,
        None => {
            let out = String::new();
            proof {
                assert(out@ =~= event_block_text(event@));
            }
            return out;
        },
    };
    let mut out = summary_line_string(summary, &event.url);
    match &event.start_time {
        Some(t) => {
            let mut line = String::from_str("* Starts: ");
            let rendered = format_ical_date(t.as_str());
            line.append(rendered.as_str());
            line.append("\n");
            out.append(line.as_str());
        },
        None => {
            proof {
                assert(out@ + Seq::<char>::empty() =~= out@);
            }
        },
    }
    match &event.end_time {
        Some(t) => {
            let mut line = String::from_str("* Ends: ");
            let rendered = format_ical_date(t.as_str());
            line.append(rendered.as_str());
            line.append("\n");
            out.append(line.as_str());
        },
        None => {
            proof {
                assert(out@ + Seq::<char>::empty() =~= out@);
            }
        },
    }
    match &event.location {
        Some(l) => {
            let mut line = String::from_str("* Location: ");
            line.append(l.as_str());
            line.append("\n");
            out.append(line.as_str());
        },
        None => {
            proof {
                assert(out@ + Seq::<char>::empty() =~= out@);
            }
        },
    }
    out.append("\n\n");
    out
}

/// Renders one event under the single-event heading, with the optional
/// "more information" trailer.
pub fn format_single(event: &CalendarEvent, info_url: &Option<String>) -> (r: String)
    ensures
        r@ == "# Next Meeting/Event\n\n"@ + event_block_text(event@) + info_line(
            info_url.deep_view(),
        ),
{
    let mut out = String::from_str("# Next Meeting/Event\n\n");
    let block = event_block_string(event);
    out.append(block.as_str());
    let trailer = info_line_string(info_url);
    out.append(trailer.as_str());
    out
}

/// Renders a list of events under the plural heading, with the optional
/// "more information" trailer; an empty list yields the fixed no-upcoming
/// message, never an empty text.
pub fn format_multiple(events: &Vec<&CalendarEvent>, info_url: &Option<String>) -> (r: String)
    ensures
        events@.len() == 0 ==> r@ == "No upcoming events found."@,
        events@.len() > 0 ==> r@ == "# Upcoming Meetings/Events\n\n"@ + blocks_text(
            events.deep_view(),
        ) + info_line(info_url.deep_view()),
{
    if events.len() == 0 {
        return String::from_str("No upcoming events found.");
    }
    let mut out = String::from_str("# Upcoming Meetings/Events\n\n");
    let ghost heading = "# Upcoming Meetings/Events\n\n"@;
    let mut i: usize = 0;
    proof {
        assert(events.deep_view().take(0) =~= Seq::<EventView>::empty());
        assert(out@ =~= heading + blocks_text(events.deep_view().take(0)));
    }
    while i < events.len()
        invariant
            0 <= i <= events.len(),
            events.deep_view().len() == events@.len(),
            out@ == heading + blocks_text(events.deep_view().take(i as int)),
        decreases events.len() - i,
    {
        let event = events[i];
        let block = event_block_string(event);
        out.append(block.as_str());
        proof {
            assert(events.deep_view().take(i + 1).drop_last() =~= events.deep_view().take(
                i as int,
            ));
            assert(events.deep_view().take(i + 1).last() == events.deep_view()[i as int]);
            assert(out@ =~= heading + blocks_text(events.deep_view().take(i + 1)));
        }
        i = i + 1;
    }
    proof {
        assert(events.deep_view().take(events@.len() as int) =~= events.deep_view());
    }
    let trailer = info_line_string(info_url);
    out.append(trailer.as_str());
    out
}

/// How a query's feed fetch went: no feed URL is configured, the fetch or the
/// parse failed, or the parsed feed.
pub enum FeedOutcome {
    NoUrlConfigured,
    FetchFailed,
    Parsed(IcalCalendar),
}

/// The reply to a next-event query over a parsed feed: the earliest upcoming
/// event rendered under the single-event heading, or the fixed no-upcoming
/// message.
pub open spec fn single_reply_text(
    events: Seq<EventView>,
    now: Seq<char>,
    info: Option<Seq<char>>,
) -> Seq<char> {
    let up = take_limit(upcoming_events(events, now, None), Some(1usize));
    if up.len() == 0 {
        "No upcoming events found."@
    } else {
        "# Next Meeting/Event\n\n"@ + event_block_text(up[0]) + info_line(info)
    }
}

/// The reply to an all-events query over a parsed feed: every upcoming event
/// rendered under the plural heading, or the fixed no-upcoming message.
pub open spec fn all_reply_text(
    events: Seq<EventView>,
    now: Seq<char>,
    info: Option<Seq<char>>,
) -> Seq<char> {
    let up = upcoming_events(events, now, None);
    if up.len() == 0 {
        "No upcoming events found."@
    } else {
        "# Upcoming Meetings/Events\n\n"@ + blocks_text(up) + info_line(info)
    }
}

/// The reply to a query, for every feed outcome: the fixed message naming
/// the missing URL or the failed fetch, or the rendered query result.
pub open spec fn reply_text(
    kind: ReminderType,
    feed: FeedOutcome,
    now: Seq<char>,
    info: Option<Seq<char>>,
) -> Seq<char> {
    match feed {
        FeedOutcome::NoUrlConfigured => "No webcal URL configured"@,
        FeedOutcome::FetchFailed => "There was a problem fetching the calendar"@,
        FeedOutcome::Parsed(cal) => match kind {
            ReminderType::NextMeeting => single_reply_text(cal@, now, info),
            ReminderType::AllUpcomingMeetings => all_reply_text(cal@, now, info),
        },
    }
}

/// Builds the reply to a query of the given kind from the feed-fetch
/// outcome: exactly [`reply_text`]. Fetch and parse failures degrade to
/// fixed messages; this function never fails.
pub fn query_response(
    kind: &ReminderType,
    feed: &FeedOutcome,
    current_time: &str,
    info_url: &Option<String>,
) -> (r: String)
    ensures
        r@ == reply_text(*kind, *feed, current_time@, info_url.deep_view()),
{
    let cal = match feed {
        FeedOutcome::NoUrlConfigured => {
            return String::from_str("No webcal URL configured");
        },
        FeedOutcome::FetchFailed => {
            return String::from_str("There was a problem fetching the calendar");
        },
        FeedOutcome::Parsed(cal) => cal,
    };
    match kind {
        ReminderType::NextMeeting => {
            let up = cal.get_upcoming_events_limited(current_time, Some(1));
            if up.len() == 0 {
                String::from_str("No upcoming events found.")
            } else {
                proof {
                    assert(up.deep_view()[0] == up@[0]@);
                }
                format_single(up[0], info_url)
            }
        },
        ReminderType::AllUpcomingMeetings => {
            let up = cal.get_upcoming_events(current_time);
            if up.len() == 0 {
                String::from_str("No upcoming events found.")
            } else {
                format_multiple(&up, info_url)
            }
        },
    }
}

} // verus!
