//! Calendar events and the upcoming-event query engine.
//!
//! A feed document is parsed (by the `ical` crate, behind a trusted wrapper)
//! into raw property records; verified code normalizes each record into a
//! [`CalendarEvent`] and answers time-windowed, ordered, size-limited queries
//! over the event list by plain lexicographic comparison of canonical
//! timestamps.

use vstd::multiset::Multiset;
use vstd::prelude::*;

use crate::timestamp::{lemma_lex_cmp_antisym, lemma_lex_le_trans, lex_cmp, lex_le, lex_lt,
    str_lex_le, str_lex_lt};
use crate::text::str_eq;

verus! {

broadcast use vstd::seq_lib::group_to_multiset_ensures, vstd::multiset::group_multiset_axioms;

/// One calendar entry, as normalized from the feed's raw properties. Every
/// field is optional: the feed may omit any of them.
pub struct CalendarEvent {
    pub summary: Option<String>,
    pub description: Option<String>,
    pub start_time: Option<String>,
    pub end_time: Option<String>,
    pub location: Option<String>,
    pub url: Option<String>,
}

/// The mathematical model of a [`CalendarEvent`]: each text field as a
/// character sequence.
#[verifier::ext_equal]
pub struct EventView {
    pub summary: Option<Seq<char>>,
    pub description: Option<Seq<char>>,
    pub start_time: Option<Seq<char>>,
    pub end_time: Option<Seq<char>>,
    pub location: Option<Seq<char>>,
    pub url: Option<Seq<char>>,
}

impl View for CalendarEvent {
    type V = EventView;

    open spec fn view(&self) -> EventView {
        EventView {
            summary: self.summary.deep_view(),
            description: self.description.deep_view(),
            start_time: self.start_time.deep_view(),
            end_time: self.end_time.deep_view(),
            location: self.location.deep_view(),
            url: self.url.deep_view(),
        }
    }
}

impl DeepView for CalendarEvent {
    type V = EventView;

    open spec fn deep_view(&self) -> EventView {
        self.view()
    }
}

/// A parsed feed: the list of its events, in document order.
pub struct IcalCalendar {
    pub events: Vec<CalendarEvent>,
}

impl View for IcalCalendar {
    type V = Seq<EventView>;

    open spec fn view(&self) -> Seq<EventView> {
        self.events.deep_view()
    }
}

/// Total three-way comparison of two events by start time: lexicographic on
/// the canonical timestamp text, and an event with no start time sorts after
/// any event that has one.
pub open spec fn event_cmp(a: EventView, b: EventView) -> int {
    match (a.start_time, b.start_time) {
        (Some(x), Some(y)) => lex_cmp(x, y),
        (Some(_), None) => -1,
        (None, Some(_)) => 1,
        (None, None) => 0,
    }
}

/// The inclusion rule of the upcoming query: the event has a start time, the
/// start time is strictly after `now`, and, when a window end is given, at or
/// before it (inclusive).
pub open spec fn event_included(e: EventView, now: Seq<char>, max: Option<Seq<char>>) -> bool {
    match e.start_time {
        Some(s) => lex_lt(now, s) && (match max {
            Some(m) => lex_le(s, m),
            None => true,
        }),
        None => false,
    }
}

/// The events of `s` that the inclusion rule admits, in their original order.
pub open spec fn filter_upcoming(s: Seq<EventView>, now: Seq<char>, max: Option<Seq<char>>) -> Seq<
    EventView,
>
    decreases s.len(),
{
    if s.len() == 0 {
        Seq::empty()
    } else {
        let rest = filter_upcoming(s.drop_last(), now, max);
        if event_included(s.last(), now, max) {
            rest.push(s.last())
        } else {
            rest
        }
    }
}

/// Inserts `e` after every element of `s` that does not sort strictly after
/// it; on a sorted sequence this is one step of a stable insertion sort.
pub open spec fn insert_ordered(s: Seq<EventView>, e: EventView) -> Seq<EventView>
    decreases s.len(),
{
    if s.len() == 0 {
        seq![e]
    } else if event_cmp(s[0], e) <= 0 {
        seq![s[0]] + insert_ordered(s.drop_first(), e)
    } else {
        seq![e] + s
    }
}

/// Stable insertion sort of events by `event_cmp`: equal start times keep
/// their original relative order.
pub open spec fn sort_events(s: Seq<EventView>) -> Seq<EventView>
    decreases s.len(),
{
    if s.len() == 0 {
        Seq::empty()
    } else {
        insert_ordered(sort_events(s.drop_last()), s.last())
    }
}

/// The full query: filter by the inclusion rule, then sort by start time.
pub open spec fn upcoming_events(s: Seq<EventView>, now: Seq<char>, max: Option<Seq<char>>) -> Seq<
    EventView,
> {
    sort_events(filter_upcoming(s, now, max))
}

/// Truncation to at most `limit` entries, keeping the earliest.
pub open spec fn take_limit(s: Seq<EventView>, limit: Option<usize>) -> Seq<EventView> {
    match limit {
        Some(k) => if k < s.len() {
            s.take(k as int)
        } else {
            s
        },
        None => s,
    }
}

/// Whether `a` sorts before `b` (or ties with it) under the start-time order.
fn event_le(a: &CalendarEvent, b: &CalendarEvent) -> (r: bool)
    ensures
        r == (event_cmp(a@, b@) <= 0),
{
    match (&a.start_time, &b.start_time) {
        (Some(x), Some(y)) => str_lex_le(x.as_str(), y.as_str()),
        (Some(_), None) => true,
        (None, Some(_)) => false,
        (None, None) => true,
    }
}

/// `insert_ordered` places its element at the first position whose current
/// occupant sorts strictly after it.
proof fn lemma_insert_ordered_at(s: Seq<EventView>, e: EventView, j: int)
    requires
        0 <= j <= s.len(),
        forall|k: int| 0 <= k < j ==> event_cmp(s[k], e) <= 0,
        j < s.len() ==> event_cmp(s[j], e) > 0,
    ensures
        insert_ordered(s, e) == s.insert(j, e),
    decreases s.len(),
{
    if s.len() == 0 {
        assert(insert_ordered(s, e) =~= s.insert(0, e));
    } else if j == 0 {
        assert(insert_ordered(s, e) =~= s.insert(0, e));
    } else {
        assert(event_cmp(s[0], e) <= 0);
        lemma_insert_ordered_at(s.drop_first(), e, j - 1);
        assert(seq![s[0]] + s.drop_first().insert(j - 1, e) =~= s.insert(j, e));
    }
}

/// What parsing a feed document yields: for each event of the document, in
/// order, its raw property records `(name, value)`, in order; or the parse
/// error's message. Parsing is a function of the document text alone.
pub uninterp spec fn feed_records(s: Seq<char>) -> Result<
    Seq<Seq<(Seq<char>, Option<Seq<char>>)>>,
    Seq<char>,
>;

/// Relies on `ical::parser::ical::IcalParser`: it parses the document text
/// handed to it (a pure computation), yielding each event's property list in
/// document order; each property is handed on here as its name and optional
/// value.
#[verifier::external_body]
fn parse_feed(content: &str) -> (r: Result<Vec<Vec<(String, Option<String>)>>, String>)
    ensures
        r matches Ok(records) ==> feed_records(content@) matches Ok(specrec) && records.deep_view()
            == specrec,
        r matches Err(m) ==> feed_records(content@) matches Err(specm) && m@ == specm,
{
    let reader = std::io::BufReader::new(content.as_bytes());
    let mut out: Vec<Vec<(String, Option<String>)>> = Vec::new();
    for calendar in ical::parser::ical::IcalParser::new(reader) {
        match calendar {
            Ok(cal) => {
                for event in cal.events {
                    out.push(event.properties.into_iter().map(|p| (p.name, p.value)).collect());
                }
            },
            Err(e) => {
                return Err(format!("Failed to parse iCal: {}", e));
            },
        }
    }
    Ok(out)
}

/// An event none of whose fields have been set yet.
pub open spec fn empty_event() -> EventView {
    EventView {
        summary: None,
        description: None,
        start_time: None,
        end_time: None,
        location: None,
        url: None,
    }
}

/// One property applied to an event under construction: a recognized name
/// sets its field (a later occurrence overwrites an earlier one), any other
/// name is ignored.
pub open spec fn apply_property(e: EventView, name: Seq<char>, value: Option<Seq<char>>) -> EventView {
    if name == "SUMMARY"@ {
        EventView { summary: value, ..e }
    } else if name == "DESCRIPTION"@ {
        EventView { description: value, ..e }
    } else if name == "DTSTART"@ {
        EventView { start_time: value, ..e }
    } else if name == "DTEND"@ {
        EventView { end_time: value, ..e }
    } else if name == "LOCATION"@ {
        EventView { location: value, ..e }
    } else if name == "URL"@ {
        EventView { url: value, ..e }
    } else {
        e
    }
}

/// The event a raw property record normalizes to: every property applied in
/// order, starting from the empty event.
pub open spec fn event_of_props(props: Seq<(Seq<char>, Option<Seq<char>>)>) -> EventView
    decreases props.len(),
{
    if props.len() == 0 {
        empty_event()
    } else {
        apply_property(event_of_props(props.drop_last()), props.last().0, props.last().1)
    }
}

/// The event list a parsed feed normalizes to: one event per record.
pub open spec fn events_of_records(records: Seq<Seq<(Seq<char>, Option<Seq<char>>)>>) -> Seq<
    EventView,
> {
    records.map_values(|props: Seq<(Seq<char>, Option<Seq<char>>)>| event_of_props(props))
}

/// Clones an optional property value.
fn clone_value(value: &Option<String>) -> (r: Option<String>)
    ensures
        r.deep_view() == value.deep_view(),
{
    match value {
        Some(s) => Some(s.clone()),
        None => None,
    }
}

/// Normalizes one raw property record into an event.
fn event_from_record(props: &Vec<(String, Option<String>)>) -> (r: CalendarEvent)
    ensures
        r@ == event_of_props(props.deep_view()),
{
    let mut event = CalendarEvent {
        summary: None,
        description: None,
        start_time: None,
        end_time: None,
        location: None,
        url: None,
    };
    let mut i: usize = 0;
    proof {
        assert(props.deep_view().take(0) =~= Seq::<(Seq<char>, Option<Seq<char>>)>::empty());
        assert(event@ =~= event_of_props(props.deep_view().take(0)));
    }
    while i < props.len()
        invariant
            0 <= i <= props.len(),
            props.deep_view().len() == props@.len(),
            event@ == event_of_props(props.deep_view().take(i as int)),
        decreases props.len() - i,
    {
        let name = &props[i].0;
        let value = clone_value(&props[i].1);
        proof {
            assert(props.deep_view().take(i + 1).drop_last() =~= props.deep_view().take(i as int));
            assert(props.deep_view().take(i + 1).last() == props.deep_view()[i as int]);
            assert(props.deep_view()[i as int] == (name@, props@[i as int].1.deep_view()));
        }
        if str_eq(name.as_str(), "SUMMARY") {
            event.summary = value;
        } else if str_eq(name.as_str(), "DESCRIPTION") {
            event.description = value;
        } else if str_eq(name.as_str(), "DTSTART") {
            event.start_time = value;
        } else if str_eq(name.as_str(), "DTEND") {
            event.end_time = value;
        } else if str_eq(name.as_str(), "LOCATION") {
            event.location = value;
        } else if str_eq(name.as_str(), "URL") {
            event.url = value;
        }
        proof {
            assert(event@ =~= event_of_props(props.deep_view().take(i + 1)));
        }
        i = i + 1;
    }
    proof {
        assert(props.deep_view().take(props@.len() as int) =~= props.deep_view());
    }
    event
}

impl IcalCalendar {
    /// Parses a feed document into its normalized event list: each parsed
    /// event's recognized properties (summary, description, start, end,
    /// location, url) become the event's fields, a later occurrence of a
    /// property overwriting an earlier one. Fails exactly when the parser
    /// fails, with its message.
    pub fn parse_ical_content(content: &str) -> (r: Result<IcalCalendar, String>)
        ensures
            r matches Ok(cal) ==> feed_records(content@) matches Ok(records) && cal@
                == events_of_records(records),
            r matches Err(m) ==> feed_records(content@) matches Err(specm) && m@ == specm,
    {
        match parse_feed(content) {
            Ok(records) => {
                let mut events: Vec<CalendarEvent> = Vec::new();
                let mut i: usize = 0;
                proof {
                    assert(records.deep_view().take(0) =~= Seq::<
                        Seq<(Seq<char>, Option<Seq<char>>)>,
                    >::empty());
                    assert(events.deep_view() =~= events_of_records(records.deep_view().take(0)));
                }
                while i < records.len()
                    invariant
                        0 <= i <= records.len(),
                        records.deep_view().len() == records@.len(),
                        events.deep_view() == events_of_records(records.deep_view().take(i as int)),
                    decreases records.len() - i,
                {
                    let event = event_from_record(&records[i]);
                    let ghost old_events = events.deep_view();
                    events.push(event);
                    proof {
                        assert(events.deep_view() =~= old_events.push(
                            event_of_props(records.deep_view()[i as int]),
                        ));
                        assert(events.deep_view() =~= events_of_records(
                            records.deep_view().take(i + 1),
                        ));
                    }
                    i = i + 1;
                }
                proof {
                    assert(records.deep_view().take(records@.len() as int) =~= records.deep_view());
                }
                Ok(IcalCalendar { events })
            },
            Err(m) => Err(m),
        }
    }

    /// All upcoming events relative to `current_time`: those with a start
    /// time strictly after it, in ascending start-time order.
    pub fn get_upcoming_events(&self, current_time: &str) -> (r: Vec<&CalendarEvent>)
        ensures
            r.deep_view() == upcoming_events(self@, current_time@, None::<Seq<char>>),
    {
        self.get_upcoming_events_limited(current_time, None)
    }

    /// As [`Self::get_upcoming_events`], truncated to at most `limit` events
    /// when a limit is given, keeping the earliest.
    pub fn get_upcoming_events_limited(&self, current_time: &str, limit: Option<usize>) -> (r: Vec<
        &CalendarEvent,
    >)
        ensures
            r.deep_view() == take_limit(
                upcoming_events(self@, current_time@, None::<Seq<char>>),
                limit,
            ),
    {
        self.get_upcoming_events_filtered(current_time, None, limit)
    }

    /// The general query: events whose start time lies strictly after
    /// `current_time` and, when `max_date` is given, at or before it
    /// (inclusive), sorted ascending by start time, truncated to `limit`
    /// entries when a limit is given.
    pub fn get_upcoming_events_filtered(
        &self,
        current_time: &str,
        max_date: Option<&str>,
        limit: Option<usize>,
    ) -> (r: Vec<&CalendarEvent>)
        ensures
            r.deep_view() == take_limit(
                upcoming_events(self@, current_time@, max_date.deep_view()),
                limit,
            ),
    {
        let ghost maxv: Option<Seq<char>> = max_date.deep_view();
        let mut picked: Vec<&CalendarEvent> = Vec::new();
        let mut idx: usize = 0;
        proof {
            assert(self@.take(0) =~= Seq::<EventView>::empty());
            assert(picked.deep_view() =~= filter_upcoming(self@.take(0), current_time@, maxv));
        }
        while idx < self.events.len()
            invariant
                0 <= idx <= self.events.len(),
                self@.len() == self.events@.len(),
                picked.deep_view() == filter_upcoming(
                    self@.take(idx as int),
                    current_time@,
                    maxv,
                ),
                maxv == max_date.deep_view(),
            decreases self.events.len() - idx,
        {
            let e = &self.events[idx];
            let selected = match &e.start_time {
                Some(st) => {
                    let future = str_lex_lt(current_time, st.as_str());
                    let in_window = match max_date {
                        Some(m) => str_lex_le(st.as_str(), m),
                        None => true,
                    };
                    future && in_window
                },
                None => false,
            };
            assert(selected == event_included(self@[idx as int], current_time@, maxv));
            proof {
                assert(self@.take(idx + 1).drop_last() =~= self@.take(idx as int));
                assert(self@.take(idx + 1).last() == self@[idx as int]);
            }
            if selected {
                let ghost old_picked = picked.deep_view();
                picked.push(e);
                proof {
                    assert(picked.deep_view() =~= old_picked.push(self@[idx as int]));
                }
            }
            idx = idx + 1;
        }
        proof {
            assert(self@.take(self.events@.len() as int) =~= self@);
        }
        // Stable insertion sort of the selected events by start time.
        let mut out: Vec<&CalendarEvent> = Vec::new();
        let mut i: usize = 0;
        proof {
            assert(picked.deep_view().take(0) =~= Seq::<EventView>::empty());
            assert(out.deep_view() =~= sort_events(picked.deep_view().take(0)));
        }
        while i < picked.len()
            invariant
                0 <= i <= picked.len(),
                picked.deep_view().len() == picked@.len(),
                out.deep_view() == sort_events(picked.deep_view().take(i as int)),
                out.len() == i,
                picked.deep_view() == filter_upcoming(self@, current_time@, maxv),
            decreases picked.len() - i,
        {
            let e = picked[i];
            let mut j: usize = 0;
            while j < out.len() && event_le(out[j], e)
                invariant
                    0 <= j <= out.len(),
                    forall|k: int|
                        0 <= k < j ==> event_cmp(out.deep_view()[k], e.deep_view()) <= 0,
                    out.deep_view().len() == out@.len(),
                decreases out.len() - j,
            {
                j = j + 1;
            }
            let ghost old_out = out.deep_view();
            out.insert(j, e);
            proof {
                assert(out.deep_view() =~= old_out.insert(j as int, e.deep_view()));
                lemma_insert_ordered_at(old_out, e.deep_view(), j as int);
                assert(picked.deep_view().take(i + 1).drop_last() =~= picked.deep_view().take(
                    i as int,
                ));
                assert(picked.deep_view().take(i + 1).last() == picked.deep_view()[i as int]);
                assert(e.deep_view() == picked.deep_view()[i as int]);
            }
            i = i + 1;
        }
        proof {
            assert(picked.deep_view().take(picked@.len() as int) =~= picked.deep_view());
        }
        if let Some(k) = limit {
            out.truncate(k);
        }
        out
    }
}

/// The result of a query is non-decreasing under `event_cmp`.
pub open spec fn events_sorted(s: Seq<EventView>) -> bool {
    forall|i: int, j: int| 0 <= i < j < s.len() ==> event_cmp(s[i], s[j]) <= 0
}

/// Swapping the arguments of `event_cmp` negates its result.
pub proof fn lemma_event_cmp_antisym(a: EventView, b: EventView)
    ensures
        event_cmp(a, b) == -event_cmp(b, a),
{
    match (a.start_time, b.start_time) {
        (Some(x), Some(y)) => {
            lemma_lex_cmp_antisym(x, y);
        },
        _ => {},
    }
}

/// The start-time order on events is transitive.
pub proof fn lemma_event_le_trans(a: EventView, b: EventView, c: EventView)
    requires
        event_cmp(a, b) <= 0,
        event_cmp(b, c) <= 0,
    ensures
        event_cmp(a, c) <= 0,
{
    match (a.start_time, b.start_time, c.start_time) {
        (Some(x), Some(y), Some(z)) => {
            lemma_lex_le_trans(x, y, z);
        },
        _ => {},
    }
}

/// Inserting preserves any lower bound on the elements.
proof fn lemma_insert_ordered_lower_bound(s: Seq<EventView>, e: EventView, b: EventView)
    requires
        forall|i: int| 0 <= i < s.len() ==> event_cmp(b, #[trigger] s[i]) <= 0,
        event_cmp(b, e) <= 0,
    ensures
        forall|k: int|
            0 <= k < insert_ordered(s, e).len() ==> event_cmp(b, #[trigger] insert_ordered(s, e)[k])
                <= 0,
    decreases s.len(),
{
    if s.len() == 0 {
    } else if event_cmp(s[0], e) <= 0 {
        assert(forall|i: int|
            0 <= i < s.drop_first().len() ==> event_cmp(b, #[trigger] s.drop_first()[i]) <= 0);
        lemma_insert_ordered_lower_bound(s.drop_first(), e, b);
        let t = insert_ordered(s, e);
        assert forall|k: int| 0 <= k < t.len() implies event_cmp(b, t[k]) <= 0 by {
            if k >= 1 {
                assert(t[k] == insert_ordered(s.drop_first(), e)[k - 1]);
            }
        }
    } else {
    }
}

/// One ordered insertion into a sorted sequence keeps it sorted.
proof fn lemma_insert_ordered_sorted(s: Seq<EventView>, e: EventView)
    requires
        events_sorted(s),
    ensures
        events_sorted(insert_ordered(s, e)),
    decreases s.len(),
{
    if s.len() == 0 {
    } else if event_cmp(s[0], e) <= 0 {
        assert(events_sorted(s.drop_first()));
        lemma_insert_ordered_sorted(s.drop_first(), e);
        assert(forall|i: int|
            0 <= i < s.drop_first().len() ==> event_cmp(s[0], #[trigger] s.drop_first()[i]) <= 0);
        lemma_insert_ordered_lower_bound(s.drop_first(), e, s[0]);
        let t = insert_ordered(s, e);
        let rec = insert_ordered(s.drop_first(), e);
        assert forall|i: int, j: int| 0 <= i < j < t.len() implies event_cmp(t[i], t[j]) <= 0 by {
            assert(t[j] == rec[j - 1]);
            if i >= 1 {
                assert(t[i] == rec[i - 1]);
            }
        }
    } else {
        lemma_event_cmp_antisym(s[0], e);
        let t = insert_ordered(s, e);
        assert forall|i: int, j: int| 0 <= i < j < t.len() implies event_cmp(t[i], t[j]) <= 0 by {
            assert(t[j] == s[j - 1]);
            if i == 0 {
                if j >= 2 {
                    lemma_event_le_trans(e, s[0], s[j - 1]);
                }
            } else {
                assert(t[i] == s[i - 1]);
            }
        }
    }
}

/// The sort emits a sorted sequence.
pub proof fn lemma_sort_events_sorted(s: Seq<EventView>)
    ensures
        events_sorted(sort_events(s)),
    decreases s.len(),
{
    if s.len() != 0 {
        lemma_sort_events_sorted(s.drop_last());
        lemma_insert_ordered_sorted(sort_events(s.drop_last()), s.last());
    }
}

/// One ordered insertion adds exactly its element to the contents.
proof fn lemma_insert_ordered_multiset(s: Seq<EventView>, e: EventView)
    ensures
        insert_ordered(s, e).to_multiset() =~= s.to_multiset().insert(e),
    decreases s.len(),
{
    if s.len() == 0 {
        assert(seq![e] =~= Seq::<EventView>::empty().push(e));
        assert(s =~= Seq::<EventView>::empty());
    } else if event_cmp(s[0], e) <= 0 {
        lemma_insert_ordered_multiset(s.drop_first(), e);
        vstd::seq_lib::lemma_multiset_commutative(seq![s[0]], insert_ordered(s.drop_first(), e));
        vstd::seq_lib::lemma_multiset_commutative(seq![s[0]], s.drop_first());
        assert(s =~= seq![s[0]] + s.drop_first());
    } else {
        vstd::seq_lib::lemma_multiset_commutative(seq![e], s);
        assert(seq![e].to_multiset() =~= Seq::<EventView>::empty().push(e).to_multiset());
        assert(Seq::<EventView>::empty().to_multiset() =~= Multiset::<EventView>::empty());
    }
}

/// Sorting rearranges the events and neither adds nor drops one.
pub proof fn lemma_sort_events_multiset(s: Seq<EventView>)
    ensures
        sort_events(s).to_multiset() =~= s.to_multiset(),
    decreases s.len(),
{
    if s.len() == 0 {
    } else {
        lemma_sort_events_multiset(s.drop_last());
        lemma_insert_ordered_multiset(sort_events(s.drop_last()), s.last());
        assert(s =~= s.drop_last().push(s.last()));
    }
}

/// An event is in the filtered list exactly when it is among the events and
/// the inclusion rule admits it.
pub proof fn lemma_filter_contains_iff(
    s: Seq<EventView>,
    now: Seq<char>,
    max: Option<Seq<char>>,
    x: EventView,
)
    ensures
        filter_upcoming(s, now, max).contains(x) <==> (s.contains(x) && event_included(
            x,
            now,
            max,
        )),
    decreases s.len(),
{
    if s.len() == 0 {
        assert(!filter_upcoming(s, now, max).contains(x));
        assert(!s.contains(x));
    } else {
        lemma_filter_contains_iff(s.drop_last(), now, max, x);
        assert(s =~= s.drop_last().push(s.last()));
        vstd::seq_lib::lemma_seq_contains_after_push(s.drop_last(), s.last(), x);
        if event_included(s.last(), now, max) {
            vstd::seq_lib::lemma_seq_contains_after_push(
                filter_upcoming(s.drop_last(), now, max),
                s.last(),
                x,
            );
        }
    }
}

/// Membership carries across the sort, in both directions.
pub proof fn lemma_query_contains_iff(
    s: Seq<EventView>,
    now: Seq<char>,
    max: Option<Seq<char>>,
    x: EventView,
)
    ensures
        upcoming_events(s, now, max).contains(x) <==> (s.contains(x) && event_included(
            x,
            now,
            max,
        )),
{
    let filtered = filter_upcoming(s, now, max);
    lemma_filter_contains_iff(s, now, max, x);
    lemma_sort_events_multiset(filtered);
    assert(sort_events(filtered).to_multiset().count(x) == filtered.to_multiset().count(x));
    assert(sort_events(filtered).contains(x) <==> sort_events(filtered).to_multiset().count(x)
        > 0);
    assert(filtered.contains(x) <==> filtered.to_multiset().count(x) > 0);
}

/// An event whose start is at or before the reference time is excluded from
/// the query result: the window is strictly future.
pub proof fn lemma_query_excludes_past(
    s: Seq<EventView>,
    now: Seq<char>,
    max: Option<Seq<char>>,
    e: EventView,
)
    requires
        e.start_time matches Some(st) && !lex_lt(now, st),
    ensures
        !upcoming_events(s, now, max).contains(e),
{
    assert(!event_included(e, now, max));
    lemma_query_contains_iff(s, now, max, e);
}

/// An event with no start time is excluded from the query result, whatever
/// its other fields hold.
pub proof fn lemma_query_excludes_startless(
    s: Seq<EventView>,
    now: Seq<char>,
    max: Option<Seq<char>>,
    e: EventView,
)
    requires
        e.start_time is None,
    ensures
        !upcoming_events(s, now, max).contains(e),
{
    assert(!event_included(e, now, max));
    lemma_query_contains_iff(s, now, max, e);
}

/// The window end is inclusive: an event of the list whose start lies
/// strictly after the reference time and at or before the window end is in
/// the result.
pub proof fn lemma_window_end_inclusive(
    s: Seq<EventView>,
    now: Seq<char>,
    m: Seq<char>,
    e: EventView,
)
    requires
        s.contains(e),
        e.start_time matches Some(st) && lex_lt(now, st) && lex_le(st, m),
    ensures
        upcoming_events(s, now, Some(m)).contains(e),
{
    assert(event_included(e, now, Some(m)));
    lemma_query_contains_iff(s, now, Some(m), e);
}

/// An event whose start lies strictly after the window end is excluded.
pub proof fn lemma_window_end_excludes_beyond(
    s: Seq<EventView>,
    now: Seq<char>,
    m: Seq<char>,
    e: EventView,
)
    requires
        e.start_time matches Some(st) && !lex_le(st, m),
    ensures
        !upcoming_events(s, now, Some(m)).contains(e),
{
    assert(!event_included(e, now, Some(m)));
    lemma_query_contains_iff(s, now, Some(m), e);
}

/// The query result is ordered: non-decreasing by start time, whatever the
/// input order was.
pub proof fn lemma_query_sorted(s: Seq<EventView>, now: Seq<char>, max: Option<Seq<char>>)
    ensures
        events_sorted(upcoming_events(s, now, max)),
{
    lemma_sort_events_sorted(filter_upcoming(s, now, max));
}

/// A limit of `k` yields the smaller of `k` and the unlimited result's
/// length, and always a prefix of the unlimited result.
pub proof fn lemma_limit_is_prefix(
    s: Seq<EventView>,
    now: Seq<char>,
    max: Option<Seq<char>>,
    k: usize,
)
    ensures
        take_limit(upcoming_events(s, now, max), Some(k)).len() == (if (k as int)
            < upcoming_events(s, now, max).len() {
            k as int
        } else {
            upcoming_events(s, now, max).len() as int
        }),
        take_limit(upcoming_events(s, now, max), Some(k)) == upcoming_events(s, now, max).take(
            if (k as int) < upcoming_events(s, now, max).len() {
                k as int
            } else {
                upcoming_events(s, now, max).len() as int
            },
        ),
{
    let up = upcoming_events(s, now, max);
    if !((k as int) < up.len()) {
        assert(up.take(up.len() as int) =~= up);
    }
}

} // verus!
