use matrix_bot_ical::events::{CalendarEvent, IcalCalendar};

fn event_with_start(summary: &str, start: Option<&str>) -> CalendarEvent {
    CalendarEvent {
        summary: Some(summary.to_string()),
        description: None,
        start_time: start.map(|s| s.to_string()),
        end_time: None,
        location: None,
        url: None,
    }
}

#[test]
fn query_window_scenario() {
    // Three events around a reference time and a window end: only the one
    // strictly after the reference and at most the window end remains.
    let calendar = IcalCalendar {
        events: vec![
            event_with_start("first", Some("20251201T100000Z")),
            event_with_start("second", Some("20251205T100000Z")),
            event_with_start("third", Some("20251210T100000Z")),
        ],
    };
    let result = calendar.get_upcoming_events_filtered(
        "20251203T000000Z",
        Some("20251206T000000Z"),
        None,
    );
    assert_eq!(result.len(), 1);
    assert_eq!(result[0].start_time, Some("20251205T100000Z".to_string()));
}

#[test]
fn query_excludes_start_at_reference_time() {
    // The window is strictly future: a start equal to the reference time is
    // out, one second later is in.
    let calendar = IcalCalendar {
        events: vec![
            event_with_start("exactly-now", Some("20251203T120000Z")),
            event_with_start("one-second-later", Some("20251203T120001Z")),
        ],
    };
    let result = calendar.get_upcoming_events("20251203T120000Z");
    assert_eq!(result.len(), 1);
    assert_eq!(result[0].summary, Some("one-second-later".to_string()));
}

#[test]
fn query_excludes_events_without_start() {
    let calendar = IcalCalendar {
        events: vec![
            event_with_start("no-start", None),
            event_with_start("dated", Some("20251205T100000Z")),
        ],
    };
    let result = calendar.get_upcoming_events("20251203T120000Z");
    assert_eq!(result.len(), 1);
    assert_eq!(result[0].summary, Some("dated".to_string()));
}

#[test]
fn query_window_end_is_inclusive() {
    // A start equal to the window end is included; one second past it is not.
    let calendar = IcalCalendar {
        events: vec![
            event_with_start("at-the-end", Some("20251206T000000Z")),
            event_with_start("one-past-the-end", Some("20251206T000001Z")),
        ],
    };
    let result = calendar.get_upcoming_events_filtered(
        "20251203T120000Z",
        Some("20251206T000000Z"),
        None,
    );
    assert_eq!(result.len(), 1);
    assert_eq!(result[0].summary, Some("at-the-end".to_string()));
}

#[test]
fn query_sorts_ascending_whatever_the_input_order() {
    let calendar = IcalCalendar {
        events: vec![
            event_with_start("late", Some("20251210T100000Z")),
            event_with_start("early", Some("20251204T100000Z")),
            event_with_start("middle", Some("20251207T100000Z")),
        ],
    };
    let result = calendar.get_upcoming_events("20251201T000000Z");
    assert_eq!(result.len(), 3);
    assert_eq!(result[0].summary, Some("early".to_string()));
    assert_eq!(result[1].summary, Some("middle".to_string()));
    assert_eq!(result[2].summary, Some("late".to_string()));
}

#[test]
fn query_keeps_input_order_on_equal_starts() {
    // The sort is stable: events with the same start time keep their
    // document order.
    let calendar = IcalCalendar {
        events: vec![
            event_with_start("tie-a", Some("20251205T100000Z")),
            event_with_start("tie-b", Some("20251205T100000Z")),
            event_with_start("tie-c", Some("20251205T100000Z")),
        ],
    };
    let result = calendar.get_upcoming_events("20251201T000000Z");
    assert_eq!(result.len(), 3);
    assert_eq!(result[0].summary, Some("tie-a".to_string()));
    assert_eq!(result[1].summary, Some("tie-b".to_string()));
    assert_eq!(result[2].summary, Some("tie-c".to_string()));
}

#[test]
fn query_limit_yields_a_prefix_of_the_unlimited_result() {
    let calendar = IcalCalendar {
        events: vec![
            event_with_start("late", Some("20251210T100000Z")),
            event_with_start("early", Some("20251204T100000Z")),
            event_with_start("middle", Some("20251207T100000Z")),
        ],
    };
    let unlimited = calendar.get_upcoming_events("20251201T000000Z");
    for limit in 0..5usize {
        let limited = calendar.get_upcoming_events_limited("20251201T000000Z", Some(limit));
        let expected = limit.min(unlimited.len());
        assert_eq!(limited.len(), expected);
        for i in 0..expected {
            assert_eq!(limited[i].summary, unlimited[i].summary);
        }
    }
}

#[test]
fn parse_applies_later_properties_over_earlier_ones() {
    // A duplicated property within one event: the later value wins.
    let ical_content = "BEGIN:VCALENDAR\n\
                        VERSION:2.0\n\
                        BEGIN:VEVENT\n\
                        SUMMARY:First Title\n\
                        SUMMARY:Second Title\n\
                        DTSTART:20251203T100000Z\n\
                        END:VEVENT\n\
                        END:VCALENDAR\n";
    let calendar = IcalCalendar::parse_ical_content(ical_content).unwrap();
    assert_eq!(calendar.events.len(), 1);
    assert_eq!(calendar.events[0].summary, Some("Second Title".to_string()));
}

#[test]
fn parse_rejects_malformed_document() {
    // A document that ends in the middle of an event is not complete.
    let result = IcalCalendar::parse_ical_content(
        "BEGIN:VCALENDAR\nBEGIN:VEVENT\nSUMMARY:Cut off\n",
    );
    let message = match result {
        Err(m) => m,
        Ok(_) => panic!("a malformed document must not parse"),
    };
    assert!(message.contains("Failed to parse iCal"));
}
