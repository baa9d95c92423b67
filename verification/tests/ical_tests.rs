use matrix_bot_ical::events::IcalCalendar;

#[test]
fn test_parse_ical_content() {
    let ical_content = "BEGIN:VCALENDAR\n\
                        VERSION:2.0\n\
                        PRODID:-//Test//Test//EN\n\
                        BEGIN:VEVENT\n\
                        UID:test-event-1@example.com\n\
                        DTSTART:20251203T100000Z\n\
                        DTEND:20251203T110000Z\n\
                        SUMMARY:Test Meeting\n\
                        DESCRIPTION:This is a test meeting\n\
                        LOCATION:Conference Room\n\
                        END:VEVENT\n\
                        BEGIN:VEVENT\n\
                        UID:test-event-2@example.com\n\
                        DTSTART:20251204T140000Z\n\
                        DTEND:20251204T150000Z\n\
                        SUMMARY:Another Meeting\n\
                        END:VEVENT\n\
                        END:VCALENDAR\n";

    let calendar = IcalCalendar::parse_ical_content(ical_content).unwrap();
    assert_eq!(calendar.events.len(), 2);

    let first_event = &calendar.events[0];
    assert_eq!(first_event.summary, Some("Test Meeting".to_string()));
    assert_eq!(
        first_event.description,
        Some("This is a test meeting".to_string())
    );
    assert_eq!(first_event.location, Some("Conference Room".to_string()));
    assert_eq!(first_event.start_time, Some("20251203T100000Z".to_string()));
    assert_eq!(first_event.end_time, Some("20251203T110000Z".to_string()));

    let second_event = &calendar.events[1];
    assert_eq!(second_event.summary, Some("Another Meeting".to_string()));
    assert_eq!(second_event.description, None);
    assert_eq!(second_event.location, None);
}

#[test]
fn test_get_upcoming_events() {
    let ical_content = "BEGIN:VCALENDAR\n\
                        VERSION:2.0\n\
                        PRODID:-//Test//Test//EN\n\
                        BEGIN:VEVENT\n\
                        UID:past-event@example.com\n\
                        DTSTART:20251201T100000Z\n\
                        DTEND:20251201T110000Z\n\
                        SUMMARY:Past Event\n\
                        END:VEVENT\n\
                        BEGIN:VEVENT\n\
                        UID:future-event@example.com\n\
                        DTSTART:20251205T100000Z\n\
                        DTEND:20251205T110000Z\n\
                        SUMMARY:Future Event\n\
                        END:VEVENT\n\
                        END:VCALENDAR\n";

    let calendar = IcalCalendar::parse_ical_content(ical_content).unwrap();
    let upcoming = calendar.get_upcoming_events("20251203T120000Z");
    assert_eq!(upcoming.len(), 1);
    assert_eq!(upcoming[0].summary, Some("Future Event".to_string()));

    let upcoming_limited = calendar.get_upcoming_events_limited("20251203T120000Z", Some(1));
    assert_eq!(upcoming_limited.len(), 1);
    assert_eq!(
        upcoming_limited[0].summary,
        Some("Future Event".to_string())
    );
}

#[test]
fn test_get_upcoming_events_limited_with_multiple() {
    let ical_content = "BEGIN:VCALENDAR\n\
                        VERSION:2.0\n\
                        PRODID:-//Test//Test//EN\n\
                        BEGIN:VEVENT\n\
                        UID:past-event@example.com\n\
                        DTSTART:20251201T100000Z\n\
                        DTEND:20251201T110000Z\n\
                        SUMMARY:Past Event\n\
                        END:VEVENT\n\
                        BEGIN:VEVENT\n\
                        UID:future-event-1@example.com\n\
                        DTSTART:20251205T100000Z\n\
                        DTEND:20251205T110000Z\n\
                        SUMMARY:Future Event 1\n\
                        END:VEVENT\n\
                        BEGIN:VEVENT\n\
                        UID:future-event-2@example.com\n\
                        DTSTART:20251206T100000Z\n\
                        DTEND:20251206T110000Z\n\
                        SUMMARY:Future Event 2\n\
                        END:VEVENT\n\
                        BEGIN:VEVENT\n\
                        UID:future-event-3@example.com\n\
                        DTSTART:20251207T100000Z\n\
                        DTEND:20251207T110000Z\n\
                        SUMMARY:Future Event 3\n\
                        END:VEVENT\n\
                        END:VCALENDAR\n";

    let calendar = IcalCalendar::parse_ical_content(ical_content).unwrap();

    let all_upcoming = calendar.get_upcoming_events("20251203T120000Z");
    assert_eq!(all_upcoming.len(), 3);

    let limited_upcoming = calendar.get_upcoming_events_limited("20251203T120000Z", Some(2));
    assert_eq!(limited_upcoming.len(), 2);
    assert_eq!(
        limited_upcoming[0].summary,
        Some("Future Event 1".to_string())
    );
    assert_eq!(
        limited_upcoming[1].summary,
        Some("Future Event 2".to_string())
    );

    let no_limit = calendar.get_upcoming_events_limited("20251203T120000Z", None);
    assert_eq!(no_limit.len(), 3);
}

#[test]
fn test_get_upcoming_events_filtered_with_max_date() {
    let ical_content = "BEGIN:VCALENDAR\n\
                        VERSION:2.0\n\
                        PRODID:-//Test//Test//EN\n\
                        BEGIN:VEVENT\n\
                        UID:past-event@example.com\n\
                        DTSTART:20251201T100000Z\n\
                        DTEND:20251201T110000Z\n\
                        SUMMARY:Past Event\n\
                        END:VEVENT\n\
                        BEGIN:VEVENT\n\
                        UID:near-future@example.com\n\
                        DTSTART:20251205T100000Z\n\
                        DTEND:20251205T110000Z\n\
                        SUMMARY:Near Future Event\n\
                        END:VEVENT\n\
                        BEGIN:VEVENT\n\
                        UID:far-future@example.com\n\
                        DTSTART:20251210T100000Z\n\
                        DTEND:20251210T110000Z\n\
                        SUMMARY:Far Future Event\n\
                        END:VEVENT\n\
                        END:VCALENDAR\n";

    let calendar = IcalCalendar::parse_ical_content(ical_content).unwrap();

    let all_upcoming = calendar.get_upcoming_events("20251203T120000Z");
    assert_eq!(all_upcoming.len(), 2);

    let filtered = calendar.get_upcoming_events_filtered(
        "20251203T120000Z",
        Some("20251206T235959Z"),
        None,
    );
    assert_eq!(filtered.len(), 1);
    assert_eq!(filtered[0].summary, Some("Near Future Event".to_string()));

    let filtered_limited = calendar.get_upcoming_events_filtered(
        "20251203T120000Z",
        Some("20251215T235959Z"),
        Some(1),
    );
    assert_eq!(filtered_limited.len(), 1);
    assert_eq!(
        filtered_limited[0].summary,
        Some("Near Future Event".to_string())
    );
}
