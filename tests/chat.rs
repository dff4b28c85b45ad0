use p2p_chat::{
    receive, view_changes, Config, Discovery, Message, Person, Stamp, StampError, ViewChange,
    DEFAULT_ALIAS, DEFAULT_TOPIC,
};

fn person(alias: &str) -> Person {
    Person::new(alias.to_string())
}

fn stamp(secs: i64, offset: i32) -> Stamp {
    Stamp::new(secs, offset).expect("stamp in range")
}

#[test]
fn person_renders_alias() {
    assert_eq!(person("alice").to_string(), "alice");
}

#[test]
fn message_renders_two_lines() {
    let m = Message {
        alias: person("alice"),
        content: "hello".to_string(),
        datetime: "2023-01-01 00:30:00 +0000".to_string(),
    };
    assert_eq!(m.to_string(), "alice 2023-01-01 00:30:00 +0000\nhello\n");
}

#[test]
fn stamp_renders_fixed_pattern() {
    // 2023-01-01 00:30:00 UTC
    assert_eq!(stamp(1672533000, 0).render(), "2023-01-01 00:30:00 +0000");
    assert_eq!(stamp(1672533000, 19800).render(), "2023-01-01 06:00:00 +0530");
}

#[test]
fn stamp_parses_fixed_pattern() {
    let st = Stamp::parse("2023-01-01 00:30:00 +0000").unwrap();
    assert_eq!(st, Stamp { secs: 1672533000, offset: 0 });
    let st = Stamp::parse("2022-12-31 19:30:00 -0500").unwrap();
    assert_eq!(st, Stamp { secs: 1672533000, offset: -18000 });
}

#[test]
fn offset_change_crosses_year_boundary() {
    let st = Stamp::parse("2023-01-01 00:30:00 +0000").unwrap();
    let west = st.with_offset(-18000);
    assert_eq!(west.secs, st.secs);
    assert_eq!(west.render(), "2022-12-31 19:30:00 -0500");
    assert_eq!(Stamp::parse(&west.render()).unwrap().secs, st.secs);
}

#[test]
fn offset_change_keeps_instant_for_many_offsets() {
    let st = stamp(951782400, 3600);
    for off in [-43200, -18000, -1800, 0, 1, 3600, 20700, 50400, 86399, -86399] {
        let moved = st.with_offset(off);
        assert_eq!(moved.secs, st.secs);
        assert_eq!(moved.with_offset(st.offset), st);
        if off % 60 == 0 {
            assert_eq!(Stamp::parse(&moved.render()).unwrap(), moved);
        }
    }
}

#[test]
fn stamp_rejects_malformed_text() {
    assert_eq!(Stamp::parse("yesterday"), Err(StampError::Malformed));
    assert_eq!(Stamp::parse(""), Err(StampError::Malformed));
    assert_eq!(Stamp::parse("2023-01-01 00:30:00"), Err(StampError::Malformed));
    assert_eq!(Stamp::parse("2023-13-01 00:30:00 +0000"), Err(StampError::Malformed));
}

#[test]
fn stamp_converts_instants_near_year_zero() {
    let st = Stamp::parse("0000-01-01 00:00:00 +0100").unwrap();
    assert_eq!(st, Stamp { secs: -62167219200 - 3600, offset: 3600 });
    assert_eq!(st.with_offset(0).render(), "-0001-12-31 23:00:00 +0000");
    let m = Message {
        alias: person("alice"),
        content: "old".to_string(),
        datetime: "0000-01-01 00:00:00 +0100".to_string(),
    };
    assert_eq!(m.localized(0).unwrap().datetime, "-0001-12-31 23:00:00 +0000");
    assert!(receive(Some(m)).is_some());
}

#[test]
fn stamp_converts_instants_near_year_ten_thousand() {
    let m = Message {
        alias: person("bob"),
        content: "late".to_string(),
        datetime: "9999-12-31 23:30:00 -0100".to_string(),
    };
    let local = m.localized(3600).unwrap();
    assert_eq!(local.datetime, "+10000-01-01 01:30:00 +0100");
    assert_eq!(local.content, "late");
}

#[test]
fn stamp_new_checks_chrono_range() {
    assert_eq!(Stamp::new(p2p_chat::MAX_SECS + 1, 0), None);
    assert_eq!(Stamp::new(p2p_chat::MIN_SECS - 1, 0), None);
    assert_eq!(Stamp::new(0, 86400), None);
    assert_eq!(Stamp::new(0, -86400), None);
    assert!(Stamp::new(p2p_chat::MIN_SECS, 0).is_some());
    assert!(Stamp::new(p2p_chat::MAX_SECS, 86399).is_some());
    assert!(Stamp::new(p2p_chat::MAX_SECS, 86399).unwrap().render().contains("262143"));
    assert!(Stamp::new(p2p_chat::MIN_SECS, -86399).unwrap().render().contains("262144"));
}

#[test]
fn local_at_keeps_instant() {
    let st = Stamp::local_at(1672533000).unwrap();
    assert_eq!(st.secs, 1672533000);
    assert!(st.offset > -86400 && st.offset < 86400);
    assert_eq!(Stamp::local_at(p2p_chat::MAX_SECS + 1), None);
    assert_eq!(Stamp::local_at(p2p_chat::MIN_SECS - 1), None);
}

#[test]
fn now_local_parses_again() {
    let st = Stamp::now_local();
    assert_eq!(Stamp::parse(&st.render()).unwrap().secs, st.secs);
}

#[test]
fn compose_trims_content() {
    let st = stamp(1672533000, 0);
    let m = Message::compose("  hello \n", &person("alice"), &st).unwrap();
    assert_eq!(m.alias.alias, "alice");
    assert_eq!(m.content, "hello");
    assert_eq!(m.datetime, "2023-01-01 00:30:00 +0000");
}

#[test]
fn compose_drops_blank_lines() {
    let st = stamp(1672533000, 0);
    assert!(Message::compose("", &person("alice"), &st).is_none());
    assert!(Message::compose(" \t \u{3000}\n", &person("alice"), &st).is_none());
    assert!(Message::compose_now("   ", &person("alice")).is_none());
}

#[test]
fn compose_now_stamps_readable_time() {
    let m = Message::compose_now("hi", &person("bob")).unwrap();
    assert_eq!(m.content, "hi");
    assert!(Stamp::parse(&m.datetime).is_ok());
}

#[test]
fn localized_keeps_alias_content_and_instant() {
    let m = Message {
        alias: person("alice"),
        content: "hello".to_string(),
        datetime: "2023-01-01 00:30:00 +0000".to_string(),
    };
    let local = m.localized(-18000).unwrap();
    assert_eq!(local.alias.alias, "alice");
    assert_eq!(local.content, "hello");
    assert_eq!(local.datetime, "2022-12-31 19:30:00 -0500");
}

#[test]
fn localized_reports_bad_timestamp() {
    let m = Message {
        alias: person("alice"),
        content: "hello".to_string(),
        datetime: "not a time".to_string(),
    };
    assert_eq!(m.localized(0).unwrap_err(), StampError::Malformed);
    assert_eq!(m.localize().unwrap_err(), StampError::Malformed);
}

#[test]
fn receive_shows_alias_then_content() {
    let m = Message {
        alias: person("alice"),
        content: "hello".to_string(),
        datetime: "2023-01-01 00:30:00 +0000".to_string(),
    };
    let shown = receive(Some(m)).unwrap();
    assert!(shown.starts_with("alice "));
    assert!(shown.ends_with("\nhello\n"));
    let stamp_text = &shown["alice ".len()..shown.len() - "\nhello\n".len()];
    assert_eq!(Stamp::parse(stamp_text).unwrap().secs, 1672533000);
}

#[test]
fn receive_drops_payload_that_is_no_message() {
    assert_eq!(receive(None), None);
}

#[test]
fn receive_drops_message_with_bad_timestamp() {
    let m = Message {
        alias: person("alice"),
        content: "hello".to_string(),
        datetime: "2023-01-01".to_string(),
    };
    assert_eq!(receive(Some(m)), None);
}

#[test]
fn config_defaults() {
    let c = Config::from_args(None, None);
    assert_eq!(c.topic, DEFAULT_TOPIC);
    assert_eq!(c.topic, "public-chat");
    assert_eq!(c.person.alias, DEFAULT_ALIAS);
    assert_eq!(c.person.alias, "unknow");
}

#[test]
fn config_takes_arguments() {
    let c = Config::from_args(Some("room1".to_string()), Some("alice".to_string()));
    assert_eq!(c.topic, "room1");
    assert_eq!(c.person.alias, "alice");
    let m = c.message_for(" hello ").unwrap();
    assert_eq!(m.alias.alias, "alice");
    assert_eq!(m.content, "hello");
    assert!(c.message_for("\t").is_none());
}

fn peer_of(c: &ViewChange) -> (bool, Vec<u8>) {
    match c {
        ViewChange::Add(p) => (true, p.clone()),
        ViewChange::Remove(p) => (false, p.clone()),
    }
}

#[test]
fn discovered_peers_are_added_in_order() {
    let ev = Discovery::Discovered(vec![vec![1, 2], vec![3]]);
    let r: Vec<_> = view_changes(&ev).iter().map(peer_of).collect();
    assert_eq!(r, vec![(true, vec![1, 2]), (true, vec![3])]);
}

#[test]
fn expired_peer_still_reported_stays_target() {
    let ev = Discovery::Expired(vec![(vec![7, 7], true)]);
    assert!(view_changes(&ev).is_empty());
}

#[test]
fn expired_peer_no_longer_reported_is_removed() {
    let ev = Discovery::Expired(vec![(vec![7, 7], true), (vec![9], false)]);
    let r: Vec<_> = view_changes(&ev).iter().map(peer_of).collect();
    assert_eq!(r, vec![(false, vec![9])]);
}

#[test]
fn empty_discovery_events_change_nothing() {
    assert!(view_changes(&Discovery::Discovered(vec![])).is_empty());
    assert!(view_changes(&Discovery::Expired(vec![])).is_empty());
}
