use mc_dashboard::events::{
    event_type_class, event_type_icon, event_types, is_shown, server_names, shown_events, LogEvent,
};

fn event(event_type: &str, server: Option<&str>) -> LogEvent {
    LogEvent {
        id: "1".to_string(),
        event_type: event_type.to_string(),
        message: String::new(),
        timestamp: String::new(),
        player_name: None,
        player_uuid: None,
        server_name: server.map(|s| s.to_string()),
        metadata: None,
    }
}

#[test]
fn event_classes() {
    assert_eq!(event_type_class("player_join"), "event-success");
    assert_eq!(event_type_class("player_leave"), "event-warning");
    assert_eq!(event_type_class("server_offline"), "event-error");
    assert_eq!(event_type_class("queue_cleanup"), "event-system");
    assert_eq!(event_type_class("metrics_collected"), "event-metrics");
    assert_eq!(event_type_class("api_request"), "event-info");
    assert_eq!(event_type_class("error"), "event-error");
    assert_eq!(event_type_class("something_else"), "event-default");
    assert_eq!(event_type_class(""), "event-default");
}

#[test]
fn event_icons() {
    assert_eq!(event_type_icon("player_join"), "👋");
    assert_eq!(event_type_icon("server_online"), "✅");
    assert_eq!(event_type_icon("transfer_initiated"), "🚀");
    assert_eq!(event_type_icon("system_config_change"), "⚙️");
    assert_eq!(event_type_icon("error"), "🚨");
    assert_eq!(event_type_icon("unheard_of"), "📝");
}

#[test]
fn filters_let_matching_events_through() {
    let evs = vec![
        event("player_join", Some("lobby")),
        event("player_leave", Some("survival")),
        event("player_join", None),
        event("player_join", Some("survival")),
    ];
    assert_eq!(shown_events(&evs, "all", "all"), vec![0, 1, 2, 3]);
    assert_eq!(shown_events(&evs, "player_join", "all"), vec![0, 2, 3]);
    assert_eq!(shown_events(&evs, "all", "survival"), vec![1, 3]);
    assert_eq!(shown_events(&evs, "player_join", "survival"), vec![3]);
    assert_eq!(shown_events(&evs, "server_offline", "all"), Vec::<usize>::new());
    assert!(!is_shown(&evs[2], "all", "lobby"));
    assert!(is_shown(&evs[2], "all", "all"));
    assert_eq!(shown_events(&Vec::new(), "all", "all"), Vec::<usize>::new());
}

#[test]
fn distinct_names_sorted() {
    let evs = vec![
        event("player_join", Some("survival")),
        event("server_offline", Some("lobby")),
        event("player_join", None),
        event("api_error", Some("survival")),
        event("player_join", Some("creative")),
    ];
    assert_eq!(server_names(&evs), vec!["creative", "lobby", "survival"]);
    assert_eq!(event_types(&evs), vec!["api_error", "player_join", "server_offline"]);
    assert!(server_names(&Vec::new()).is_empty());
}

#[test]
fn names_sort_as_strings_do() {
    let names = ["b", "a", "B", "ab", "", "é", "a", "z", "Ab"];
    let evs: Vec<LogEvent> = names.iter().map(|n| event(n, Some(n))).collect();
    let mut expected: Vec<String> = names.iter().map(|s| s.to_string()).collect();
    expected.sort();
    expected.dedup();
    assert_eq!(server_names(&evs), expected);
    assert_eq!(event_types(&evs), expected);
}
