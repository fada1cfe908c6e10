//! The cluster event log: events as the API reports them, how each kind is
//! shown, and the filters of the log page.
use crate::text::{insert_sorted, same_text, strictly_sorted, texts};
use vstd::prelude::*;

verus! {

/// serde_json's `Value`, declared so that an event can carry its metadata
/// as the API sent it; nothing is assumed of what it holds.
#[verifier::external_type_specification]
#[verifier::external_body]
pub struct ExJsonValue(serde_json::Value);

/// One entry of the cluster's event log.
#[derive(Clone, Debug, PartialEq, Default)]
pub struct LogEvent {
    pub id: String,
    pub event_type: String,
    pub message: String,
    pub timestamp: String,
    pub player_name: Option<String>,
    pub player_uuid: Option<String>,
    pub server_name: Option<String>,
    pub metadata: Option<serde_json::Value>,
}

/// The answer of the event log endpoint.
#[derive(Clone, Debug, PartialEq, Default)]
pub struct LogsResponse {
    pub success: bool,
    pub count: i32,
    pub limit: i32,
    pub message: String,
    pub events: Vec<LogEvent>,
    pub timestamp: String,
}

/// The style class of a log event of type `t`.
pub open spec fn event_class_view(t: Seq<char>) -> Seq<char> {
    if t == "player_join"@ {
        "event-success"@
    } else if t == "player_leave"@ {
        "event-warning"@
    } else if t == "player_reconnect"@ {
        "event-info"@
    } else if t == "server_connect"@ {
        "event-success"@
    } else if t == "server_disconnect"@ {
        "event-warning"@
    } else if t == "server_offline"@ {
        "event-error"@
    } else if t == "server_online"@ {
        "event-success"@
    } else if t == "server_high_latency"@ {
        "event-warning"@
    } else if t == "server_status_check"@ {
        "event-info"@
    } else if t == "queue_join"@ {
        "event-info"@
    } else if t == "queue_leave"@ {
        "event-info"@
    } else if t == "queue_remove_admin"@ {
        "event-warning"@
    } else if t == "queue_cleanup"@ {
        "event-system"@
    } else if t == "queue_position_update"@ {
        "event-info"@
    } else if t == "transfer_initiated"@ {
        "event-info"@
    } else if t == "transfer_completed"@ {
        "event-success"@
    } else if t == "transfer_failed"@ {
        "event-error"@
    } else if t == "broadcast_all"@ {
        "event-info"@
    } else if t == "broadcast_server"@ {
        "event-info"@
    } else if t == "broadcast_failed"@ {
        "event-error"@
    } else if t == "metrics_collected"@ {
        "event-metrics"@
    } else if t == "metrics_failed"@ {
        "event-error"@
    } else if t == "system_startup"@ {
        "event-success"@
    } else if t == "system_shutdown"@ {
        "event-warning"@
    } else if t == "system_config_change"@ {
        "event-system"@
    } else if t == "system_event"@ {
        "event-system"@
    } else if t == "api_request"@ {
        "event-info"@
    } else if t == "api_error"@ {
        "event-error"@
    } else if t == "error"@ {
        "event-error"@
    } else {
        "event-default"@
    }
}

/// The style class of a log event of type `t`.
pub fn event_type_class(event_type: &str) -> (r: &'static str)
    ensures
        r@ == event_class_view(event_type@),
{
    if same_text(event_type, "player_join") {
        "event-success"
    } else if same_text(event_type, "player_leave") {
        "event-warning"
    } else if same_text(event_type, "player_reconnect") {
        "event-info"
    } else if same_text(event_type, "server_connect") {
        "event-success"
    } else if same_text(event_type, "server_disconnect") {
        "event-warning"
    } else if same_text(event_type, "server_offline") {
        "event-error"
    } else if same_text(event_type, "server_online") {
        "event-success"
    } else if same_text(event_type, "server_high_latency") {
        "event-warning"
    } else if same_text(event_type, "server_status_check") {
        "event-info"
    } else if same_text(event_type, "queue_join") {
        "event-info"
    } else if same_text(event_type, "queue_leave") {
        "event-info"
    } else if same_text(event_type, "queue_remove_admin") {
        "event-warning"
    } else if same_text(event_type, "queue_cleanup") {
        "event-system"
    } else if same_text(event_type, "queue_position_update") {
        "event-info"
    } else if same_text(event_type, "transfer_initiated") {
        "event-info"
    } else if same_text(event_type, "transfer_completed") {
        "event-success"
    } else if same_text(event_type, "transfer_failed") {
        "event-error"
    } else if same_text(event_type, "broadcast_all") {
        "event-info"
    } else if same_text(event_type, "broadcast_server") {
        "event-info"
    } else if same_text(event_type, "broadcast_failed") {
        "event-error"
    } else if same_text(event_type, "metrics_collected") {
        "event-metrics"
    } else if same_text(event_type, "metrics_failed") {
        "event-error"
    } else if same_text(event_type, "system_startup") {
        "event-success"
    } else if same_text(event_type, "system_shutdown") {
        "event-warning"
    } else if same_text(event_type, "system_config_change") {
        "event-system"
    } else if same_text(event_type, "system_event") {
        "event-system"
    } else if same_text(event_type, "api_request") {
        "event-info"
    } else if same_text(event_type, "api_error") {
        "event-error"
    } else if same_text(event_type, "error") {
        "event-error"
    } else {
        "event-default"
    }
}

/// The icon shown beside a log event of type `t`.
pub open spec fn event_icon_view(t: Seq<char>) -> Seq<char> {
    if t == "player_join"@ {
        "👋"@
    } else if t == "player_leave"@ {
        "👋"@
    } else if t == "player_reconnect"@ {
        "🔄"@
    } else if t == "server_connect"@ {
        "🔗"@
    } else if t == "server_disconnect"@ {
        "�"@
    } else if t == "server_offline"@ {
        "❌"@
    } else if t == "server_online"@ {
        "✅"@
    } else if t == "server_high_latency"@ {
        "⚠️"@
    } else if t == "server_status_check"@ {
        "🔍"@
    } else if t == "queue_join"@ {
        "⏳"@
    } else if t == "queue_leave"@ {
        "⏳"@
    } else if t == "queue_remove_admin"@ {
        "👑"@
    } else if t == "queue_cleanup"@ {
        "🧹"@
    } else if t == "queue_position_update"@ {
        "📊"@
    } else if t == "transfer_initiated"@ {
        "🚀"@
    } else if t == "transfer_completed"@ {
        "✅"@
    } else if t == "transfer_failed"@ {
        "❌"@
    } else if t == "broadcast_all"@ {
        "📢"@
    } else if t == "broadcast_server"@ {
        "📢"@
    } else if t == "broadcast_failed"@ {
        "❌"@
    } else if t == "metrics_collected"@ {
        "📊"@
    } else if t == "metrics_failed"@ {
        "❌"@
    } else if t == "system_startup"@ {
        "🚀"@
    } else if t == "system_shutdown"@ {
        "🔴"@
    } else if t == "system_config_change"@ {
        "⚙️"@
    } else if t == "system_event"@ {
        "⚙️"@
    } else if t == "api_request"@ {
        "🌐"@
    } else if t == "api_error"@ {
        "❌"@
    } else if t == "error"@ {
        "🚨"@
    } else {
        "📝"@
    }
}

/// The icon shown beside a log event of type `t`.
pub fn event_type_icon(event_type: &str) -> (r: &'static str)
    ensures
        r@ == event_icon_view(event_type@),
{
    if same_text(event_type, "player_join") {
        "👋"
    } else if same_text(event_type, "player_leave") {
        "👋"
    } else if same_text(event_type, "player_reconnect") {
        "🔄"
    } else if same_text(event_type, "server_connect") {
        "🔗"
    } else if same_text(event_type, "server_disconnect") {
        "�"
    } else if same_text(event_type, "server_offline") {
        "❌"
    } else if same_text(event_type, "server_online") {
        "✅"
    } else if same_text(event_type, "server_high_latency") {
        "⚠️"
    } else if same_text(event_type, "server_status_check") {
        "🔍"
    } else if same_text(event_type, "queue_join") {
        "⏳"
    } else if same_text(event_type, "queue_leave") {
        "⏳"
    } else if same_text(event_type, "queue_remove_admin") {
        "👑"
    } else if same_text(event_type, "queue_cleanup") {
        "🧹"
    } else if same_text(event_type, "queue_position_update") {
        "📊"
    } else if same_text(event_type, "transfer_initiated") {
        "🚀"
    } else if same_text(event_type, "transfer_completed") {
        "✅"
    } else if same_text(event_type, "transfer_failed") {
        "❌"
    } else if same_text(event_type, "broadcast_all") {
        "📢"
    } else if same_text(event_type, "broadcast_server") {
        "📢"
    } else if same_text(event_type, "broadcast_failed") {
        "❌"
    } else if same_text(event_type, "metrics_collected") {
        "📊"
    } else if same_text(event_type, "metrics_failed") {
        "❌"
    } else if same_text(event_type, "system_startup") {
        "🚀"
    } else if same_text(event_type, "system_shutdown") {
        "🔴"
    } else if same_text(event_type, "system_config_change") {
        "⚙️"
    } else if same_text(event_type, "system_event") {
        "⚙️"
    } else if same_text(event_type, "api_request") {
        "🌐"
    } else if same_text(event_type, "api_error") {
        "❌"
    } else if same_text(event_type, "error") {
        "🚨"
    } else {
        "📝"
    }
}

/// The filter value that lets every event through.
pub open spec fn any_view() -> Seq<char> {
    "all"@
}

/// Whether the log page shows `e` under the type filter `type_filter` and the
/// server filter `server_filter`; `all` lets everything through, and an event
/// with no server passes only that.
pub open spec fn shown(e: LogEvent, type_filter: Seq<char>, server_filter: Seq<char>) -> bool {
    &&& (type_filter == any_view() || e.event_type@ == type_filter)
    &&& (server_filter == any_view() || (e.server_name matches Some(n) && n@ == server_filter))
}

/// The positions, in order, of the events in `evs` that the filters let through.
pub open spec fn shown_positions(evs: Seq<LogEvent>, type_filter: Seq<char>, server_filter: Seq<char>) -> Seq<int>
    decreases evs.len(),
{
    if evs.len() == 0 {
        Seq::empty()
    } else {
        let rest = shown_positions(evs.drop_last(), type_filter, server_filter);
        if shown(evs.last(), type_filter, server_filter) {
            rest.push(evs.len() - 1)
        } else {
            rest
        }
    }
}

/// Whether the log page shows `e` under the two filters.
pub fn is_shown(e: &LogEvent, type_filter: &str, server_filter: &str) -> (r: bool)
    ensures
        r == shown(*e, type_filter@, server_filter@),
{
    let any_type = same_text(type_filter, "all");
    let type_match = any_type || same_text(e.event_type.as_str(), type_filter);
    let any_server = same_text(server_filter, "all");
    let server_match = any_server || match &e.server_name {
        Some(n) => same_text(n.as_str(), server_filter),
        None => false,
    };
    type_match && server_match
}

/// The positions, in order, of the events that the log page shows under the two filters.
pub fn shown_events(events: &Vec<LogEvent>, type_filter: &str, server_filter: &str) -> (r: Vec<usize>)
    ensures
        r@.map_values(|i: usize| i as int) == shown_positions(events@, type_filter@, server_filter@),
{
    let mut r: Vec<usize> = Vec::new();
    let mut i: usize = 0;
    while i < events.len()
        invariant
            i <= events@.len(),
            r@.map_values(|k: usize| k as int) == shown_positions(
                events@.subrange(0, i as int),
                type_filter@,
                server_filter@,
            ),
        decreases events@.len() - i,
    {
        let ghost before = r@;
        assert(events@.subrange(0, i + 1).drop_last() == events@.subrange(0, i as int));
        if is_shown(&events[i], type_filter, server_filter) {
            r.push(i);
            assert(r@.map_values(|k: usize| k as int) =~= before.map_values(|k: usize| k as int).push(
                i as int,
            ));
        }
        i = i + 1;
    }
    assert(events@.subrange(0, events@.len() as int) == events@);
    r
}

/// Whether some event in `evs` names the server `s`.
pub open spec fn names_server(evs: Seq<LogEvent>, s: Seq<char>) -> bool {
    exists|j: int| 0 <= j < evs.len() && (#[trigger] evs[j].server_name matches Some(n) && n@ == s)
}

/// Whether some event in `evs` has the type `s`.
pub open spec fn has_type(evs: Seq<LogEvent>, s: Seq<char>) -> bool {
    exists|j: int| 0 <= j < evs.len() && (#[trigger] evs[j]).event_type@ == s
}

/// The servers that the events name, each once, in increasing order.
pub fn server_names(events: &Vec<LogEvent>) -> (r: Vec<String>)
    ensures
        strictly_sorted(texts(r@)),
        forall|s: Seq<char>| texts(r@).contains(s) <==> names_server(events@, s),
{
    let mut r: Vec<String> = Vec::new();
    let mut i: usize = 0;
    while i < events.len()
        invariant
            i <= events@.len(),
            strictly_sorted(texts(r@)),
            forall|s: Seq<char>|
                texts(r@).contains(s) <==> names_server(events@.subrange(0, i as int), s),
        decreases events@.len() - i,
    {
        let ghost prefix = events@.subrange(0, i as int);
        let ghost next = events@.subrange(0, i + 1);
        assert(forall|j: int| 0 <= j < i ==> next[j] == prefix[j]);
        let ghost old_r = r@;
        match &events[i] {
            LogEvent { server_name: Some(n), .. } => {
                insert_sorted(&mut r, n.clone());
            },
            _ => {},
        }
        assert forall|s: Seq<char>| texts(r@).contains(s) <==> names_server(next, s) by {
            assert(texts(old_r).contains(s) <==> names_server(prefix, s));
            assert(next[i as int] == events@[i as int]);
            if events@[i as int].server_name matches Some(n) && n@ == s {
                assert(names_server(next, s));
                assert(texts(r@).contains(s));
            }
            if names_server(next, s) {
                let j = choose|j: int| 0 <= j < next.len() && (#[trigger] next[j].server_name matches Some(n) && n@ == s);
                if j < i {
                    assert(prefix[j] == next[j]);
                }
            }
            if names_server(prefix, s) {
                let j = choose|j: int| 0 <= j < prefix.len() && (#[trigger] prefix[j].server_name matches Some(n) && n@ == s);
                assert(next[j] == prefix[j]);
            }
        }
        i = i + 1;
    }
    assert(events@.subrange(0, events@.len() as int) == events@);
    r
}

/// The event types that occur, each once, in increasing order.
pub fn event_types(events: &Vec<LogEvent>) -> (r: Vec<String>)
    ensures
        strictly_sorted(texts(r@)),
        forall|s: Seq<char>| texts(r@).contains(s) <==> has_type(events@, s),
{
    let mut r: Vec<String> = Vec::new();
    let mut i: usize = 0;
    while i < events.len()
        invariant
            i <= events@.len(),
            strictly_sorted(texts(r@)),
            forall|s: Seq<char>| texts(r@).contains(s) <==> has_type(events@.subrange(0, i as int), s),
        decreases events@.len() - i,
    {
        let ghost prefix = events@.subrange(0, i as int);
        let ghost next = events@.subrange(0, i + 1);
        assert(forall|j: int| 0 <= j < i ==> next[j] == prefix[j]);
        let ghost old_r = r@;
        insert_sorted(&mut r, events[i].event_type.clone());
        assert forall|s: Seq<char>| texts(r@).contains(s) <==> has_type(next, s) by {
            assert(texts(old_r).contains(s) <==> has_type(prefix, s));
            assert(next[i as int] == events@[i as int]);
            if events@[i as int].event_type@ == s {
                assert(has_type(next, s));
            }
            if has_type(next, s) {
                let j = choose|j: int| 0 <= j < next.len() && (#[trigger] next[j]).event_type@ == s;
                if j < i {
                    assert(prefix[j] == next[j]);
                }
            }
            if has_type(prefix, s) {
                let j = choose|j: int| 0 <= j < prefix.len() && (#[trigger] prefix[j]).event_type@ == s;
                assert(next[j] == prefix[j]);
            }
        }
        i = i + 1;
    }
    assert(events@.subrange(0, events@.len() as int) == events@);
    r
}

} // verus!
