//! The short texts and style classes that the pages derive from a server's
//! fields, and the addresses of the per-server endpoints.
use crate::text::{find_from, find_text, same_text, signed_decimal, signed_text};
use vstd::prelude::*;

verus! {

/// The player limit as shown: `-1` means no limit.
pub open spec fn player_limit_view(max_players: int) -> Seq<char> {
    if max_players == -1 {
        "∞"@
    } else {
        signed_decimal(max_players)
    }
}

/// The player limit as shown: `-1` means no limit.
pub fn player_limit_text(max_players: i32) -> (r: String)
    ensures
        r@ == player_limit_view(max_players as int),
{
    if max_players == -1 {
        "∞".to_owned()
    } else {
        signed_text(max_players as i64)
    }
}

/// The latency as shown: `-1` means it is not known.
pub open spec fn latency_view(latency: int) -> Seq<char> {
    if latency == -1 {
        "N/A"@
    } else {
        signed_decimal(latency) + " ms"@
    }
}

/// The latency as shown: `-1` means it is not known.
pub fn latency_text(latency: i32) -> (r: String)
    ensures
        r@ == latency_view(latency as int),
{
    if latency == -1 {
        "N/A".to_owned()
    } else {
        let mut r = signed_text(latency as i64);
        r.append(" ms");
        r
    }
}

/// How a latency is rated.
#[derive(Clone, Copy, Debug, PartialEq, Eq, Structural)]
pub enum LatencyGrade {
    /// Below 50 ms.
    Good,
    /// From 50 ms to below 100 ms.
    Okay,
    /// 100 ms or more.
    Poor,
}

impl LatencyGrade {
    /// The grade's style class.
    pub fn class_name(&self) -> (r: &'static str)
        ensures
            r@ == match self {
                LatencyGrade::Good => "good"@,
                LatencyGrade::Okay => "okay"@,
                LatencyGrade::Poor => "poor"@,
            },
    {
        match self {
            LatencyGrade::Good => "good",
            LatencyGrade::Okay => "okay",
            LatencyGrade::Poor => "poor",
        }
    }

    /// The grade's wording.
    pub fn label(&self) -> (r: &'static str)
        ensures
            r@ == match self {
                LatencyGrade::Good => "Excellent"@,
                LatencyGrade::Okay => "Good"@,
                LatencyGrade::Poor => "Poor"@,
            },
    {
        match self {
            LatencyGrade::Good => "Excellent",
            LatencyGrade::Okay => "Good",
            LatencyGrade::Poor => "Poor",
        }
    }
}

/// Rates a latency in milliseconds.
pub fn latency_grade(latency: i32) -> (r: LatencyGrade)
    ensures
        latency < 50 ==> r == LatencyGrade::Good,
        50 <= latency < 100 ==> r == LatencyGrade::Okay,
        100 <= latency ==> r == LatencyGrade::Poor,
{
    if latency < 50 {
        LatencyGrade::Good
    } else if latency < 100 {
        LatencyGrade::Okay
    } else {
        LatencyGrade::Poor
    }
}

/// The style class of a server card for the status `s`.
pub open spec fn card_status_view(s: Seq<char>) -> Seq<char> {
    if s == "online"@ {
        "online"@
    } else if s == "offline"@ {
        "offline"@
    } else if s == "disabled"@ {
        "disabled"@
    } else {
        "unknown"@
    }
}

/// The style class of a server card for the status `status`.
pub fn card_status_class(status: &str) -> (r: &'static str)
    ensures
        r@ == card_status_view(status@),
{
    if same_text(status, "online") {
        "online"
    } else if same_text(status, "offline") {
        "offline"
    } else if same_text(status, "disabled") {
        "disabled"
    } else {
        "unknown"
    }
}

/// The style class of an overview row for the status `s`.
pub open spec fn row_status_view(s: Seq<char>) -> Seq<char> {
    if s == "online"@ {
        "status-online"@
    } else if s == "offline"@ {
        "status-offline"@
    } else if s == "disabled"@ {
        "status-disabled"@
    } else {
        "status-unknown"@
    }
}

/// The style class of an overview row for the status `status`.
pub fn row_status_class(status: &str) -> (r: &'static str)
    ensures
        r@ == row_status_view(status@),
{
    if same_text(status, "online") {
        "status-online"
    } else if same_text(status, "offline") {
        "status-offline"
    } else if same_text(status, "disabled") {
        "status-disabled"
    } else {
        "status-unknown"
    }
}

/// The style class for the load level `s`; none for an unknown level.
pub open spec fn load_view(s: Seq<char>) -> Seq<char> {
    if s == "low"@ {
        "load-low"@
    } else if s == "medium"@ {
        "load-medium"@
    } else if s == "high"@ {
        "load-high"@
    } else if s == "offline"@ {
        "load-offline"@
    } else {
        ""@
    }
}

/// The style class for the load level `load_status`.
pub fn load_class(load_status: &str) -> (r: &'static str)
    ensures
        r@ == load_view(load_status@),
{
    if same_text(load_status, "low") {
        "load-low"
    } else if same_text(load_status, "medium") {
        "load-medium"
    } else if same_text(load_status, "high") {
        "load-high"
    } else if same_text(load_status, "offline") {
        "load-offline"
    } else {
        ""
    }
}

/// The status an overview row has when the API leaves it out.
pub fn default_status() -> (r: String)
    ensures
        r@ == "unknown"@,
{
    "unknown".to_owned()
}

/// Whether a server counts as enabled when the API leaves it out.
pub fn default_enabled() -> (r: bool)
    ensures
        r,
{
    true
}

/// Whether a server counts as healthy when the API leaves it out.
pub fn default_healthy() -> (r: bool)
    ensures
        !r,
{
    false
}

/// The status shown in the overview: a disabled server is `Disabled`
/// whatever it reports, and `unknown` is capitalised.
pub open spec fn status_label_view(enabled: bool, status: Seq<char>) -> Seq<char> {
    if !enabled {
        "Disabled"@
    } else if status == "unknown"@ {
        "Unknown"@
    } else {
        status
    }
}

/// The status shown in the overview.
pub fn status_label(enabled: bool, status: &str) -> (r: String)
    ensures
        r@ == status_label_view(enabled, status@),
{
    if !enabled {
        "Disabled".to_owned()
    } else if same_text(status, "unknown") {
        "Unknown".to_owned()
    } else {
        status.to_owned()
    }
}

/// The text of a message of the day: what stands between the first
/// `content="` and the next `"`, or the whole message if there is no such part.
pub open spec fn motd_view(motd: Seq<char>) -> Seq<char> {
    let opening = "content=\""@;
    match find_from(motd, opening, 0) {
        Some(start) => match find_from(motd, "\""@, start + opening.len()) {
            Some(end) => motd.subrange(start + opening.len(), end),
            None => motd,
        },
        None => motd,
    }
}

/// The text of a message of the day.
pub fn motd_content(motd: &str) -> (r: String)
    ensures
        r@ == motd_view(motd@),
{
    let n = motd.unicode_len();
    let opening = "content=\"";
    proof {
        reveal_strlit("content=\"");
    }
    match find_text(motd, opening, 0) {
        Some(start) => {
            proof {
                crate::text::lemma_find_from_bounds(motd@, opening@, 0);
            }
            assert(start + 9 <= n);
            match find_text(motd, "\"", start + 9) {
                Some(end) => {
                    proof {
                        crate::text::lemma_find_from_bounds(motd@, "\""@, start + 9);
                    }
                    motd.substring_char(start + 9, end).to_owned()
                },
                None => motd.to_owned(),
            }
        },
        None => motd.to_owned(),
    }
}

/// When metrics were last received, from their timestamp: `Never` for none,
/// else the time of day that characters 11 to 18 hold.
pub open spec fn updated_view(ts: Seq<char>) -> Seq<char> {
    if ts.len() == 0 {
        "Updated: Never"@
    } else {
        "Updated: "@ + ts.subrange(11, 16) + ":"@ + ts.subrange(17, 19)
    }
}

/// When metrics were last received, from their timestamp.
pub fn updated_label(ts: &str) -> (r: String)
    requires
        ts@.len() == 0 || ts@.len() >= 19,
    ensures
        r@ == updated_view(ts@),
{
    if ts.is_empty() {
        "Updated: Never".to_owned()
    } else {
        let mut r = "Updated: ".to_owned();
        r.append(ts.substring_char(11, 16));
        r.append(":");
        r.append(ts.substring_char(17, 19));
        r
    }
}

/// The address of the endpoint that describes the server `id`.
pub fn server_url(id: &str) -> (r: String)
    ensures
        r@ == "http://localhost:8080/server/"@ + id@,
{
    let mut r = "http://localhost:8080/server/".to_owned();
    r.append(id);
    r
}

/// The address of the endpoint that reports the metrics of the server at `ip`.
pub fn metrics_url(ip: &str) -> (r: String)
    ensures
        r@ == "http://localhost:8080/metrics/"@ + ip@,
{
    let mut r = "http://localhost:8080/metrics/".to_owned();
    r.append(ip);
    r
}

/// `host:port`.
pub fn address_text(host: &str, port: i32) -> (r: String)
    ensures
        r@ == host@ + ":"@ + signed_decimal(port as int),
{
    let mut r = host.to_owned();
    r.append(":");
    let p = signed_text(port as i64);
    r.append(p.as_str());
    r
}

} // verus!
