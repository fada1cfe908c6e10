//! The form that adds a server, and the JSON bodies of the control requests.
use crate::notice::{Notice, NoticeKind};
use crate::text::{decimal, decimal_text};
use crate::validate::{is_address, is_valid_ip_or_hostname, parse_unsigned, trim, trimmed, unsigned_value};
use vstd::prelude::*;

verus! {

/// The player limit given to every server added from the form.
pub const DEFAULT_MAX_PLAYERS: u32 = 500;

/// A server as the form sends it to be added.
#[derive(Clone, Debug, PartialEq)]
pub struct NewServer {
    pub name: String,
    pub ip: String,
    pub port: u16,
    pub max_players: u32,
}

impl NewServer {
    /// `{"name":"..","ip":"..","port":..,"maxPlayers":..}`, the fields written as they are.
    pub open spec fn json_view(&self) -> Seq<char> {
        "{\"name\":\""@ + self.name@ + "\",\"ip\":\""@ + self.ip@ + "\",\"port\":"@
            + decimal(self.port as nat) + ",\"maxPlayers\":"@ + decimal(self.max_players as nat)
            + "}"@
    }

    /// The body of the request that adds this server.
    pub fn to_json(&self) -> (r: String)
        ensures
            r@ == self.json_view(),
    {
        let mut r = "{\"name\":\"".to_owned();
        r.append(self.name.as_str());
        r.append("\",\"ip\":\"");
        r.append(self.ip.as_str());
        r.append("\",\"port\":");
        let port = decimal_text(self.port as u64);
        r.append(port.as_str());
        r.append(",\"maxPlayers\":");
        let max = decimal_text(self.max_players as u64);
        r.append(max.as_str());
        r.append("}");
        r
    }
}

/// `{"name":".."}`, the body of the requests that act on one server.
pub open spec fn name_body_view(name: Seq<char>) -> Seq<char> {
    "{\"name\":\""@ + name + "\"}"@
}

/// The body of the requests that enable, disable or remove the server `name`.
pub fn name_body(name: &str) -> (r: String)
    ensures
        r@ == name_body_view(name@),
{
    let mut r = "{\"name\":\"".to_owned();
    r.append(name);
    r.append("\"}");
    r
}

/// The key under which a pending enable (`enable`) or disable of `name` is tracked.
pub fn pending_key(enable: bool, name: &str) -> (r: String)
    ensures
        r@ == (if enable { "enabling_"@ } else { "disabling_"@ }) + name@,
{
    let mut r = if enable {
        "enabling_".to_owned()
    } else {
        "disabling_".to_owned()
    };
    r.append(name);
    r
}

/// The port typed into the form: a number from 1 to 65535.
pub open spec fn port_of(t: Seq<char>) -> Option<nat> {
    match unsigned_value(t, 65535) {
        Some(p) => if p > 0 {
            Some(p)
        } else {
            None
        },
        None => None,
    }
}

/// What the form's four fields, each without surrounding white space, give:
/// the server to add, or the warning for the first field that is wrong.
pub open spec fn form_view(id: Seq<char>, name: Seq<char>, ip: Seq<char>, port: Seq<char>) -> Result<
    (Seq<char>, Seq<char>, nat),
    Seq<char>,
> {
    if id.len() == 0 {
        Err("Server ID is required. Please enter a server ID."@)
    } else if name.len() == 0 {
        Err("Server name is required. Please enter a server name."@)
    } else if ip.len() == 0 {
        Err("Server IP address is required. Please enter a valid IP address."@)
    } else if port.len() == 0 {
        Err("Server port is required. Please enter a port number."@)
    } else if port_of(port) is None {
        Err("Invalid port number. Please enter a valid port between 1 and 65535."@)
    } else if !is_address(ip) {
        Err(
            "Invalid IP address or hostname format. Please enter a valid IP address or hostname."@,
        )
    } else {
        Ok((id, ip, port_of(port)->Some_0))
    }
}

fn warning(message: &str) -> (r: Notice)
    ensures
        r.message@ == message@,
        r.kind == NoticeKind::Warning,
{
    Notice { message: message.to_owned(), kind: NoticeKind::Warning }
}

/// Checks the add-server form. The server's id becomes the name it is added
/// under; the display name is only required to be present.
pub fn check_new_server(id: &str, name: &str, ip: &str, port: &str) -> (r: Result<NewServer, Notice>)
    ensures
        form_view(trimmed(id@), trimmed(name@), trimmed(ip@), trimmed(port@)) matches Ok(
            (n, a, p),
        ) ==> (r matches Ok(s) && s.name@ == n && s.ip@ == a && s.port == p
            && s.max_players == DEFAULT_MAX_PLAYERS),
        form_view(trimmed(id@), trimmed(name@), trimmed(ip@), trimmed(port@)) matches Err(m) ==> (
        r matches Err(w) && w.message@ == m && w.kind == NoticeKind::Warning),
{
    let id = trim(id);
    let name = trim(name);
    let ip = trim(ip);
    let port = trim(port);
    if id.is_empty() {
        return Err(warning("Server ID is required. Please enter a server ID."));
    }
    if name.is_empty() {
        return Err(warning("Server name is required. Please enter a server name."));
    }
    if ip.is_empty() {
        return Err(warning("Server IP address is required. Please enter a valid IP address."));
    }
    if port.is_empty() {
        return Err(warning("Server port is required. Please enter a port number."));
    }
    let number = match parse_unsigned(port, 65535) {
        Some(p) if p > 0 => p as u16,
        _ => {
            return Err(
                warning("Invalid port number. Please enter a valid port between 1 and 65535."),
            );
        },
    };
    if !is_valid_ip_or_hostname(ip) {
        return Err(
            warning(
                "Invalid IP address or hostname format. Please enter a valid IP address or hostname.",
            ),
        );
    }
    Ok(
        NewServer {
            name: id.to_owned(),
            ip: ip.to_owned(),
            port: number,
            max_players: DEFAULT_MAX_PLAYERS,
        },
    )
}

} // verus!
