use mc_dashboard::form::{check_new_server, name_body, pending_key, NewServer, DEFAULT_MAX_PLAYERS};
use mc_dashboard::notice::NoticeKind;
use mc_dashboard::validate::{
    is_valid_hostname, is_valid_ip_or_hostname, is_valid_ipv4, parse_unsigned,
};

#[test]
fn ipv4_accepts_four_bytes() {
    assert!(is_valid_ipv4("192.168.1.104"));
    assert!(is_valid_ipv4("0.0.0.0"));
    assert!(is_valid_ipv4("255.255.255.255"));
    assert!(is_valid_ipv4("+1.02.003.4"));
}

#[test]
fn ipv4_rejects_other_shapes() {
    assert!(!is_valid_ipv4("256.1.1.1"));
    assert!(!is_valid_ipv4("1.2.3"));
    assert!(!is_valid_ipv4("1.2.3.4.5"));
    assert!(!is_valid_ipv4("1..3.4"));
    assert!(!is_valid_ipv4("1.2.3.-4"));
    assert!(!is_valid_ipv4("a.b.c.d"));
    assert!(!is_valid_ipv4(""));
    assert!(!is_valid_ipv4("1.2.3.4 "));
}

#[test]
fn unsigned_parse_matches_std() {
    for t in ["0", "7", "255", "256", "+12", "+", "-1", "", "00042", "1a", "65535", "65536", "++1"] {
        assert_eq!(parse_unsigned(t, 255), t.parse::<u8>().ok().map(|v| v as u64), "{}", t);
        assert_eq!(parse_unsigned(t, 65535), t.parse::<u16>().ok().map(|v| v as u64), "{}", t);
    }
    for t in ["18446744073709551615", "18446744073709551616", "99999999999999999999", "+0"] {
        assert_eq!(parse_unsigned(t, u64::MAX), t.parse::<u64>().ok(), "{}", t);
    }
}

#[test]
fn hostname_rules() {
    assert!(is_valid_hostname("minecraft.example.com"));
    assert!(is_valid_hostname("survival-2"));
    assert!(is_valid_hostname("éclair.fr"));
    assert!(!is_valid_hostname(""));
    assert!(!is_valid_hostname(".example.com"));
    assert!(!is_valid_hostname("example.com."));
    assert!(!is_valid_hostname("-example"));
    assert!(!is_valid_hostname("example-"));
    assert!(!is_valid_hostname("under_score"));
    assert!(!is_valid_hostname("white space"));
    assert!(is_valid_hostname(&"a".repeat(253)));
    assert!(!is_valid_hostname(&"a".repeat(254)));
    // 127 two-byte characters are 254 bytes.
    assert!(!is_valid_hostname(&"é".repeat(127)));
}

#[test]
fn address_is_ip_or_hostname() {
    assert!(is_valid_ip_or_hostname("10.0.0.1"));
    assert!(is_valid_ip_or_hostname("mc.example.org"));
    assert!(is_valid_ip_or_hostname("300.1.1.1"));
    assert!(!is_valid_ip_or_hostname(""));
    assert!(!is_valid_ip_or_hostname("bad host"));
}

#[test]
fn form_accepts_complete_input() {
    let r = check_new_server("  survival-2 ", " Survival World 2 ", " 192.168.1.104\t", " 25565 ");
    let s = r.unwrap();
    assert_eq!(s.name, "survival-2");
    assert_eq!(s.ip, "192.168.1.104");
    assert_eq!(s.port, 25565);
    assert_eq!(s.max_players, DEFAULT_MAX_PLAYERS);
    assert_eq!(
        s.to_json(),
        r#"{"name":"survival-2","ip":"192.168.1.104","port":25565,"maxPlayers":500}"#
    );
}

fn warning_of(id: &str, name: &str, ip: &str, port: &str) -> String {
    let n = check_new_server(id, name, ip, port).unwrap_err();
    assert_eq!(n.kind, NoticeKind::Warning);
    n.message
}

#[test]
fn form_warns_on_first_bad_field() {
    assert_eq!(warning_of("  ", "n", "1.2.3.4", "1"), "Server ID is required. Please enter a server ID.");
    assert_eq!(warning_of("id", "", "1.2.3.4", "1"), "Server name is required. Please enter a server name.");
    assert_eq!(
        warning_of("id", "n", " ", "1"),
        "Server IP address is required. Please enter a valid IP address."
    );
    assert_eq!(warning_of("id", "n", "1.2.3.4", ""), "Server port is required. Please enter a port number.");
    for port in ["0", "65536", "abc", "-1"] {
        assert_eq!(
            warning_of("id", "n", "1.2.3.4", port),
            "Invalid port number. Please enter a valid port between 1 and 65535."
        );
    }
    assert_eq!(
        warning_of("id", "n", "bad host!", "25565"),
        "Invalid IP address or hostname format. Please enter a valid IP address or hostname."
    );
    assert_eq!(warning_of("", "", "", ""), "Server ID is required. Please enter a server ID.");
}

#[test]
fn form_port_bounds() {
    assert_eq!(check_new_server("a", "b", "host", "1").unwrap().port, 1);
    assert_eq!(check_new_server("a", "b", "host", "65535").unwrap().port, 65535);
    assert_eq!(check_new_server("a", "b", "host", "+80").unwrap().port, 80);
}

#[test]
fn request_bodies() {
    assert_eq!(name_body("lobby"), r#"{"name":"lobby"}"#);
    assert_eq!(pending_key(true, "lobby"), "enabling_lobby");
    assert_eq!(pending_key(false, "lobby"), "disabling_lobby");
    let s = NewServer { name: "x".to_string(), ip: "h".to_string(), port: 1, max_players: 0 };
    assert_eq!(s.to_json(), r#"{"name":"x","ip":"h","port":1,"maxPlayers":0}"#);
}
