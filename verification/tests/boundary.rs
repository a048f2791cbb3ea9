use base64::Engine;
use tunl::config::Config;
use tunl::descriptor::{descriptor, is_websocket_upgrade, link, link_text, names_websocket};
use tunl::settings::{
    flag_enabled, is_truthy_word, keep_entry, parse_proxy_list, redirect_url, separates,
};

fn shown(host: &str, display_link: bool) -> Config {
    Config {
        uuid: [
            0x0f, 0xa1, 0x22, 0x33, 0x44, 0x55, 0x46, 0x77, 0x88, 0x99, 0xaa, 0xbb, 0xcc, 0xdd,
            0xee, 0x0f,
        ],
        host: host.to_string(),
        proxy_ip: Vec::new(),
        redirect_url: "https://example.com".to_string(),
        display_link,
    }
}

#[test]
fn upgrade_header_is_read_without_case() {
    assert!(is_websocket_upgrade(&Some("websocket".to_string())));
    assert!(is_websocket_upgrade(&Some("WebSocket".to_string())));
    assert!(!is_websocket_upgrade(&Some("h2c".to_string())));
    assert!(!is_websocket_upgrade(&Some("websocket ".to_string())));
    assert!(!is_websocket_upgrade(&None));
    assert!(names_websocket(&"websocket".to_string()));
    assert!(!names_websocket(&"WebSocket".to_string()));
}

#[test]
fn flag_words() {
    for w in ["true", "TRUE", "1", "Yes", "on", "ON"] {
        assert!(flag_enabled(&Some(w.to_string())));
    }
    for w in ["", "0", "off", "no", "true ", "enabled"] {
        assert!(!flag_enabled(&Some(w.to_string())));
    }
    assert!(!flag_enabled(&None));
    assert!(is_truthy_word(&"yes".to_string()));
    assert!(!is_truthy_word(&"Yes".to_string()));
}

#[test]
fn redirect_default() {
    assert_eq!(redirect_url(None), "https://example.com");
    assert_eq!(redirect_url(Some("https://a.b/".to_string())), "https://a.b/");
}

#[test]
fn proxy_list_is_split_and_trimmed() {
    assert_eq!(
        parse_proxy_list("1.2.3.4:8080, 5.6.7.8\n\tfoo ,,bar"),
        vec!["1.2.3.4:8080", "5.6.7.8", "foo", "bar"]
    );
    assert_eq!(parse_proxy_list(""), Vec::<String>::new());
    assert_eq!(parse_proxy_list(" ,\r\n\x0c"), Vec::<String>::new());
    assert_eq!(parse_proxy_list("one"), vec!["one"]);
    assert_eq!(parse_proxy_list("a\u{a0},\u{2003}b"), vec!["a", "b"]);
    assert_eq!(parse_proxy_list("h\u{e9}te:1 x"), vec!["h\u{e9}te:1", "x"]);
}

#[test]
fn separators() {
    for b in [b',', b' ', b'\t', b'\n', b'\r', 0x0cu8] {
        assert!(separates(b));
    }
    for b in [b'a', b':', b'.', 0x0bu8, 0u8, 0xa0u8] {
        assert!(!separates(b));
    }
}

#[test]
fn empty_entries_are_dropped() {
    let mut out = vec!["a".to_string()];
    keep_entry(&mut out, String::new());
    assert_eq!(out, vec!["a"]);
    keep_entry(&mut out, "b".to_string());
    assert_eq!(out, vec!["a", "b"]);
}

#[test]
fn link_is_hidden_unless_shown() {
    assert_eq!(link(&shown("h.example", false)), None);
}

#[test]
fn link_carries_the_descriptor() {
    let text = link(&shown("h.\"example\"", true)).unwrap();
    let mut map = serde_json::Map::new();
    let pairs = [
        ("ps", "tunl"),
        ("v", "2"),
        ("add", "162.159.16.149"),
        ("port", "80"),
        ("id", "0fa12233-4455-4677-8899-aabbccddee0f"),
        ("aid", "0"),
        ("scy", "zero"),
        ("net", "ws"),
        ("type", "none"),
        ("host", "h.\"example\""),
        ("path", ""),
        ("tls", ""),
        ("sni", ""),
        ("alpn", ""),
    ];
    for (k, v) in pairs {
        map.insert(k.to_string(), serde_json::Value::String(v.to_string()));
    }
    let json = serde_json::Value::Object(map).to_string();
    let expected = format!(
        "vmess://{}",
        base64::engine::general_purpose::URL_SAFE.encode(json)
    );
    assert_eq!(text, expected);
}

#[test]
fn descriptor_text() {
    let d = descriptor(&"\"h\"".to_string(), &"\"i\"".to_string());
    assert_eq!(
        d,
        "{\"add\":\"162.159.16.149\",\"aid\":\"0\",\"alpn\":\"\",\"host\":\"h\",\"id\":\"i\",\"net\":\"ws\",\"path\":\"\",\"port\":\"80\",\"ps\":\"tunl\",\"scy\":\"zero\",\"sni\":\"\",\"tls\":\"\",\"type\":\"none\",\"v\":\"2\"}"
    );
    assert_eq!(link_text(&"QUJD".to_string()), "vmess://QUJD");
}
