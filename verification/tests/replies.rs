use server_tester::state::{ServerMode, Timestamp, VirtualServerConfig};
use server_tester::virtual_server::{down_503_handler, listener_plan, up_handler, usable_headers, ListenerPlan};

fn config_with_mode(status: ServerMode) -> VirtualServerConfig {
    VirtualServerConfig {
        id: 1,
        name: "alpha".to_string(),
        port: 8080,
        status,
        http_status_code: 200,
        html_title: "Alpha".to_string(),
        response_body: None,
        custom_headers: Vec::new(),
        response_delay_ms: 0,
        created_at: Timestamp { secs: 0, nanos: 0 },
        updated_at: Timestamp { secs: 0, nanos: 0 },
    }
}

#[test]
fn listener_follows_mode() {
    assert_eq!(listener_plan(&config_with_mode(ServerMode::Up)), ListenerPlan::HttpServer { is_503: false });
    assert_eq!(listener_plan(&config_with_mode(ServerMode::Down503)), ListenerPlan::HttpServer { is_503: true });
    assert_eq!(listener_plan(&config_with_mode(ServerMode::DownTimeout)), ListenerPlan::TimeoutServer);
    assert_eq!(listener_plan(&config_with_mode(ServerMode::DownConnectionRefused)), ListenerPlan::NoListener);
}

#[test]
fn up_reply_default_page() {
    let r = up_handler(200, "My <Server>", None, &Vec::new());
    assert_eq!(r.status, 200);
    assert_eq!(
        r.body,
        "<!DOCTYPE html>\n<html><head><title>My &lt;Server&gt;</title></head><body><h1>My &lt;Server&gt;</h1><p>Server is running. Status: 200</p></body></html>"
    );
    assert!(r.headers.is_empty());
}

#[test]
fn up_reply_uses_configured_status_and_body() {
    let r = up_handler(418, "T", Some("{\"ok\":true}".to_string()), &Vec::new());
    assert_eq!(r.status, 418);
    assert_eq!(r.body, "{\"ok\":true}");
}

#[test]
fn up_reply_falls_back_to_200_for_invalid_status() {
    let r = up_handler(42, "T", None, &Vec::new());
    assert_eq!(r.status, 200);
    assert!(r.body.contains("Status: 42"));
    let r = up_handler(1000, "T", None, &Vec::new());
    assert_eq!(r.status, 200);
    let r = up_handler(999, "T", None, &Vec::new());
    assert_eq!(r.status, 999);
    let r = up_handler(100, "T", None, &Vec::new());
    assert_eq!(r.status, 100);
}

#[test]
fn up_reply_keeps_only_valid_headers() {
    let headers = vec![
        ("X-Test".to_string(), "1".to_string()),
        ("bad name".to_string(), "v".to_string()),
        ("X-Bad-Value".to_string(), "a\nb".to_string()),
        ("".to_string(), "v".to_string()),
        ("X-Tab".to_string(), "a\tb".to_string()),
        ("X-Del".to_string(), "a\u{7f}b".to_string()),
        ("X-Accent".to_string(), "café".to_string()),
        ("Café".to_string(), "v".to_string()),
        ("x_ok~1".to_string(), "".to_string()),
    ];
    let r = up_handler(200, "T", None, &headers);
    assert_eq!(
        r.headers,
        vec![
            ("X-Test".to_string(), "1".to_string()),
            ("X-Tab".to_string(), "a\tb".to_string()),
            ("X-Accent".to_string(), "café".to_string()),
            ("x_ok~1".to_string(), "".to_string()),
        ]
    );
    assert_eq!(usable_headers(&headers), r.headers);
}

#[test]
fn down_503_reply() {
    let r = down_503_handler("Tom & Jerry");
    assert_eq!(r.status, 503);
    assert_eq!(
        r.body,
        "<!DOCTYPE html>\n<html><head><title>Tom &amp; Jerry</title></head><body><h1>503 Service Unavailable</h1><p>Tom &amp; Jerry is currently down.</p></body></html>"
    );
    assert!(r.headers.is_empty());
}
