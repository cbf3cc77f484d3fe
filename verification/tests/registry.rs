use server_tester::management::{new_server_config, apply_update, AppState};
use server_tester::state::{
    Timestamp, ApiError, CreateServerRequest, ServerMode, ServerResponse, SetModeRequest, UpdateServerRequest,
    VirtualServerConfig,
};

fn at(secs: i64, nanos: u32) -> Timestamp {
    Timestamp { secs, nanos }
}

fn create_request(name: &str, port: u16) -> CreateServerRequest {
    CreateServerRequest {
        name: name.to_string(),
        port,
        http_status_code: None,
        html_title: None,
        response_body: None,
        custom_headers: None,
        response_delay_ms: None,
    }
}

fn empty_update() -> UpdateServerRequest {
    UpdateServerRequest {
        name: None,
        http_status_code: None,
        html_title: None,
        response_body: None,
        custom_headers: None,
        response_delay_ms: None,
    }
}

/// Creates a server the way the management API does: check, then insert.
fn add(state: &mut AppState<u32>, name: &str, port: u16, handle: u32) -> VirtualServerConfig {
    let config = state.create_server(create_request(name, port)).ok().unwrap();
    let copy = config.clone();
    state.insert_server(config.id, config, Some(handle));
    copy
}

fn is_hyphenated_uuid(s: &str) -> bool {
    s.len() == 36
        && s.chars().enumerate().all(|(i, c)| {
            if i == 8 || i == 13 || i == 18 || i == 23 {
                c == '-'
            } else {
                c.is_ascii_hexdigit() && !c.is_ascii_uppercase()
            }
        })
}

#[test]
fn new_state_is_empty() {
    let state: AppState<u32> = AppState::new("servers.json".to_string(), 3000);
    assert!(state.list_servers().is_empty());
    assert_eq!(state.data_file, "servers.json");
}

#[test]
fn create_rejects_low_port() {
    let state: AppState<u32> = AppState::new("d.json".to_string(), 3000);
    let e = state.create_server(create_request("a", 1023)).err().unwrap();
    assert!(matches!(e, ApiError::PortTooLow));
    assert_eq!(e.status_code(), 400);
    assert_eq!(e.message(), "Port must be >= 1024");
    assert!(state.create_server(create_request("a", 1024)).is_ok());
}

#[test]
fn create_rejects_invalid_status_code() {
    let state: AppState<u32> = AppState::new("d.json".to_string(), 3000);
    let mut req = create_request("a", 8080);
    req.http_status_code = Some(42);
    let e = state.create_server(req).err().unwrap();
    assert!(matches!(e, ApiError::InvalidStatusCode(42)));
    assert_eq!(e.status_code(), 400);
    assert_eq!(e.message(), "Invalid HTTP status code: 42");
    let mut req = create_request("a", 8080);
    req.http_status_code = Some(1000);
    assert!(matches!(state.create_server(req), Err(ApiError::InvalidStatusCode(1000))));
    let mut req = create_request("a", 8080);
    req.http_status_code = Some(999);
    assert_eq!(state.create_server(req).ok().unwrap().http_status_code, 999);
}

#[test]
fn low_port_is_reported_before_bad_status() {
    let state: AppState<u32> = AppState::new("d.json".to_string(), 3000);
    let mut req = create_request("a", 80);
    req.http_status_code = Some(7);
    assert!(matches!(state.create_server(req), Err(ApiError::PortTooLow)));
}

#[test]
fn create_rejects_port_in_use() {
    let mut state: AppState<u32> = AppState::new("d.json".to_string(), 3000);
    add(&mut state, "alpha", 8080, 1);
    let e = state.create_server(create_request("beta", 8080)).err().unwrap();
    match &e {
        ApiError::PortInUse { port, server_name } => {
            assert_eq!(*port, 8080);
            assert_eq!(server_name, "alpha");
        }
        _ => panic!("expected a port conflict"),
    }
    assert_eq!(e.status_code(), 409);
    assert_eq!(e.message(), "Port 8080 is already in use by server 'alpha'");
    assert_eq!(state.list_servers().len(), 1);
}

#[test]
fn create_fills_defaults() {
    let state: AppState<u32> = AppState::new("d.json".to_string(), 3000);
    let c = state.create_server(create_request("alpha", 8080)).ok().unwrap();
    assert_eq!(c.name, "alpha");
    assert_eq!(c.port, 8080);
    assert_eq!(c.status, ServerMode::Up);
    assert_eq!(c.http_status_code, 200);
    assert!(c.response_body.is_none());
    assert!(c.custom_headers.is_empty());
    assert_eq!(c.response_delay_ms, 0);
    assert_eq!(c.created_at, c.updated_at);
    assert!(c.html_title.starts_with("Server "));
    let text = &c.html_title["Server ".len()..];
    assert!(is_hyphenated_uuid(text));
    assert_eq!(text, uuid::Uuid::from_u128(c.id).to_string());
    assert_eq!(uuid::Uuid::from_u128(c.id).get_version_num(), 4);
}

#[test]
fn create_keeps_given_fields_and_caps_delay() {
    let state: AppState<u32> = AppState::new("d.json".to_string(), 3000);
    let req = CreateServerRequest {
        name: "alpha".to_string(),
        port: 9000,
        http_status_code: Some(503),
        html_title: Some("Alpha".to_string()),
        response_body: Some("hello".to_string()),
        custom_headers: Some(vec![("X-A".to_string(), "1".to_string())]),
        response_delay_ms: Some(999_999),
    };
    let c = state.create_server(req).ok().unwrap();
    assert_eq!(c.http_status_code, 503);
    assert_eq!(c.html_title, "Alpha");
    assert_eq!(c.response_body.as_deref(), Some("hello"));
    assert_eq!(c.custom_headers, vec![("X-A".to_string(), "1".to_string())]);
    assert_eq!(c.response_delay_ms, 300_000);
    let mut req = create_request("b", 9001);
    req.response_delay_ms = Some(300_000);
    assert_eq!(state.create_server(req).ok().unwrap().response_delay_ms, 300_000);
    let mut req = create_request("b", 9001);
    req.response_delay_ms = Some(1500);
    assert_eq!(state.create_server(req).ok().unwrap().response_delay_ms, 1500);
}

#[test]
fn new_server_config_uses_given_id_and_time() {
    let c = new_server_config(create_request("alpha", 8080), 0x0123456789abcdef0123456789abcdef, at(42, 123_456_789));
    assert_eq!(c.id, 0x0123456789abcdef0123456789abcdef);
    assert_eq!(c.html_title, "Server 01234567-89ab-cdef-0123-456789abcdef");
    assert_eq!(c.created_at, at(42, 123_456_789));
    assert_eq!(c.updated_at, at(42, 123_456_789));
    assert_eq!(c.status, ServerMode::Up);
}

#[test]
fn created_ids_differ() {
    let state: AppState<u32> = AppState::new("d.json".to_string(), 3000);
    let a = state.create_server(create_request("a", 8080)).ok().unwrap();
    let b = state.create_server(create_request("b", 8081)).ok().unwrap();
    assert_ne!(a.id, b.id);
}

#[test]
fn get_after_insert_gives_the_config() {
    let mut state: AppState<u32> = AppState::new("d.json".to_string(), 3000);
    let c = add(&mut state, "alpha", 8080, 7);
    let r = state.get_server(c.id).ok().unwrap();
    assert_eq!(r.id, c.id);
    assert_eq!(r.name, "alpha");
    assert_eq!(r.port, 8080);
    assert_eq!(r.html_title, c.html_title);
    assert_eq!(r.created_at, c.created_at);
    assert_eq!(state.servers.get(&c.id).unwrap().handle, Some(7));
}

#[test]
fn get_missing_is_not_found() {
    let state: AppState<u32> = AppState::new("d.json".to_string(), 3000);
    let e = state.get_server(5).err().unwrap();
    assert!(matches!(e, ApiError::NotFound));
    assert_eq!(e.status_code(), 404);
    assert_eq!(e.message(), "Server not found");
}

#[test]
fn list_gives_every_server_once() {
    let mut state: AppState<u32> = AppState::new("d.json".to_string(), 3000);
    let a = add(&mut state, "a", 8080, 1);
    let b = add(&mut state, "b", 8081, 2);
    let c = add(&mut state, "c", 8082, 3);
    let list = state.list_servers();
    assert_eq!(list.len(), 3);
    let mut ids: Vec<u128> = list.iter().map(|r| r.id).collect();
    ids.sort();
    let mut expected = vec![a.id, b.id, c.id];
    expected.sort();
    assert_eq!(ids, expected);
    for r in &list {
        assert_eq!(state.get_server(r.id).ok().unwrap().port, r.port);
    }
}

#[test]
fn update_rejects_invalid_status_and_changes_nothing() {
    let mut state: AppState<u32> = AppState::new("d.json".to_string(), 3000);
    let c = add(&mut state, "alpha", 8080, 1);
    let mut req = empty_update();
    req.http_status_code = Some(99);
    req.name = Some("renamed".to_string());
    let e = state.update_server(c.id, req).err().unwrap();
    assert!(matches!(e, ApiError::InvalidStatusCode(99)));
    assert_eq!(state.get_server(c.id).ok().unwrap().name, "alpha");
    assert_eq!(state.servers.get(&c.id).unwrap().handle, Some(1));
}

#[test]
fn update_missing_is_not_found() {
    let mut state: AppState<u32> = AppState::new("d.json".to_string(), 3000);
    assert!(matches!(state.update_server(3, empty_update()), Err(ApiError::NotFound)));
    let mut req = empty_update();
    req.http_status_code = Some(5);
    assert!(matches!(state.update_server(3, req), Err(ApiError::InvalidStatusCode(5))));
}

#[test]
fn update_replaces_given_fields_only() {
    let mut state: AppState<u32> = AppState::new("d.json".to_string(), 3000);
    let c = add(&mut state, "alpha", 8080, 1);
    let req = UpdateServerRequest {
        name: Some("beta".to_string()),
        http_status_code: Some(500),
        html_title: None,
        response_body: Some("down".to_string()),
        custom_headers: Some(vec![("X-B".to_string(), "2".to_string())]),
        response_delay_ms: Some(400_000),
    };
    let old_handle = state.update_server(c.id, req).ok().unwrap();
    assert_eq!(old_handle, Some(1));
    let entry = state.servers.get(&c.id).unwrap();
    assert_eq!(entry.handle, None);
    let u = &entry.config;
    assert_eq!(u.name, "beta");
    assert_eq!(u.http_status_code, 500);
    assert_eq!(u.html_title, c.html_title);
    assert_eq!(u.response_body.as_deref(), Some("down"));
    assert_eq!(u.custom_headers, vec![("X-B".to_string(), "2".to_string())]);
    assert_eq!(u.response_delay_ms, 300_000);
    assert_eq!(u.port, 8080);
    assert_eq!(u.id, c.id);
    assert_eq!(u.status, ServerMode::Up);
    assert_eq!(u.created_at, c.created_at);
    assert!((u.updated_at.secs, u.updated_at.nanos) >= (c.updated_at.secs, c.updated_at.nanos));
}

#[test]
fn apply_update_with_no_fields_changes_only_time() {
    let c = new_server_config(create_request("alpha", 8080), 9, at(10, 5));
    let mut with_body = c.clone();
    with_body.response_body = Some("kept".to_string());
    let u = apply_update(with_body, empty_update(), at(20, 7));
    assert_eq!(u.name, "alpha");
    assert_eq!(u.response_body.as_deref(), Some("kept"));
    assert_eq!(u.http_status_code, 200);
    assert_eq!(u.created_at, at(10, 5));
    assert_eq!(u.updated_at, at(20, 7));
}

#[test]
fn attach_handle_sets_the_new_listener() {
    let mut state: AppState<u32> = AppState::new("d.json".to_string(), 3000);
    let c = add(&mut state, "alpha", 8080, 1);
    state.update_server(c.id, empty_update()).ok().unwrap();
    let r = state.attach_handle(c.id, Some(2)).unwrap();
    assert_eq!(r.id, c.id);
    assert_eq!(state.servers.get(&c.id).unwrap().handle, Some(2));
    assert!(state.attach_handle(77, Some(3)).is_none());
    assert_eq!(state.list_servers().len(), 1);
}

#[test]
fn delete_twice_is_not_found_the_second_time() {
    let mut state: AppState<u32> = AppState::new("d.json".to_string(), 3000);
    let a = add(&mut state, "a", 8080, 1);
    let b = add(&mut state, "b", 8081, 2);
    assert_eq!(state.delete_server(a.id).ok().unwrap(), Some(1));
    assert!(matches!(state.delete_server(a.id), Err(ApiError::NotFound)));
    assert!(matches!(state.get_server(a.id), Err(ApiError::NotFound)));
    assert_eq!(state.get_server(b.id).ok().unwrap().name, "b");
    assert_eq!(state.list_servers().len(), 1);
}

#[test]
fn deleted_port_can_be_reused() {
    let mut state: AppState<u32> = AppState::new("d.json".to_string(), 3000);
    let a = add(&mut state, "a", 8080, 1);
    assert!(state.create_server(create_request("b", 8080)).is_err());
    state.delete_server(a.id).ok().unwrap();
    assert!(state.create_server(create_request("b", 8080)).is_ok());
}

#[test]
fn mode_changes() {
    let mut state: AppState<u32> = AppState::new("d.json".to_string(), 3000);
    let c = add(&mut state, "alpha", 8080, 1);
    assert_eq!(state.set_down(c.id).ok().unwrap(), Some(1));
    let r = state.get_server(c.id).ok().unwrap();
    assert_eq!(r.status, ServerMode::DownConnectionRefused);
    assert_eq!(r.name, "alpha");
    assert_eq!(r.port, 8080);
    assert_eq!(state.servers.get(&c.id).unwrap().handle, None);
    state.set_mode(c.id, SetModeRequest { mode: ServerMode::Down503 }).ok().unwrap();
    assert_eq!(state.get_server(c.id).ok().unwrap().status, ServerMode::Down503);
    state.change_mode(c.id, ServerMode::DownTimeout).ok().unwrap();
    assert_eq!(state.get_server(c.id).ok().unwrap().status, ServerMode::DownTimeout);
    state.set_up(c.id).ok().unwrap();
    assert_eq!(state.get_server(c.id).ok().unwrap().status, ServerMode::Up);
    assert!(matches!(state.set_up(12345), Err(ApiError::NotFound)));
}

#[test]
fn persisted_configs_are_the_state() {
    let mut state: AppState<u32> = AppState::new("d.json".to_string(), 3000);
    let a = add(&mut state, "a", 8080, 1);
    let b = add(&mut state, "b", 8081, 2);
    let saved = state.persisted_configs();
    assert_eq!(saved.len(), 2);
    assert_eq!(saved.get(&a.id).unwrap().name, "a");
    assert_eq!(saved.get(&b.id).unwrap().port, 8081);
    assert_eq!(saved.get(&b.id).unwrap().html_title, b.html_title);
}

#[test]
fn ports_stay_distinct_over_operations() {
    let mut state: AppState<u32> = AppState::new("d.json".to_string(), 3000);
    let a = add(&mut state, "a", 8080, 1);
    add(&mut state, "b", 8081, 2);
    state.update_server(a.id, empty_update()).ok().unwrap();
    state.set_down(a.id).ok().unwrap();
    assert!(state.create_server(create_request("c", 8081)).is_err());
    let mut ports: Vec<u16> = state.list_servers().iter().map(|r| r.port).collect();
    ports.sort();
    ports.dedup();
    assert_eq!(ports.len(), 2);
}

#[test]
fn response_copies_every_field() {
    let c = VirtualServerConfig {
        id: 11,
        name: "n".to_string(),
        port: 2000,
        status: ServerMode::DownTimeout,
        http_status_code: 204,
        html_title: "t".to_string(),
        response_body: Some("b".to_string()),
        custom_headers: vec![("K".to_string(), "V".to_string())],
        response_delay_ms: 5,
        created_at: at(1, 999_999_999),
        updated_at: at(2, 1),
    };
    let r = ServerResponse::from(&c);
    assert_eq!(r.id, 11);
    assert_eq!(r.name, "n");
    assert_eq!(r.port, 2000);
    assert_eq!(r.status, ServerMode::DownTimeout);
    assert_eq!(r.http_status_code, 204);
    assert_eq!(r.html_title, "t");
    assert_eq!(r.response_body.as_deref(), Some("b"));
    assert_eq!(r.custom_headers, vec![("K".to_string(), "V".to_string())]);
    assert_eq!(r.response_delay_ms, 5);
    assert_eq!(r.created_at, at(1, 999_999_999));
    assert_eq!(r.updated_at, at(2, 1));
    let d = c.clone();
    assert_eq!(d.custom_headers, c.custom_headers);
    assert_eq!(d.response_body, c.response_body);
}

#[test]
fn spawn_failure_error_passes_its_text() {
    let e = ApiError::SpawnFailed("Failed to bind port 8080: in use".to_string());
    assert_eq!(e.status_code(), 500);
    assert_eq!(e.message(), "Failed to bind port 8080: in use");
}

#[test]
fn port_user_names_the_server() {
    let mut state: AppState<u32> = AppState::new("d.json".to_string(), 3000);
    add(&mut state, "alpha", 8080, 1);
    assert_eq!(state.port_user(8080).as_deref(), Some("alpha"));
    assert!(state.port_user(8081).is_none());
}

#[test]
fn switch_mode_changes_only_mode_and_time() {
    let c = new_server_config(create_request("alpha", 8080), 9, at(10, 5));
    let s = server_tester::management::switch_mode(c, ServerMode::Down503, at(30, 3));
    assert_eq!(s.status, ServerMode::Down503);
    assert_eq!(s.updated_at, at(30, 3));
    assert_eq!(s.created_at, at(10, 5));
    assert_eq!(s.name, "alpha");
    assert_eq!(s.port, 8080);
    assert_eq!(s.id, 9);
}

#[test]
fn creation_time_is_a_clock_reading() {
    let state: AppState<u32> = AppState::new("d.json".to_string(), 3000);
    let c = state.create_server(create_request("alpha", 8080)).ok().unwrap();
    assert!(c.created_at.secs > 1_600_000_000);
    assert!(c.created_at.nanos < 1_000_000_000);
}

#[test]
fn request_headers_stay_distinct() {
    let mut req = create_request("alpha", 8080);
    req.custom_headers = Some(vec![
        ("X-A".to_string(), "1".to_string()),
        ("X-B".to_string(), "2".to_string()),
    ]);
    let c = new_server_config(req, 1, at(0, 0));
    let mut names: Vec<&String> = c.custom_headers.iter().map(|p| &p.0).collect();
    names.sort();
    names.dedup();
    assert_eq!(names.len(), 2);
}

#[test]
fn create_refuses_the_management_port() {
    let state: AppState<u32> = AppState::new("d.json".to_string(), 3000);
    assert_eq!(state.management_port, 3000);
    let e = state.create_server(create_request("alpha", 3000)).err().unwrap();
    assert!(matches!(e, ApiError::ManagementPortInUse { port: 3000 }));
    assert_eq!(e.status_code(), 409);
    assert_eq!(e.message(), "Port 3000 is already in use by the management API");
    assert!(state.list_servers().is_empty());
    let other: AppState<u32> = AppState::new("d.json".to_string(), 4000);
    assert!(other.create_server(create_request("alpha", 3000)).is_ok());
}

#[test]
fn management_port_check_comes_after_validation() {
    let state: AppState<u32> = AppState::new("d.json".to_string(), 3000);
    let mut req = create_request("alpha", 3000);
    req.http_status_code = Some(42);
    assert!(matches!(state.create_server(req), Err(ApiError::InvalidStatusCode(42))));
    let low: AppState<u32> = AppState::new("d.json".to_string(), 80);
    assert!(matches!(low.create_server(create_request("alpha", 80)), Err(ApiError::PortTooLow)));
}
