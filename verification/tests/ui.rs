use rcp_client::clock::Timestamp;
use rcp_client::config::{
    is_config_valid, plan_authentication, AuthConfig, ServerConfig, DEFAULT_AUTH_METHOD, DEFAULT_SERVER_ADDRESS,
    DEFAULT_SERVER_PORT, DEFAULT_UI_THEME,
};
use rcp_client::auth::AuthMethod;
use rcp_client::protocol::Client;
use rcp_client::resources::{resource_path, ResourceManager, ResourceType};
use rcp_client::ui::event_app::{AppAction, AppEvent, DIALOG_DELAY_MS};
use rcp_client::ui::events::AppEvent as GuiEvent;
use rcp_client::ui::gui::RcpClientApp;
use rcp_client::ui::history::{add_to_connection_history, record_connection, sort_newest_first, HISTORY_LIMIT};
use rcp_client::ui::{AppState, ConnectionEntry, EventBasedApp};

fn at(secs: u64) -> Timestamp {
    Timestamp { secs, nanos: 0 }
}

fn entry(address: &str, port: &str, secs: u64) -> ConnectionEntry {
    ConnectionEntry {
        address: address.to_string(),
        port: port.to_string(),
        username: None,
        auth_method: "password".to_string(),
        last_connected: at(secs),
        successful: false,
    }
}

fn addresses(history: &[ConnectionEntry]) -> Vec<String> {
    history.iter().map(|e| e.address.clone()).collect()
}

#[test]
fn app_state_starts_disconnected() {
    let state = AppState::new();
    assert!(!state.is_connected);
    assert!(!state.connecting);
    assert_eq!(state.connection_status, "Disconnected");
    assert_eq!(state.password, "");
    assert!(!state.show_password);
    assert_eq!(state.last_validated_address, None);
    assert_eq!(state.connection_time, None);
}

#[test]
fn set_connected_stamps_and_clears_the_time() {
    let mut state = AppState::new();
    state.connecting = true;
    state.password = "pw".to_string();
    state.set_connected(true);
    assert!(state.is_connected);
    assert_eq!(state.connection_status, "Connected");
    assert!(state.connection_time.unwrap().secs > 1_600_000_000);
    assert!(state.connecting);
    assert_eq!(state.password, "pw");
    state.set_connected(false);
    assert!(!state.is_connected);
    assert_eq!(state.connection_status, "Disconnected");
    assert_eq!(state.connection_time, None);
}

#[test]
fn timestamps_compare_by_seconds_then_nanoseconds() {
    let a = Timestamp { secs: 5, nanos: 10 };
    assert!(Timestamp { secs: 6, nanos: 0 }.is_later_than(&a));
    assert!(Timestamp { secs: 5, nanos: 11 }.is_later_than(&a));
    assert!(!a.is_later_than(&a));
    assert!(!Timestamp { secs: 4, nanos: 999 }.is_later_than(&a));
    let now = Timestamp::now();
    assert!(now.nanos < 1_000_000_000);
    assert!(now.secs > 1_600_000_000);
}

#[test]
fn connection_entry_display() {
    let mut e = ConnectionEntry::new("10.0.0.1", "8717", Some("alice"), "psk");
    assert_eq!(e.address, "10.0.0.1");
    assert_eq!(e.port, "8717");
    assert_eq!(e.username.as_deref(), Some("alice"));
    assert_eq!(e.auth_method, "psk");
    assert!(!e.successful);
    assert!(e.last_connected.secs > 1_600_000_000);
    assert_eq!(e.display_string(), "alice@10.0.0.1:8717");
    e.mark_successful();
    assert!(e.successful);
    assert_eq!(e.display_string(), "alice@10.0.0.1:8717");
    let e = ConnectionEntry::new("host", "1", None, "password");
    assert_eq!(e.username, None);
    assert_eq!(e.display_string(), "host:1");
}

#[test]
fn new_server_is_added_and_history_put_in_order() {
    let mut history = vec![entry("a", "1", 10), entry("b", "1", 30), entry("c", "1", 20)];
    record_connection(&mut history, "d", "1", Some("alice"), "native", true, at(25));
    assert_eq!(addresses(&history), ["b", "d", "c", "a"]);
    let d = &history[1];
    assert_eq!(d.port, "1");
    assert_eq!(d.username.as_deref(), Some("alice"));
    assert_eq!(d.auth_method, "native");
    assert_eq!(d.last_connected, at(25));
    assert!(d.successful);
}

#[test]
fn known_server_is_refreshed_in_place() {
    let mut known = entry("a", "1", 10);
    known.username = Some("alice".to_string());
    known.successful = true;
    let mut history = vec![entry("b", "1", 30), known, entry("a", "2", 20)];
    // No user named, a failed attempt: the user and the success on record stay.
    record_connection(&mut history, "a", "1", None, "psk", false, at(40));
    assert_eq!(addresses(&history), ["a", "b", "a"]);
    assert_eq!(history[0].port, "1");
    assert_eq!(history[0].username.as_deref(), Some("alice"));
    assert_eq!(history[0].auth_method, "psk");
    assert_eq!(history[0].last_connected, at(40));
    assert!(history[0].successful);
    assert_eq!(history.len(), 3);
    record_connection(&mut history, "a", "2", Some("bob"), "password", true, at(5));
    assert_eq!(history[2].port, "2");
    assert_eq!(history[2].username.as_deref(), Some("bob"));
    assert!(history[2].successful);
    assert_eq!(history[2].last_connected, at(5));
}

#[test]
fn only_the_first_entry_for_a_server_is_refreshed() {
    let mut history = vec![entry("a", "1", 30), entry("a", "1", 20)];
    record_connection(&mut history, "a", "1", None, "native", false, at(10));
    assert_eq!(history.len(), 2);
    assert_eq!(history[0].last_connected, at(20));
    assert_eq!(history[0].auth_method, "password");
    assert_eq!(history[1].last_connected, at(10));
    assert_eq!(history[1].auth_method, "native");
}

#[test]
fn history_keeps_the_ten_most_recent() {
    let mut history = Vec::new();
    for n in 0..12u64 {
        record_connection(&mut history, &format!("host{}", n), "1", None, "password", false, at(100 + n));
    }
    assert_eq!(history.len(), 10);
    assert_eq!(HISTORY_LIMIT, 10);
    let expected: Vec<String> = (2..12u64).rev().map(|n| format!("host{}", n)).collect();
    assert_eq!(addresses(&history), expected);
    // An attempt older than all ten is written down and dropped again.
    record_connection(&mut history, "old", "1", None, "password", true, at(1));
    assert_eq!(addresses(&history), expected);
}

#[test]
fn sort_is_stable_and_descending() {
    let mut history = vec![entry("a", "1", 5), entry("b", "1", 7), entry("c", "1", 5), entry("d", "1", 7), entry("e", "1", 6)];
    sort_newest_first(&mut history);
    assert_eq!(addresses(&history), ["b", "d", "e", "a", "c"]);
    let mut by_nanos = vec![entry("x", "1", 5), entry("y", "1", 5)];
    by_nanos[1].last_connected.nanos = 1;
    sort_newest_first(&mut by_nanos);
    assert_eq!(addresses(&by_nanos), ["y", "x"]);
    let mut empty: Vec<ConnectionEntry> = Vec::new();
    sort_newest_first(&mut empty);
    assert!(empty.is_empty());
}

#[test]
fn add_to_connection_history_uses_the_current_time() {
    let mut history = vec![entry("a", "1", 10)];
    add_to_connection_history(&mut history, "b", "2", Some("bob"), "password", true);
    assert_eq!(addresses(&history), ["b", "a"]);
    assert!(history[0].successful);
    assert!(history[0].last_connected.secs > 1_600_000_000);
    add_to_connection_history(&mut history, "a", "1", None, "password", false);
    assert_eq!(history.len(), 2);
    assert!(history.iter().all(|e| e.last_connected.secs > 1_600_000_000));
}

#[test]
fn default_configuration() {
    let server = ServerConfig::default();
    assert_eq!(server.address, "127.0.0.1");
    assert_eq!(server.port, 8717);
    assert!(!server.use_tls);
    assert_eq!(server.client_cert_path, None);
    assert_eq!(server.client_key_path, None);
    assert!(server.verify_server);
    let auth = AuthConfig::default();
    assert_eq!(auth.method, "password");
    assert_eq!(auth.username, None);
    assert_eq!(auth.psk, None);
    assert!(!auth.save_credentials);
    assert!(!auth.use_native_auth);
    assert_eq!(DEFAULT_SERVER_PORT, 8716);
    assert_eq!(DEFAULT_SERVER_ADDRESS, server.address);
    assert_eq!(DEFAULT_AUTH_METHOD, auth.method);
    assert_eq!(DEFAULT_UI_THEME, "default");
}

#[test]
fn configuration_validity() {
    let server = ServerConfig::default();
    let mut auth = AuthConfig::default();
    assert!(!is_config_valid(&server, &auth));
    auth.username = Some(String::new());
    assert!(!is_config_valid(&server, &auth));
    auth.username = Some("alice".to_string());
    assert!(is_config_valid(&server, &auth));
    auth.method = "Native".to_string();
    assert!(is_config_valid(&server, &auth));
    auth.method = "kerberos".to_string();
    assert!(!is_config_valid(&server, &auth));
    auth.method = "psk".to_string();
    auth.username = None;
    assert!(is_config_valid(&server, &auth));
    auth.method = "publickey".to_string();
    assert!(is_config_valid(&server, &auth));
    let mut nowhere = ServerConfig::default();
    nowhere.address = String::new();
    assert!(!is_config_valid(&nowhere, &auth));
}

#[test]
fn authentication_plan() {
    let mut auth = AuthConfig::default();
    let plan = plan_authentication(&auth, Some("carol".into()), Some("dave".into()));
    assert_eq!(plan.username, "carol");
    assert_eq!(plan.method, AuthMethod::Password);
    assert_eq!(plan.warning, None);
    assert_eq!(plan_authentication(&auth, None, Some("dave".into())).username, "dave");
    assert_eq!(plan_authentication(&auth, None, None).username, "user");
    auth.username = Some("alice".into());
    auth.method = "PSK".into();
    let plan = plan_authentication(&auth, Some("carol".into()), None);
    assert_eq!(plan.username, "alice");
    assert_eq!(plan.method, AuthMethod::Psk);
    assert_eq!(plan.warning, None);
    auth.method = "key".into();
    let plan = plan_authentication(&auth, None, None);
    assert_eq!(plan.method, AuthMethod::Password);
    assert_eq!(plan.warning.as_deref(), Some("Unknown authentication method: key, falling back to password"));
}

#[test]
fn event_app_startup() {
    let server = ServerConfig::default();
    let mut auth = AuthConfig::default();
    let app = EventBasedApp::new(server.clone(), auth.clone(), true);
    assert!(!app.is_config_valid());
    assert!(matches!(app.startup(), Some(AppEvent::ShowConnectionDialog)));
    let app = EventBasedApp::new(server.clone(), auth.clone(), false);
    assert!(app.startup().is_none());
    auth.username = Some("alice".into());
    let app = EventBasedApp::new(server.clone(), auth.clone(), true);
    assert!(app.is_config_valid());
    assert!(matches!(app.startup(), Some(AppEvent::Connect)));
    let app = EventBasedApp::new(server, auth, false);
    assert!(app.startup().is_none());
}

#[test]
fn event_app_reactions() {
    let mut app = EventBasedApp::new(ServerConfig::default(), AuthConfig::default(), false);
    assert!(matches!(app.handle_event(AppEvent::Connect), AppAction::Connect));
    assert!(app.take_client().is_none());
    assert!(matches!(app.handle_event(AppEvent::Connected(Client::new())), AppAction::Authenticate));
    assert!(app.take_client().is_some());
    assert!(app.take_client().is_none());
    assert!(matches!(
        app.handle_event(AppEvent::ConnectionFailed("refused".into())),
        AppAction::Raise(AppEvent::ShowConnectionDialog)
    ));
    assert!(matches!(app.handle_event(AppEvent::AuthenticationSucceeded), AppAction::Idle));
    assert!(matches!(
        app.handle_event(AppEvent::AuthenticationFailed("no".into())),
        AppAction::Raise(AppEvent::ShowAuthenticationDialog)
    ));
    assert!(matches!(
        app.handle_event(AppEvent::ShowConnectionDialog),
        AppAction::RaiseAfter(500, AppEvent::Connect)
    ));
    assert_eq!(DIALOG_DELAY_MS, 500);
    assert!(matches!(app.handle_event(AppEvent::ShowAuthenticationDialog), AppAction::Idle));
    assert!(matches!(app.handle_event(AppEvent::Quit), AppAction::Quit));
}

#[test]
fn resource_paths_by_kind() {
    assert_eq!(resource_path("logo.png", ResourceType::Image), "images/logo.png");
    assert_eq!(resource_path("mono.ttf", ResourceType::Font), "fonts/mono.ttf");
    assert_eq!(resource_path("blur.glsl", ResourceType::Shader), "shaders/blur.glsl");
    assert_eq!(resource_path("ui.toml", ResourceType::Config), "config/ui.toml");
    assert_eq!(resource_path("readme", ResourceType::Other), "readme");
}

#[test]
fn resource_cache_keeps_the_last_data_stored() {
    let mut manager = ResourceManager::new("/usr/share/rcp");
    assert_eq!(manager.base_path(), "/usr/share/rcp");
    assert_eq!(manager.cached("images/logo.png"), None);
    manager.store("images/logo.png", vec![1, 2, 3]);
    manager.store("fonts/mono.ttf", vec![4]);
    assert_eq!(manager.cached("images/logo.png"), Some(&vec![1, 2, 3]));
    assert_eq!(manager.cached("fonts/mono.ttf"), Some(&vec![4]));
    assert_eq!(manager.cached("images/logo"), None);
    manager.store("images/logo.png", vec![9]);
    assert_eq!(manager.cached("images/logo.png"), Some(&vec![9]));
    assert_eq!(manager.cached("fonts/mono.ttf"), Some(&vec![4]));
}

fn window() -> RcpClientApp {
    RcpClientApp {
        server_address: "10.0.0.1".to_string(),
        server_port: "8717".to_string(),
        auth_method: "psk".to_string(),
        username: "alice".to_string(),
        app_state: AppState::new(),
        status_message: "Ready".to_string(),
        connection_history: vec![entry("old", "1", 5)],
    }
}

#[test]
fn set_connected_at_stamps_the_given_time() {
    let mut state = AppState::new();
    state.set_connected_at(true, at(77));
    assert!(state.is_connected);
    assert_eq!(state.connection_time, Some(at(77)));
    assert_eq!(state.connection_status, "Connected");
    state.set_connected_at(false, at(78));
    assert!(!state.is_connected);
    assert_eq!(state.connection_time, None);
    assert_eq!(state.connection_status, "Disconnected");
}

#[test]
fn window_follows_a_successful_connection() {
    let mut app = window();
    assert!(!app.handle_event_at(GuiEvent::Connect, at(10)));
    assert!(app.app_state.connecting);
    assert!(!app.app_state.is_connected);
    assert_eq!(app.app_state.connection_status, "Connecting...");
    assert_eq!(app.status_message, "Connecting...");
    assert_eq!(app.connection_history.len(), 1);

    assert!(app.handle_event_at(GuiEvent::ConnectionSucceeded, at(11)));
    assert!(!app.app_state.connecting);
    assert!(app.app_state.is_connected);
    assert_eq!(app.app_state.connection_status, "Connected");
    assert_eq!(app.app_state.connection_time, Some(at(11)));
    assert_eq!(app.status_message, "Connected");
    assert_eq!(addresses(&app.connection_history), ["10.0.0.1", "old"]);
    let recorded = &app.connection_history[0];
    assert_eq!(recorded.port, "8717");
    assert_eq!(recorded.username.as_deref(), Some("alice"));
    assert_eq!(recorded.auth_method, "psk");
    assert_eq!(recorded.last_connected, at(11));
    assert!(recorded.successful);

    assert!(!app.handle_event_at(GuiEvent::Disconnect, at(12)));
    assert!(!app.app_state.is_connected);
    assert_eq!(app.app_state.connection_status, "Disconnected");
    assert_eq!(app.app_state.connection_time, Some(at(11)));
    assert!(!app.handle_event_at(GuiEvent::DisconnectedConfirmed, at(13)));
    assert_eq!(app.app_state.connection_time, None);
    assert_eq!(app.status_message, "Disconnected");
    assert_eq!(app.connection_history.len(), 2);
}

#[test]
fn window_follows_a_failed_connection() {
    let mut app = window();
    app.app_state.connecting = true;
    assert!(app.handle_event_at(GuiEvent::ConnectionFailed("refused".to_string()), at(20)));
    assert!(!app.app_state.connecting);
    assert!(!app.app_state.is_connected);
    assert_eq!(app.app_state.connection_status, "Failed: refused");
    assert_eq!(app.status_message, "Failed: refused");
    assert_eq!(addresses(&app.connection_history), ["10.0.0.1", "old"]);
    assert!(!app.connection_history[0].successful);
    assert_eq!(app.server_address, "10.0.0.1");
    assert_eq!(app.username, "alice");
}

#[test]
fn window_status_line_and_events_that_change_nothing() {
    let mut app = window();
    assert!(!app.handle_event_at(GuiEvent::SaveConfig, at(1)));
    assert_eq!(app.status_message, "Configuration save requested.");
    assert_eq!(app.app_state.connection_status, "Disconnected");
    assert!(!app.handle_event_at(GuiEvent::StatusUpdate("Config saved.".to_string()), at(1)));
    assert_eq!(app.status_message, "Config saved.");
    let quiet = vec![
        GuiEvent::AuthenticationSucceeded,
        GuiEvent::AuthenticationFailed("no".into()),
        GuiEvent::ConfigSaved,
        GuiEvent::ConfigSaveFailed("disk".into()),
        GuiEvent::UpdateStatus("x".into()),
        GuiEvent::UpdateConnectionState(true),
        GuiEvent::SetConnecting(true),
        GuiEvent::UpdateConnectionHistory("a".into(), "1".into(), None, "psk".into(), true),
        GuiEvent::SaveCredentials,
        GuiEvent::ClearCredentials,
        GuiEvent::ValidateInput("port".into()),
    ];
    for event in quiet {
        assert!(!app.handle_event(event));
        assert_eq!(app.status_message, "Config saved.");
        assert_eq!(app.app_state, AppState::new());
        assert_eq!(app.connection_history.len(), 1);
    }
    assert!(app.handle_event(GuiEvent::ConnectionSucceeded));
    assert!(app.app_state.connection_time.unwrap().secs > 1_600_000_000);
}

#[test]
fn entry_made_and_marked_at_a_given_time() {
    let mut e = ConnectionEntry::new_at("host", "22", Some("bob"), "native", at(50));
    assert_eq!(e.address, "host");
    assert_eq!(e.port, "22");
    assert_eq!(e.username.as_deref(), Some("bob"));
    assert_eq!(e.auth_method, "native");
    assert_eq!(e.last_connected, at(50));
    assert!(!e.successful);
    e.mark_successful_at(at(60));
    assert!(e.successful);
    assert_eq!(e.last_connected, at(60));
    assert_eq!(e.display_string(), "bob@host:22");
    e.mark_successful_at(at(70));
    assert!(e.successful);
    assert_eq!(e.last_connected, at(70));
    let before = Timestamp::now();
    e.mark_successful();
    assert!(!before.is_later_than(&e.last_connected));
    assert_eq!(ConnectionEntry::new_at("h", "1", None, "psk", at(1)).username, None);
}

#[test]
fn outcomes_become_events() {
    assert!(matches!(EventBasedApp::connection_event(Ok(Client::new())), AppEvent::Connected(_)));
    assert!(matches!(
        EventBasedApp::connection_event(Err("refused".to_string())),
        AppEvent::ConnectionFailed(reason) if reason == "refused"
    ));
    assert!(matches!(
        EventBasedApp::authentication_event(Some(Ok(true))),
        AppEvent::AuthenticationSucceeded
    ));
    assert!(matches!(
        EventBasedApp::authentication_event(Some(Ok(false))),
        AppEvent::AuthenticationFailed(reason) if reason == "Authentication rejected"
    ));
    assert!(matches!(
        EventBasedApp::authentication_event(Some(Err("locked".to_string()))),
        AppEvent::AuthenticationFailed(reason) if reason == "locked"
    ));
    assert!(matches!(
        EventBasedApp::authentication_event(None),
        AppEvent::AuthenticationFailed(reason) if reason == "No client connection available"
    ));
}
