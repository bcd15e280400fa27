use matrix_tui::app::preload_app;
use matrix_tui::matrix::{
    begin_login, begin_token_login, get_matrix_client, login, login_step, login_with_token,
    set_connected, set_error_message, set_info_message, set_loading, LoginEvent, LoginKind,
    LoginState, MatrixClient,
};
use matrix_tui::save::{get_save_file_path, get_save_path, Saving, BUNDLE_ID, SAVE_FILE_NAME};

fn status(client: &MatrixClient) -> (String, String, bool, bool) {
    (
        client.error_message.clone(),
        client.info_message.clone(),
        client.connected,
        client.loading,
    )
}

fn expect(client: &MatrixClient, error: &str, info: &str, connected: bool, loading: bool) {
    assert_eq!(status(client), (error.to_string(), info.to_string(), connected, loading));
}

fn failed(reason: &str) -> String {
    reason.to_string()
}

#[test]
fn a_new_status() {
    let client = MatrixClient::new();
    expect(&client, "", "", false, false);
}

#[test]
fn setters_change_one_field() {
    let mut client = MatrixClient::new();
    set_error_message(&mut client, "Missing blank");
    expect(&client, "Missing blank", "", false, false);
    set_info_message(&mut client, "Logging in");
    expect(&client, "Missing blank", "Logging in", false, false);
    set_loading(&mut client, true);
    expect(&client, "Missing blank", "Logging in", false, true);
    set_connected(&mut client, true);
    expect(&client, "Missing blank", "Logging in", true, true);
    set_error_message(&mut client, "");
    set_loading(&mut client, false);
    set_connected(&mut client, false);
    expect(&client, "", "Logging in", false, false);
}

#[test]
fn snapshot_is_a_copy() {
    let mut client = MatrixClient::new();
    set_info_message(&mut client, "Syncing with server");
    set_loading(&mut client, true);
    let snapshot = get_matrix_client(&client);
    set_info_message(&mut client, "changed");
    set_loading(&mut client, false);
    expect(&snapshot, "", "Syncing with server", false, true);
    expect(&client, "", "changed", false, false);
}

#[test]
fn login_with_a_blank_field() {
    for (server, username, password) in
        [("", "alice", "secret"), ("matrix.org", "", "secret"), ("matrix.org", "alice", ""), ("", "", "")]
    {
        let mut client = MatrixClient::new();
        set_error_message(&mut client, "an older error");
        let state = login(&mut client, server, username, password);
        assert_eq!(state, LoginState::Finished(false));
        expect(&client, "Missing blank", "", false, false);
    }
}

#[test]
fn login_with_a_bad_server_name() {
    for server in ["[test::1]", "127.0.0.1:", "matrix.org:hello", "exa mple.org", "[fe80::1]:100000"] {
        let mut client = MatrixClient::new();
        let state = login(&mut client, server, "alice", "secret");
        assert_eq!(state, LoginState::Finished(false));
        expect(&client, "Invalid server name", "", false, false);

        let mut client = MatrixClient::new();
        let state = login_with_token(&mut client, server, "token");
        assert_eq!(state, LoginState::Finished(false));
        expect(&client, "Invalid server name", "", false, false);
    }
    // An empty server is no server name either.
    let mut client = MatrixClient::new();
    assert_eq!(login_with_token(&mut client, "", "token"), LoginState::Finished(false));
    expect(&client, "Invalid server name", "", false, false);
}

#[test]
fn login_with_a_server_name() {
    for server in ["matrix.org", "ruma.io:8080", "127.0.0.1", "[::1]", "[1234:5678::abcd]:5678"] {
        let mut client = MatrixClient::new();
        set_error_message(&mut client, "an older error");
        let state = login(&mut client, server, "alice", "secret");
        assert_eq!(state, LoginState::Connecting(LoginKind::Password));
        expect(&client, "", "Connecting to server", false, true);

        // A login with a token leaves an older error where it is.
        let mut client = MatrixClient::new();
        set_error_message(&mut client, "an older error");
        let state = login_with_token(&mut client, server, "token");
        assert_eq!(state, LoginState::Connecting(LoginKind::Token));
        expect(&client, "an older error", "Connecting to server", false, true);
    }
}

#[test]
fn login_begins_by_what_the_checks_say() {
    let mut client = MatrixClient::new();
    assert_eq!(begin_login(&mut client, true, true), LoginState::Finished(false));
    expect(&client, "Missing blank", "", false, false);
    assert_eq!(begin_login(&mut client, false, false), LoginState::Finished(false));
    expect(&client, "Invalid server name", "", false, false);
    assert_eq!(begin_login(&mut client, false, true), LoginState::Connecting(LoginKind::Password));
    expect(&client, "", "Connecting to server", false, true);
    let mut client = MatrixClient::new();
    assert_eq!(begin_token_login(&mut client, false), LoginState::Finished(false));
    expect(&client, "Invalid server name", "", false, false);
    assert_eq!(begin_token_login(&mut client, true), LoginState::Connecting(LoginKind::Token));
    expect(&client, "Invalid server name", "Connecting to server", false, true);
}

#[test]
fn password_login_step_by_step() {
    let mut client = MatrixClient::new();
    let state = login(&mut client, "matrix.org", "alice", "secret");
    let state = login_step(
        &mut client,
        state,
        LoginEvent::ClientBuilt { device_id: Some("\"ABCDEFGH\"".to_string()) },
    );
    assert_eq!(state, LoginState::Registering);
    expect(&client, "", "Registering device: \"ABCDEFGH\"", false, true);
    let state = login_step(&mut client, state, LoginEvent::DeviceRenamed);
    assert_eq!(state, LoginState::Authenticating(LoginKind::Password));
    expect(&client, "", "Logging in", false, true);
    let state = login_step(&mut client, state, LoginEvent::LoggedIn { token: true });
    assert_eq!(state, LoginState::Saving);
    expect(&client, "", "Logging in", false, true);
    let state = login_step(&mut client, state, LoginEvent::Saved);
    assert_eq!(state, LoginState::Syncing);
    expect(&client, "", "Syncing with server", false, true);
    let state = login_step(&mut client, state, LoginEvent::Synced);
    assert_eq!(state, LoginState::Finished(true));
    expect(&client, "", "Syncing with server", true, false);
}

#[test]
fn token_login_step_by_step() {
    let mut client = MatrixClient::new();
    let state = login_with_token(&mut client, "matrix.org", "token");
    let state = login_step(&mut client, state, LoginEvent::ClientBuilt { device_id: None });
    assert_eq!(state, LoginState::Authenticating(LoginKind::Token));
    expect(&client, "", "Logging in with token", false, true);
    let state = login_step(&mut client, state, LoginEvent::LoggedIn { token: true });
    assert_eq!(state, LoginState::Syncing);
    expect(&client, "", "Syncing with server", false, true);
    let state = login_step(&mut client, state, LoginEvent::Synced);
    assert_eq!(state, LoginState::Finished(true));
    expect(&client, "", "Syncing with server", true, false);
}

#[test]
fn login_failures() {
    for kind in [LoginKind::Password, LoginKind::Token] {
        let mut client = MatrixClient::new();
        set_loading(&mut client, true);
        let state = login_step(
            &mut client,
            LoginState::Connecting(kind),
            LoginEvent::ClientFailed { reason: failed("no route") },
        );
        assert_eq!(state, LoginState::Finished(false));
        expect(&client, "Failed to connect to server: no route", "", false, false);
    }

    let mut client = MatrixClient::new();
    set_loading(&mut client, true);
    let state = login_step(
        &mut client,
        LoginState::Authenticating(LoginKind::Password),
        LoginEvent::LoginFailed { reason: failed("M_FORBIDDEN") },
    );
    assert_eq!(state, LoginState::Finished(false));
    expect(&client, "Failed to login: M_FORBIDDEN", "", false, false);

    let mut client = MatrixClient::new();
    set_loading(&mut client, true);
    let state = login_step(
        &mut client,
        LoginState::Authenticating(LoginKind::Token),
        LoginEvent::LoginFailed { reason: failed("M_UNKNOWN_TOKEN") },
    );
    assert_eq!(state, LoginState::Finished(false));
    expect(&client, "Failed to login with token: M_UNKNOWN_TOKEN", "", false, false);

    // A sync that fails still hands the client back, not connected.
    let mut client = MatrixClient::new();
    set_loading(&mut client, true);
    let state = login_step(
        &mut client,
        LoginState::Syncing,
        LoginEvent::SyncFailed { reason: failed("timeout") },
    );
    assert_eq!(state, LoginState::Finished(true));
    expect(&client, "Failed to sync with server: timeout", "", false, false);

    // A save file that cannot be made is reported, and the login goes on.
    let mut client = MatrixClient::new();
    set_loading(&mut client, true);
    let state = login_step(
        &mut client,
        LoginState::Saving,
        LoginEvent::SaveFailed { reason: failed("denied") },
    );
    assert_eq!(state, LoginState::Syncing);
    expect(&client, "Error creating save file: denied", "Syncing with server", false, true);
}

#[test]
fn password_login_without_a_device_goes_on() {
    // A client that is not logged in yet has no device to rename.
    let mut client = MatrixClient::new();
    let state = login(&mut client, "matrix.org", "alice", "secret");
    let state = login_step(&mut client, state, LoginEvent::ClientBuilt { device_id: None });
    assert_eq!(state, LoginState::Authenticating(LoginKind::Password));
    expect(&client, "", "Logging in", false, true);
    let state = login_step(&mut client, state, LoginEvent::LoggedIn { token: true });
    assert_eq!(state, LoginState::Saving);
    let state = login_step(&mut client, state, LoginEvent::Saved);
    let state = login_step(&mut client, state, LoginEvent::Synced);
    assert_eq!(state, LoginState::Finished(true));
    expect(&client, "", "Syncing with server", true, false);
}

#[test]
fn a_login_that_ends_without_a_client_shows_why() {
    let reason = || "down".to_string();
    let states = [
        LoginState::Connecting(LoginKind::Password),
        LoginState::Connecting(LoginKind::Token),
        LoginState::Registering,
        LoginState::Authenticating(LoginKind::Password),
        LoginState::Authenticating(LoginKind::Token),
        LoginState::Saving,
        LoginState::Syncing,
    ];
    for state in states {
        let events = [
            LoginEvent::ClientBuilt { device_id: None },
            LoginEvent::ClientBuilt { device_id: Some("\"DEVICE\"".to_string()) },
            LoginEvent::ClientFailed { reason: reason() },
            LoginEvent::DeviceRenamed,
            LoginEvent::LoggedIn { token: true },
            LoginEvent::LoggedIn { token: false },
            LoginEvent::LoginFailed { reason: reason() },
            LoginEvent::Saved,
            LoginEvent::SaveFailed { reason: reason() },
            LoginEvent::Synced,
            LoginEvent::SyncFailed { reason: reason() },
        ];
        for event in events {
            let mut client = MatrixClient::new();
            set_loading(&mut client, true);
            let next = login_step(&mut client, state, event);
            if let LoginState::Finished(handed_back) = next {
                assert!(!client.loading);
                if !handed_back {
                    assert!(!client.error_message.is_empty());
                }
            }
        }
    }
    for (server, username, password) in [("", "a", "b"), ("not a server", "a", "b")] {
        let mut client = MatrixClient::new();
        assert_eq!(login(&mut client, server, username, password), LoginState::Finished(false));
        assert!(!client.loading);
        assert!(!client.error_message.is_empty());
    }
}

#[test]
fn password_login_without_a_token_saves_nothing() {
    let mut client = MatrixClient::new();
    set_loading(&mut client, true);
    let state = login_step(
        &mut client,
        LoginState::Authenticating(LoginKind::Password),
        LoginEvent::LoggedIn { token: false },
    );
    assert_eq!(state, LoginState::Syncing);
    expect(&client, "", "Syncing with server", false, true);
}

#[test]
fn events_out_of_place_change_nothing() {
    let states = [
        LoginState::Connecting(LoginKind::Password),
        LoginState::Registering,
        LoginState::Saving,
        LoginState::Syncing,
        LoginState::Finished(true),
        LoginState::Finished(false),
    ];
    for state in states {
        let mut client = MatrixClient::new();
        set_info_message(&mut client, "before");
        set_loading(&mut client, true);
        let next = login_step(&mut client, state, LoginEvent::LoggedIn { token: true });
        assert_eq!(next, state);
        let next = login_step(&mut client, state, LoginEvent::LoginFailed { reason: failed("x") });
        assert_eq!(next, state);
        expect(&client, "", "before", false, true);
    }
    let mut client = MatrixClient::new();
    for event in [
        LoginEvent::ClientBuilt { device_id: None },
        LoginEvent::ClientFailed { reason: failed("x") },
        LoginEvent::DeviceRenamed,
        LoginEvent::Saved,
        LoginEvent::SaveFailed { reason: failed("x") },
        LoginEvent::Synced,
        LoginEvent::SyncFailed { reason: failed("x") },
    ] {
        let state = LoginState::Authenticating(LoginKind::Token);
        assert_eq!(login_step(&mut client, state, event), state);
    }
    expect(&client, "", "", false, false);
}

#[test]
fn preload_logs_in_with_a_saved_token() {
    let saving = Saving {
        token: "syt_token".to_string(),
        username: "alice".to_string(),
        server: "matrix.org".to_string(),
    };
    let mut client = MatrixClient::new();
    assert_eq!(preload_app(&mut client, &saving), Some(LoginState::Connecting(LoginKind::Token)));
    expect(&client, "", "Connecting to server", false, true);

    let broken = Saving { server: "not a server".to_string(), ..saving.clone() };
    let mut client = MatrixClient::new();
    assert_eq!(preload_app(&mut client, &broken), Some(LoginState::Finished(false)));
    expect(&client, "Invalid server name", "", false, false);

    let none = Saving { token: String::new(), ..saving };
    let mut client = MatrixClient::new();
    assert_eq!(preload_app(&mut client, &none), None);
    expect(&client, "", "", false, false);
}

#[test]
fn saving_starts_from_the_file_or_empty() {
    let empty = Saving::new(None);
    assert_eq!((empty.token.as_str(), empty.username.as_str(), empty.server.as_str()), ("", "", ""));
    let default = Saving::default();
    assert_eq!((default.token.as_str(), default.username.as_str(), default.server.as_str()), ("", "", ""));
    let read = Saving {
        token: "t".to_string(),
        username: "u".to_string(),
        server: "s".to_string(),
    };
    let saving = Saving::new(Some(read));
    assert_eq!((saving.token.as_str(), saving.username.as_str(), saving.server.as_str()), ("t", "u", "s"));
}

#[test]
fn reading_the_save_file() {
    let mut client = MatrixClient::new();
    assert!(Saving::from_saves(&mut client, None).is_none());
    expect(&client, "", "", false, false);

    let read = Saving {
        token: "t".to_string(),
        username: "u".to_string(),
        server: "s".to_string(),
    };
    let saved = Saving::from_saves(&mut client, Some(Ok(read))).unwrap();
    assert_eq!((saved.token.as_str(), saved.username.as_str(), saved.server.as_str()), ("t", "u", "s"));
    expect(&client, "", "", false, false);

    let broken = Saving::from_saves(&mut client, Some(Err("expected value at line 1".to_string())));
    assert!(broken.is_none());
    expect(&client, "Failed to load savings: expected value at line 1", "", false, false);
}

#[test]
fn save_paths() {
    assert_eq!(BUNDLE_ID, "com.iewnfod.matrix.tui");
    assert_eq!(SAVE_FILE_NAME, "saves.json");
    assert_eq!(get_save_path(false), vec![".config", "com.iewnfod.matrix.tui"]);
    assert_eq!(
        get_save_path(true),
        vec!["Library", "Application Support", "com.iewnfod.matrix.tui"]
    );
    assert_eq!(
        get_save_file_path(false),
        vec![".config", "com.iewnfod.matrix.tui", "saves.json"]
    );
    assert_eq!(
        get_save_file_path(true),
        vec!["Library", "Application Support", "com.iewnfod.matrix.tui", "saves.json"]
    );
}
