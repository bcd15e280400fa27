use vstd::prelude::*;
use matrix_sdk::ServerName;
use crate::text::message;

verus! {

/// What the screen shows of the connection: two lines of text and two flags.
///
/// The task that talks to the server writes it, and each frame reads a copy.
#[derive(Debug, Clone)]
pub struct MatrixClient {
    pub error_message: String,
    pub info_message: String,
    pub connected: bool,
    pub loading: bool,
}

/// The status as plain values.
pub struct MatrixClientView {
    pub error_message: Seq<char>,
    pub info_message: Seq<char>,
    pub connected: bool,
    pub loading: bool,
}

impl View for MatrixClient {
    type V = MatrixClientView;

    open spec fn view(&self) -> MatrixClientView {
        MatrixClientView {
            error_message: self.error_message@,
            info_message: self.info_message@,
            connected: self.connected,
            loading: self.loading,
        }
    }
}

impl MatrixClientView {
    /// The line that a frame shows: the error where there is one, else the
    /// information.
    pub open spec fn shown(self) -> Seq<char> {
        if self.error_message.len() > 0 {
            self.error_message
        } else {
            self.info_message
        }
    }

    /// The line that a frame shows is an error.
    pub open spec fn shows_error(self) -> bool {
        self.error_message.len() > 0
    }
}

impl MatrixClient {
    /// A status with no text, not connected and not loading.
    pub fn new() -> (client: MatrixClient)
        ensures
            client@ == (MatrixClientView {
                error_message: Seq::empty(),
                info_message: Seq::empty(),
                connected: false,
                loading: false,
            }),
    {
        MatrixClient {
            error_message: String::new(),
            info_message: String::new(),
            connected: false,
            loading: false,
        }
    }
}

pub fn set_error_message(client: &mut MatrixClient, msg: &str)
    ensures
        final(client)@ == (MatrixClientView { error_message: msg@, ..old(client)@ }),
{
    client.error_message = String::from_str(msg);
}

pub fn set_loading(client: &mut MatrixClient, loading: bool)
    ensures
        final(client)@ == (MatrixClientView { loading, ..old(client)@ }),
{
    client.loading = loading;
}

pub fn set_connected(client: &mut MatrixClient, connected: bool)
    ensures
        final(client)@ == (MatrixClientView { connected, ..old(client)@ }),
{
    client.connected = connected;
}

pub fn set_info_message(client: &mut MatrixClient, msg: &str)
    ensures
        final(client)@ == (MatrixClientView { info_message: msg@, ..old(client)@ }),
{
    client.info_message = String::from_str(msg);
}

/// A copy of the status, for one frame to read.
pub fn get_matrix_client(client: &MatrixClient) -> (snapshot: MatrixClient)
    ensures
        snapshot@ == client@,
{
    MatrixClient {
        error_message: client.error_message.clone(),
        info_message: client.info_message.clone(),
        connected: client.connected,
        loading: client.loading,
    }
}

/// With which credentials a login goes.
#[derive(Debug, Clone, Copy, PartialEq, Eq, Structural)]
pub enum LoginKind {
    Password,
    Token,
}

/// Where a login stands. Each state but the last names the work that the
/// caller has under way with the server.
#[derive(Debug, Clone, Copy, PartialEq, Eq, Structural)]
pub enum LoginState {
    /// A client for the server is being built.
    Connecting(LoginKind),
    /// The device is being renamed.
    Registering,
    /// The credentials are with the server.
    Authenticating(LoginKind),
    /// The session is being written to the save file.
    Saving,
    /// The client syncs with the server.
    Syncing,
    /// The login is over; the flag says whether it hands a client back.
    Finished(bool),
}

/// What the caller reports when a piece of work has ended.
#[derive(Debug)]
pub enum LoginEvent {
    /// The client was built. `device_id` is its device, printed for the eye,
    /// where the client has one before it is logged in.
    ClientBuilt { device_id: Option<String> },
    ClientFailed { reason: String },
    /// The request to rename the device has ended, however it went.
    DeviceRenamed,
    /// The server took the credentials. `token` says whether the client now
    /// holds an access token.
    LoggedIn { token: bool },
    LoginFailed { reason: String },
    Saved,
    SaveFailed { reason: String },
    Synced,
    SyncFailed { reason: String },
}

/// Whether `matrix_sdk::ServerName::parse` takes `server` for a server name.
pub uninterp spec fn server_name_accepted(server: Seq<char>) -> bool;

/// Asks the Matrix library whether `server` is a server name.
///
/// Trusted: the body calls `matrix_sdk::ServerName::parse`, which looks at
/// nothing but the text, and the contract gives its verdict a name.
#[verifier::external_body]
fn parse_server_name(server: &str) -> (accepted: bool)
    ensures
        accepted == server_name_accepted(server@),
{
    ServerName::parse(server).is_ok()
}

/// The status in which a login fails before any work with the server.
pub open spec fn refused(status: MatrixClientView, error: Seq<char>) -> MatrixClientView {
    MatrixClientView { error_message: error, loading: false, ..status }
}

/// Status and state after a login with a password was asked for. `blank`
/// says that one of the three fields is empty, `accepted` that the server
/// field holds a server name.
pub open spec fn login_begun(status: MatrixClientView, blank: bool, accepted: bool) -> (
    MatrixClientView,
    LoginState,
) {
    let cleared = MatrixClientView { error_message: Seq::empty(), loading: true, ..status };
    if blank {
        (refused(cleared, "Missing blank"@), LoginState::Finished(false))
    } else if !accepted {
        (refused(cleared, "Invalid server name"@), LoginState::Finished(false))
    } else {
        (
            MatrixClientView { info_message: "Connecting to server"@, ..cleared },
            LoginState::Connecting(LoginKind::Password),
        )
    }
}

/// Status and state after a login with a token was asked for.
pub open spec fn token_login_begun(status: MatrixClientView, accepted: bool) -> (
    MatrixClientView,
    LoginState,
) {
    let loading = MatrixClientView { loading: true, ..status };
    if !accepted {
        (refused(loading, "Invalid server name"@), LoginState::Finished(false))
    } else {
        (
            MatrixClientView { info_message: "Connecting to server"@, ..loading },
            LoginState::Connecting(LoginKind::Token),
        )
    }
}

/// The status with `info` as its information.
pub open spec fn informed(status: MatrixClientView, info: Seq<char>) -> MatrixClientView {
    MatrixClientView { info_message: info, ..status }
}

/// Status and state after `event` came in while the login stood at `state`.
/// A client that has no device yet has none to rename, and the login goes
/// straight on to the credentials. An event that does not belong to the
/// state changes nothing.
pub open spec fn login_stepped(status: MatrixClientView, state: LoginState, event: LoginEvent) -> (
    MatrixClientView,
    LoginState,
) {
    match (state, event) {
        (LoginState::Connecting(_), LoginEvent::ClientFailed { reason }) => (
            refused(status, "Failed to connect to server: "@ + reason@),
            LoginState::Finished(false),
        ),
        (
            LoginState::Connecting(LoginKind::Password),
            LoginEvent::ClientBuilt { device_id: Some(id) },
        ) => (informed(status, "Registering device: "@ + id@), LoginState::Registering),
        (LoginState::Connecting(LoginKind::Password), LoginEvent::ClientBuilt { device_id: None }) => (
            informed(status, "Logging in"@),
            LoginState::Authenticating(LoginKind::Password),
        ),
        (LoginState::Connecting(LoginKind::Token), LoginEvent::ClientBuilt { .. }) => (
            informed(status, "Logging in with token"@),
            LoginState::Authenticating(LoginKind::Token),
        ),
        (LoginState::Registering, LoginEvent::DeviceRenamed) => (
            informed(status, "Logging in"@),
            LoginState::Authenticating(LoginKind::Password),
        ),
        (LoginState::Authenticating(LoginKind::Password), LoginEvent::LoginFailed { reason }) => (
            refused(status, "Failed to login: "@ + reason@),
            LoginState::Finished(false),
        ),
        (LoginState::Authenticating(LoginKind::Token), LoginEvent::LoginFailed { reason }) => (
            refused(status, "Failed to login with token: "@ + reason@),
            LoginState::Finished(false),
        ),
        (LoginState::Authenticating(LoginKind::Password), LoginEvent::LoggedIn { token: true }) => (
            status,
            LoginState::Saving,
        ),
        (LoginState::Authenticating(_), LoginEvent::LoggedIn { .. }) => (
            informed(status, "Syncing with server"@),
            LoginState::Syncing,
        ),
        (LoginState::Saving, LoginEvent::Saved) => (
            informed(status, "Syncing with server"@),
            LoginState::Syncing,
        ),
        (LoginState::Saving, LoginEvent::SaveFailed { reason }) => (
            MatrixClientView {
                error_message: "Error creating save file: "@ + reason@,
                info_message: "Syncing with server"@,
                ..status
            },
            LoginState::Syncing,
        ),
        (LoginState::Syncing, LoginEvent::Synced) => (
            MatrixClientView { connected: true, loading: false, ..status },
            LoginState::Finished(true),
        ),
        (LoginState::Syncing, LoginEvent::SyncFailed { reason }) => (
            refused(status, "Failed to sync with server: "@ + reason@),
            LoginState::Finished(true),
        ),
        _ => (status, state),
    }
}

/// The status shows a failure: there is an error to read, and the loading
/// view is off.
pub open spec fn shows_failure(status: MatrixClientView) -> bool {
    status.error_message.len() > 0 && !status.loading
}

/// A login with a password either begins with building the client or is over
/// at once, and then it shows a failure.
pub proof fn lemma_refused_login_shows_failure(status: MatrixClientView, blank: bool, accepted: bool)
    ensures
        login_begun(status, blank, accepted).1 == LoginState::Connecting(LoginKind::Password) || {
            &&& login_begun(status, blank, accepted).1 == LoginState::Finished(false)
            &&& shows_failure(login_begun(status, blank, accepted).0)
        },
{
    reveal_strlit("Missing blank");
    reveal_strlit("Invalid server name");
}

/// A login with a token either begins with building the client or is over
/// at once, and then it shows a failure.
pub proof fn lemma_refused_token_login_shows_failure(status: MatrixClientView, accepted: bool)
    ensures
        token_login_begun(status, accepted).1 == LoginState::Connecting(LoginKind::Token) || {
            &&& token_login_begun(status, accepted).1 == LoginState::Finished(false)
            &&& shows_failure(token_login_begun(status, accepted).0)
        },
{
    reveal_strlit("Invalid server name");
}

/// A step that ends the login leaves the loading view off, and a step that
/// ends it without a client shows a failure.
pub proof fn lemma_ended_login_shows_failure(
    status: MatrixClientView,
    state: LoginState,
    event: LoginEvent,
)
    requires
        !(state is Finished),
    ensures
        login_stepped(status, state, event).1 is Finished ==> !login_stepped(
            status,
            state,
            event,
        ).0.loading,
        login_stepped(status, state, event).1 == LoginState::Finished(false) ==> shows_failure(
            login_stepped(status, state, event).0,
        ),
{
    reveal_strlit("Failed to connect to server: ");
    reveal_strlit("Failed to login: ");
    reveal_strlit("Failed to login with token: ");
}

/// Starts a login with a password, given what the Matrix library says of
/// the server field.
pub fn begin_login(client: &mut MatrixClient, blank: bool, accepted: bool) -> (state: LoginState)
    ensures
        (final(client)@, state) == login_begun(old(client)@, blank, accepted),
        state == LoginState::Finished(false) ==> shows_failure(final(client)@),
{
    proof {
        reveal_strlit("");
        lemma_refused_login_shows_failure(old(client)@, blank, accepted);
    }
    set_error_message(client, "");
    assert(client.error_message@ =~= Seq::<char>::empty());
    set_loading(client, true);
    if blank {
        set_error_message(client, "Missing blank");
        set_loading(client, false);
        return LoginState::Finished(false);
    }
    if !accepted {
        set_error_message(client, "Invalid server name");
        set_loading(client, false);
        return LoginState::Finished(false);
    }
    set_info_message(client, "Connecting to server");
    LoginState::Connecting(LoginKind::Password)
}

/// Starts a login with a token, given what the Matrix library says of the
/// server.
pub fn begin_token_login(client: &mut MatrixClient, accepted: bool) -> (state: LoginState)
    ensures
        (final(client)@, state) == token_login_begun(old(client)@, accepted),
        state == LoginState::Finished(false) ==> shows_failure(final(client)@),
{
    proof {
        lemma_refused_token_login_shows_failure(old(client)@, accepted);
    }
    set_loading(client, true);
    if !accepted {
        set_error_message(client, "Invalid server name");
        set_loading(client, false);
        return LoginState::Finished(false);
    }
    set_info_message(client, "Connecting to server");
    LoginState::Connecting(LoginKind::Token)
}

/// Starts a login with a password. Where the state that comes back is
/// `Connecting`, the caller builds a client for `server`.
pub fn login(client: &mut MatrixClient, server: &str, username: &str, password: &str) -> (state:
    LoginState)
    ensures
        (final(client)@, state) == login_begun(
            old(client)@,
            server@.len() == 0 || username@.len() == 0 || password@.len() == 0,
            server_name_accepted(server@),
        ),
        state == LoginState::Finished(false) ==> shows_failure(final(client)@),
{
    let blank = server.is_empty() || username.is_empty() || password.is_empty();
    let accepted = !blank && parse_server_name(server);
    begin_login(client, blank, accepted)
}

/// Starts a login with a token. Where the state that comes back is
/// `Connecting`, the caller builds a client for `server`.
pub fn login_with_token(client: &mut MatrixClient, server: &str, token: &str) -> (state: LoginState)
    ensures
        (final(client)@, state) == token_login_begun(old(client)@, server_name_accepted(server@)),
        state == LoginState::Finished(false) ==> shows_failure(final(client)@),
{
    let accepted = parse_server_name(server);
    begin_token_login(client, accepted)
}

/// Takes the login one step on: writes to the status what `event` means at
/// `state`, and gives the state that follows.
pub fn login_step(client: &mut MatrixClient, state: LoginState, event: LoginEvent) -> (next:
    LoginState)
    ensures
        (final(client)@, next) == login_stepped(old(client)@, state, event),
        !(state is Finished) && next is Finished ==> !final(client)@.loading,
        !(state is Finished) && next == LoginState::Finished(false) ==> shows_failure(
            final(client)@,
        ),
{
    proof {
        if !(state is Finished) {
            lemma_ended_login_shows_failure(old(client)@, state, event);
        }
    }
    match state {
        LoginState::Connecting(kind) => match event {
            LoginEvent::ClientFailed { reason } => {
                let error = message("Failed to connect to server: ", reason.as_str());
                set_error_message(client, error.as_str());
                set_loading(client, false);
                LoginState::Finished(false)
            },
            LoginEvent::ClientBuilt { device_id } => match kind {
                LoginKind::Password => match device_id {
                    Some(id) => {
                        let info = message("Registering device: ", id.as_str());
                        set_info_message(client, info.as_str());
                        LoginState::Registering
                    },
                    None => {
                        set_info_message(client, "Logging in");
                        LoginState::Authenticating(LoginKind::Password)
                    },
                },
                LoginKind::Token => {
                    set_info_message(client, "Logging in with token");
                    LoginState::Authenticating(LoginKind::Token)
                },
            },
            _ => state,
        },
        LoginState::Registering => match event {
            LoginEvent::DeviceRenamed => {
                set_info_message(client, "Logging in");
                LoginState::Authenticating(LoginKind::Password)
            },
            _ => state,
        },
        LoginState::Authenticating(kind) => match event {
            LoginEvent::LoginFailed { reason } => {
                let error = match kind {
                    LoginKind::Password => message("Failed to login: ", reason.as_str()),
                    LoginKind::Token => message("Failed to login with token: ", reason.as_str()),
                };
                set_error_message(client, error.as_str());
                set_loading(client, false);
                LoginState::Finished(false)
            },
            LoginEvent::LoggedIn { token } => {
                if token && kind == LoginKind::Password {
                    LoginState::Saving
                } else {
                    set_info_message(client, "Syncing with server");
                    LoginState::Syncing
                }
            },
            _ => state,
        },
        LoginState::Saving => match event {
            LoginEvent::Saved => {
                set_info_message(client, "Syncing with server");
                LoginState::Syncing
            },
            LoginEvent::SaveFailed { reason } => {
                let error = message("Error creating save file: ", reason.as_str());
                set_error_message(client, error.as_str());
                set_info_message(client, "Syncing with server");
                LoginState::Syncing
            },
            _ => state,
        },
        LoginState::Syncing => match event {
            LoginEvent::Synced => {
                set_connected(client, true);
                set_loading(client, false);
                LoginState::Finished(true)
            },
            LoginEvent::SyncFailed { reason } => {
                let error = message("Failed to sync with server: ", reason.as_str());
                set_error_message(client, error.as_str());
                set_loading(client, false);
                LoginState::Finished(true)
            },
            _ => state,
        },
        LoginState::Finished(_) => state,
    }
}

} // verus!
