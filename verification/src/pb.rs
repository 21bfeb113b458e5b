//! The analytics event messages that clients send, as plain values.

use vstd::prelude::*;

verus! {

/// Where the client is, as reported by the client or a geo lookup.
#[derive(Debug, Default, Clone, PartialEq)]
pub struct GeoLocation {
    pub country: String,
    pub region: String,
    pub city: String,
}

/// The client's operating system and locale.
#[derive(Debug, Default, Clone, PartialEq)]
pub struct SystemInfo {
    pub os: String,
    pub arch: String,
    pub locale: String,
    pub timezone: String,
}

/// What every event carries about the client that sent it.
#[derive(Debug, Default, Clone, PartialEq)]
pub struct EventContext {
    pub client_id: String,
    pub app_version: String,
    pub system: Option<SystemInfo>,
    pub user_id: String,
    pub ip: String,
    pub user_agent: String,
    pub geo: Option<GeoLocation>,
    pub client_ts: i64,
    pub server_ts: i64,
}

/// How the application exited.
#[derive(Debug, Default, Clone, Copy, PartialEq, Eq, Structural)]
pub enum ExitCode {
    #[default]
    Unspecified,
    Success,
    Failure,
}

/// The exit code that a wire value stands for; unknown values read as
/// `Unspecified`.
pub open spec fn exit_code_of(value: i32) -> ExitCode {
    if value == 1 {
        ExitCode::Success
    } else if value == 2 {
        ExitCode::Failure
    } else {
        ExitCode::Unspecified
    }
}

/// The name of an exit code in the message schema.
pub open spec fn exit_code_name(code: ExitCode) -> Seq<char> {
    match code {
        ExitCode::Unspecified => "EXIT_CODE_UNSPECIFIED"@,
        ExitCode::Success => "EXIT_CODE_SUCCESS"@,
        ExitCode::Failure => "EXIT_CODE_FAILURE"@,
    }
}

impl ExitCode {
    /// The exit code that a wire value stands for.
    pub fn from_wire(value: i32) -> (code: ExitCode)
        ensures
            code == exit_code_of(value),
    {
        if value == 1 {
            ExitCode::Success
        } else if value == 2 {
            ExitCode::Failure
        } else {
            ExitCode::Unspecified
        }
    }

    /// The name of this exit code in the message schema.
    pub fn as_str_name(&self) -> (name: &'static str)
        ensures
            name@ == exit_code_name(*self),
    {
        match self {
            ExitCode::Unspecified => "EXIT_CODE_UNSPECIFIED",
            ExitCode::Success => "EXIT_CODE_SUCCESS",
            ExitCode::Failure => "EXIT_CODE_FAILURE",
        }
    }
}

#[derive(Debug, Default, Clone, PartialEq)]
pub struct AppStartEvent {}

#[derive(Debug, Default, Clone, PartialEq)]
pub struct AppExitEvent {
    /// The wire value of the exit code.
    pub exit_code: i32,
}

impl AppExitEvent {
    /// The exit code, with unknown wire values read as `Unspecified`.
    pub fn exit_code(&self) -> (code: ExitCode)
        ensures
            code == exit_code_of(self.exit_code),
    {
        ExitCode::from_wire(self.exit_code)
    }
}

#[derive(Debug, Default, Clone, PartialEq)]
pub struct UserLoginEvent {
    pub email: String,
}

#[derive(Debug, Default, Clone, PartialEq)]
pub struct UserLogoutEvent {
    pub email: String,
}

#[derive(Debug, Default, Clone, PartialEq)]
pub struct UserRegisterEvent {
    pub workspace_id: String,
    pub email: String,
}

#[derive(Debug, Default, Clone, PartialEq)]
pub struct ChatCreatedEvent {
    pub workspace_id: String,
}

#[derive(Debug, Default, Clone, PartialEq)]
pub struct MessageSentEvent {
    pub chat_id: String,
    pub message_type: String,
    pub size: i32,
    pub total_files: i32,
}

#[derive(Debug, Default, Clone, PartialEq)]
pub struct ChatJoinedEvent {
    pub chat_id: String,
}

#[derive(Debug, Default, Clone, PartialEq)]
pub struct ChatLeftEvent {
    pub chat_id: String,
}

#[derive(Debug, Default, Clone, PartialEq)]
pub struct NavigationEvent {
    pub from: String,
    pub to: String,
}

/// The payload of an analytics event: exactly one kind of event.
#[derive(Debug, Clone, PartialEq)]
pub enum EventType {
    AppStart(AppStartEvent),
    AppExit(AppExitEvent),
    UserLogin(UserLoginEvent),
    UserLogout(UserLogoutEvent),
    UserRegister(UserRegisterEvent),
    ChatCreated(ChatCreatedEvent),
    MessageSent(MessageSentEvent),
    ChatJoined(ChatJoinedEvent),
    ChatLeft(ChatLeftEvent),
    Navigation(NavigationEvent),
}

/// An analytics event as a client sends it.
#[derive(Debug, Default, Clone, PartialEq)]
pub struct AnalyticsEvent {
    pub context: Option<EventContext>,
    pub event_type: Option<EventType>,
}

} // verus!
