//! Analytics event rows: the flat record stored for each client event, and
//! how an event fills it.

use vstd::prelude::*;

use crate::clock::now_millis;
use crate::decimal::{decimal_value, i64_to_decimal, int_decimal, lemma_int_decimal_reads_back};
use crate::error::AppError;
use crate::pb::{
    exit_code_name, exit_code_of, AnalyticsEvent, AppExitEvent, AppStartEvent, ChatCreatedEvent,
    ChatJoinedEvent, ChatLeftEvent, EventContext, EventType, GeoLocation, MessageSentEvent,
    NavigationEvent, UserLoginEvent, UserLogoutEvent, UserRegisterEvent,
};

verus! {

/// The text of an optional string.
pub open spec fn opt_text(o: Option<String>) -> Option<Seq<char>> {
    match o {
        Some(s) => Some(s@),
        None => None,
    }
}

/// One stored analytics event: the client context, the event kind, and the
/// fields of that kind (the fields of the other kinds stay empty).
#[derive(Debug, Clone)]
pub struct AnalyticsEventRow {
    // EventContext fields
    pub client_id: String,
    pub session_id: String,
    pub app_version: String,
    pub system_os: String,
    pub system_arch: String,
    pub system_locale: String,
    pub system_timezone: String,
    pub user_id: Option<String>,
    pub ip: Option<String>,
    pub user_agent: Option<String>,
    pub geo_country: Option<String>,
    pub geo_region: Option<String>,
    pub geo_city: Option<String>,
    pub client_ts: i64,
    pub server_ts: i64,
    // Common fields
    pub event_type: String,
    // AppExitEvent fields
    pub exit_code: Option<String>,
    // UserLoginEvent
    pub login_email: Option<String>,
    // UserLogoutEvent
    pub logout_email: Option<String>,
    // UserRegisterEvent
    pub register_email: Option<String>,
    pub register_workspace_id: Option<String>,
    // ChatCreatedEvent
    pub chat_created_workspace_id: Option<String>,
    // MessageSentEvent
    pub message_chat_id: Option<String>,
    pub message_type: Option<String>,
    pub message_size: Option<i32>,
    pub message_total_files: Option<i32>,
    // ChatJoinedEvent
    pub chat_joined_id: Option<String>,
    // ChatLeftEvent
    pub chat_left_id: Option<String>,
    // NavigationEvent
    pub navigation_from: Option<String>,
    pub navigation_to: Option<String>,
}

/// The contents of a row, with each string taken as its characters.
#[verifier::ext_equal]
pub struct RowView {
    pub client_id: Seq<char>,
    pub session_id: Seq<char>,
    pub app_version: Seq<char>,
    pub system_os: Seq<char>,
    pub system_arch: Seq<char>,
    pub system_locale: Seq<char>,
    pub system_timezone: Seq<char>,
    pub user_id: Option<Seq<char>>,
    pub ip: Option<Seq<char>>,
    pub user_agent: Option<Seq<char>>,
    pub geo_country: Option<Seq<char>>,
    pub geo_region: Option<Seq<char>>,
    pub geo_city: Option<Seq<char>>,
    pub client_ts: i64,
    pub server_ts: i64,
    pub event_type: Seq<char>,
    pub exit_code: Option<Seq<char>>,
    pub login_email: Option<Seq<char>>,
    pub logout_email: Option<Seq<char>>,
    pub register_email: Option<Seq<char>>,
    pub register_workspace_id: Option<Seq<char>>,
    pub chat_created_workspace_id: Option<Seq<char>>,
    pub message_chat_id: Option<Seq<char>>,
    pub message_type: Option<Seq<char>>,
    pub message_size: Option<i32>,
    pub message_total_files: Option<i32>,
    pub chat_joined_id: Option<Seq<char>>,
    pub chat_left_id: Option<Seq<char>>,
    pub navigation_from: Option<Seq<char>>,
    pub navigation_to: Option<Seq<char>>,
}

impl View for AnalyticsEventRow {
    type V = RowView;

    open spec fn view(&self) -> RowView {
        RowView {
            client_id: self.client_id@,
            session_id: self.session_id@,
            app_version: self.app_version@,
            system_os: self.system_os@,
            system_arch: self.system_arch@,
            system_locale: self.system_locale@,
            system_timezone: self.system_timezone@,
            user_id: opt_text(self.user_id),
            ip: opt_text(self.ip),
            user_agent: opt_text(self.user_agent),
            geo_country: opt_text(self.geo_country),
            geo_region: opt_text(self.geo_region),
            geo_city: opt_text(self.geo_city),
            client_ts: self.client_ts,
            server_ts: self.server_ts,
            event_type: self.event_type@,
            exit_code: opt_text(self.exit_code),
            login_email: opt_text(self.login_email),
            logout_email: opt_text(self.logout_email),
            register_email: opt_text(self.register_email),
            register_workspace_id: opt_text(self.register_workspace_id),
            chat_created_workspace_id: opt_text(self.chat_created_workspace_id),
            message_chat_id: opt_text(self.message_chat_id),
            message_type: opt_text(self.message_type),
            message_size: self.message_size,
            message_total_files: self.message_total_files,
            chat_joined_id: opt_text(self.chat_joined_id),
            chat_left_id: opt_text(self.chat_left_id),
            navigation_from: opt_text(self.navigation_from),
            navigation_to: opt_text(self.navigation_to),
        }
    }
}

/// The empty row: empty strings, absent optional fields, zero timestamps.
pub open spec fn empty_row() -> RowView {
    RowView {
        client_id: Seq::empty(),
        session_id: Seq::empty(),
        app_version: Seq::empty(),
        system_os: Seq::empty(),
        system_arch: Seq::empty(),
        system_locale: Seq::empty(),
        system_timezone: Seq::empty(),
        user_id: None,
        ip: None,
        user_agent: None,
        geo_country: None,
        geo_region: None,
        geo_city: None,
        client_ts: 0,
        server_ts: 0,
        event_type: Seq::empty(),
        exit_code: None,
        login_email: None,
        logout_email: None,
        register_email: None,
        register_workspace_id: None,
        chat_created_workspace_id: None,
        message_chat_id: None,
        message_type: None,
        message_size: None,
        message_total_files: None,
        chat_joined_id: None,
        chat_left_id: None,
        navigation_from: None,
        navigation_to: None,
    }
}

impl Default for AnalyticsEventRow {
    fn default() -> (row: Self)
        ensures
            row@ == empty_row(),
    {
        AnalyticsEventRow {
            client_id: String::new(),
            session_id: String::new(),
            app_version: String::new(),
            system_os: String::new(),
            system_arch: String::new(),
            system_locale: String::new(),
            system_timezone: String::new(),
            user_id: None,
            ip: None,
            user_agent: None,
            geo_country: None,
            geo_region: None,
            geo_city: None,
            client_ts: 0,
            server_ts: 0,
            event_type: String::new(),
            exit_code: None,
            login_email: None,
            logout_email: None,
            register_email: None,
            register_workspace_id: None,
            chat_created_workspace_id: None,
            message_chat_id: None,
            message_type: None,
            message_size: None,
            message_total_files: None,
            chat_joined_id: None,
            chat_left_id: None,
            navigation_from: None,
            navigation_to: None,
        }
    }
}

/// The kinds of event a row can record, by their stored names.
#[derive(Debug, Clone, Copy, PartialEq, Eq, Structural)]
pub enum EventTypeRow {
    AppStart,
    AppExit,
    UserLogin,
    UserLogout,
    UserRegister,
    ChatCreated,
    MessageSent,
    ChatJoined,
    ChatLeft,
    Navigation,
    Unspecified,
}

impl Default for EventTypeRow {
    fn default() -> (kind: Self)
        ensures
            kind == EventTypeRow::Unspecified,
    {
        EventTypeRow::Unspecified
    }
}

/// How an application exit is recorded.
#[derive(Debug, Clone, Copy, PartialEq, Eq, Structural)]
pub enum ExitCodeRow {
    Unspecified,
    Success,
    Failure,
}

impl Default for ExitCodeRow {
    fn default() -> (code: Self)
        ensures
            code == ExitCodeRow::Unspecified,
    {
        ExitCodeRow::Unspecified
    }
}

/// A text field is recorded only when it is not empty.
pub open spec fn non_empty(s: Seq<char>) -> Option<Seq<char>> {
    if s.len() == 0 {
        None
    } else {
        Some(s)
    }
}

/// The row after the context of an event is written into it, and whether
/// the context was complete. The client id and app version are written
/// before the system information is checked.
pub open spec fn apply_context(r: RowView, c: EventContext) -> (RowView, Result<(), AppError>) {
    let r1 = RowView { client_id: c.client_id@, app_version: c.app_version@, ..r };
    match c.system {
        None => (r1, Err(AppError::MissingSystemInfo)),
        Some(s) => {
            let r2 = RowView {
                system_os: s.os@,
                system_arch: s.arch@,
                system_locale: s.locale@,
                system_timezone: s.timezone@,
                user_id: if c.user_id@.len() == 0 { r1.user_id } else { Some(c.user_id@) },
                ip: if c.ip@.len() == 0 { r1.ip } else { Some(c.ip@) },
                user_agent: if c.user_agent@.len() == 0 { r1.user_agent } else { Some(c.user_agent@) },
                client_ts: c.client_ts,
                server_ts: c.server_ts,
                ..r1
            };
            match c.geo {
                Some(g) => (RowView {
                    geo_country: Some(g.country@),
                    geo_region: Some(g.region@),
                    geo_city: Some(g.city@),
                    ..r2
                }, Ok(())),
                None => (r2, Ok(())),
            }
        },
    }
}

/// The stored name of each kind of event.
pub open spec fn event_type_name(e: EventType) -> Seq<char> {
    match e {
        EventType::AppStart(_) => "app_start"@,
        EventType::AppExit(_) => "app_exit"@,
        EventType::UserLogin(_) => "user_login"@,
        EventType::UserLogout(_) => "user_logout"@,
        EventType::UserRegister(_) => "user_register"@,
        EventType::ChatCreated(_) => "chat_created"@,
        EventType::MessageSent(_) => "message_sent"@,
        EventType::ChatJoined(_) => "chat_joined"@,
        EventType::ChatLeft(_) => "chat_left"@,
        EventType::Navigation(_) => "navigation"@,
    }
}

/// The row after an event payload is written into it: its kind's name and
/// that kind's own fields; nothing else changes.
pub open spec fn apply_event(r: RowView, e: EventType) -> RowView {
    let r1 = RowView { event_type: event_type_name(e), ..r };
    match e {
        EventType::AppStart(_) => r1,
        EventType::AppExit(ev) => RowView {
            exit_code: Some(exit_code_name(exit_code_of(ev.exit_code))),
            ..r1
        },
        EventType::UserLogin(ev) => RowView { login_email: Some(ev.email@), ..r1 },
        EventType::UserLogout(ev) => RowView { logout_email: Some(ev.email@), ..r1 },
        EventType::UserRegister(ev) => RowView {
            register_email: Some(ev.email@),
            register_workspace_id: Some(ev.workspace_id@),
            ..r1
        },
        EventType::ChatCreated(ev) => RowView {
            chat_created_workspace_id: Some(ev.workspace_id@),
            ..r1
        },
        EventType::MessageSent(ev) => RowView {
            message_chat_id: Some(ev.chat_id@),
            message_type: Some(ev.message_type@),
            message_size: Some(ev.size),
            ..r1
        },
        EventType::ChatJoined(ev) => RowView { chat_joined_id: Some(ev.chat_id@), ..r1 },
        EventType::ChatLeft(ev) => RowView { chat_left_id: Some(ev.chat_id@), ..r1 },
        EventType::Navigation(ev) => RowView {
            navigation_from: Some(ev.from@),
            navigation_to: Some(ev.to@),
            ..r1
        },
    }
}

/// The row that an event becomes, or why it cannot become one: a missing
/// context first, then missing system information, then a missing payload.
pub open spec fn row_of_event(e: AnalyticsEvent) -> Result<RowView, AppError> {
    match e.context {
        None => Err(AppError::MissingEventContext),
        Some(c) => match apply_context(empty_row(), c) {
            (_, Err(err)) => Err(err),
            (r, Ok(())) => match e.event_type {
                None => Err(AppError::MissingEventData),
                Some(t) => Ok(apply_event(r, t)),
            },
        },
    }
}

/// A part of an event that writes itself into a row.
pub trait EventConsume: Sized {
    /// The row after this part is written into `row`, and the outcome.
    spec fn consume_spec(self, row: RowView) -> (RowView, Result<(), AppError>);

    /// Writes this part into `row`.
    fn consume(self, row: &mut AnalyticsEventRow) -> (res: Result<(), AppError>)
        ensures
            (final(row)@, res) == self.consume_spec(old(row)@),
    ;
}

impl EventConsume for EventContext {
    open spec fn consume_spec(self, row: RowView) -> (RowView, Result<(), AppError>) {
        apply_context(row, self)
    }

    fn consume(self, row: &mut AnalyticsEventRow) -> (res: Result<(), AppError>) {
        row.client_id = self.client_id;
        row.app_version = self.app_version;

        if let Some(system) = self.system {
            row.system_os = system.os;
            row.system_arch = system.arch;
            row.system_locale = system.locale;
            row.system_timezone = system.timezone;
        } else {
            return Err(AppError::MissingSystemInfo);
        }

        if !self.user_id.as_str().is_empty() {
            row.user_id = Some(self.user_id);
        }

        if !self.ip.as_str().is_empty() {
            row.ip = Some(self.ip);
        }

        if !self.user_agent.as_str().is_empty() {
            row.user_agent = Some(self.user_agent);
        }

        if let Some(geo) = self.geo {
            row.geo_country = Some(geo.country);
            row.geo_region = Some(geo.region);
            row.geo_city = Some(geo.city);
        }

        row.client_ts = self.client_ts;
        row.server_ts = self.server_ts;
        Ok(())
    }
}

impl EventConsume for EventType {
    open spec fn consume_spec(self, row: RowView) -> (RowView, Result<(), AppError>) {
        (apply_event(row, self), Ok(()))
    }

    fn consume(self, row: &mut AnalyticsEventRow) -> (res: Result<(), AppError>) {
        match self {
            EventType::AppStart(event) => event.consume(row),
            EventType::AppExit(event) => event.consume(row),
            EventType::UserLogin(event) => event.consume(row),
            EventType::UserLogout(event) => event.consume(row),
            EventType::UserRegister(event) => event.consume(row),
            EventType::ChatCreated(event) => event.consume(row),
            EventType::MessageSent(event) => event.consume(row),
            EventType::ChatJoined(event) => event.consume(row),
            EventType::ChatLeft(event) => event.consume(row),
            EventType::Navigation(event) => event.consume(row),
        }
    }
}

impl EventConsume for AppStartEvent {
    open spec fn consume_spec(self, row: RowView) -> (RowView, Result<(), AppError>) {
        (apply_event(row, EventType::AppStart(self)), Ok(()))
    }

    fn consume(self, row: &mut AnalyticsEventRow) -> (res: Result<(), AppError>) {
        row.event_type = String::from_str("app_start");
        Ok(())
    }
}

impl EventConsume for AppExitEvent {
    open spec fn consume_spec(self, row: RowView) -> (RowView, Result<(), AppError>) {
        (apply_event(row, EventType::AppExit(self)), Ok(()))
    }

    fn consume(self, row: &mut AnalyticsEventRow) -> (res: Result<(), AppError>) {
        row.event_type = String::from_str("app_exit");
        row.exit_code = Some(String::from_str(self.exit_code().as_str_name()));
        Ok(())
    }
}

impl EventConsume for UserLoginEvent {
    open spec fn consume_spec(self, row: RowView) -> (RowView, Result<(), AppError>) {
        (apply_event(row, EventType::UserLogin(self)), Ok(()))
    }

    fn consume(self, row: &mut AnalyticsEventRow) -> (res: Result<(), AppError>) {
        row.event_type = String::from_str("user_login");
        row.login_email = Some(self.email);
        Ok(())
    }
}

impl EventConsume for UserLogoutEvent {
    open spec fn consume_spec(self, row: RowView) -> (RowView, Result<(), AppError>) {
        (apply_event(row, EventType::UserLogout(self)), Ok(()))
    }

    fn consume(self, row: &mut AnalyticsEventRow) -> (res: Result<(), AppError>) {
        row.event_type = String::from_str("user_logout");
        row.logout_email = Some(self.email);
        Ok(())
    }
}

impl EventConsume for UserRegisterEvent {
    open spec fn consume_spec(self, row: RowView) -> (RowView, Result<(), AppError>) {
        (apply_event(row, EventType::UserRegister(self)), Ok(()))
    }

    fn consume(self, row: &mut AnalyticsEventRow) -> (res: Result<(), AppError>) {
        row.event_type = String::from_str("user_register");
        row.register_email = Some(self.email);
        row.register_workspace_id = Some(self.workspace_id);
        Ok(())
    }
}

impl EventConsume for ChatCreatedEvent {
    open spec fn consume_spec(self, row: RowView) -> (RowView, Result<(), AppError>) {
        (apply_event(row, EventType::ChatCreated(self)), Ok(()))
    }

    fn consume(self, row: &mut AnalyticsEventRow) -> (res: Result<(), AppError>) {
        row.event_type = String::from_str("chat_created");
        row.chat_created_workspace_id = Some(self.workspace_id);
        Ok(())
    }
}

impl EventConsume for MessageSentEvent {
    open spec fn consume_spec(self, row: RowView) -> (RowView, Result<(), AppError>) {
        (apply_event(row, EventType::MessageSent(self)), Ok(()))
    }

    fn consume(self, row: &mut AnalyticsEventRow) -> (res: Result<(), AppError>) {
        row.event_type = String::from_str("message_sent");
        row.message_chat_id = Some(self.chat_id);
        row.message_type = Some(self.message_type);
        row.message_size = Some(self.size);
        Ok(())
    }
}

impl EventConsume for ChatJoinedEvent {
    open spec fn consume_spec(self, row: RowView) -> (RowView, Result<(), AppError>) {
        (apply_event(row, EventType::ChatJoined(self)), Ok(()))
    }

    fn consume(self, row: &mut AnalyticsEventRow) -> (res: Result<(), AppError>) {
        row.event_type = String::from_str("chat_joined");
        row.chat_joined_id = Some(self.chat_id);
        Ok(())
    }
}

impl EventConsume for ChatLeftEvent {
    open spec fn consume_spec(self, row: RowView) -> (RowView, Result<(), AppError>) {
        (apply_event(row, EventType::ChatLeft(self)), Ok(()))
    }

    fn consume(self, row: &mut AnalyticsEventRow) -> (res: Result<(), AppError>) {
        row.event_type = String::from_str("chat_left");
        row.chat_left_id = Some(self.chat_id);
        Ok(())
    }
}

impl EventConsume for NavigationEvent {
    open spec fn consume_spec(self, row: RowView) -> (RowView, Result<(), AppError>) {
        (apply_event(row, EventType::Navigation(self)), Ok(()))
    }

    fn consume(self, row: &mut AnalyticsEventRow) -> (res: Result<(), AppError>) {
        row.event_type = String::from_str("navigation");
        row.navigation_from = Some(self.from);
        row.navigation_to = Some(self.to);
        Ok(())
    }
}

impl AnalyticsEventRow {
    /// Turns a client event into a row: the context first, then the payload.
    pub fn try_from(value: AnalyticsEvent) -> (res: Result<AnalyticsEventRow, AppError>)
        ensures
            match row_of_event(value) {
                Ok(r) => res matches Ok(row) && row@ == r,
                Err(e) => res == Err::<AnalyticsEventRow, AppError>(e),
            },
            res is Ok <==> (value.context is Some && value.context->0.system is Some
                && value.event_type is Some),
            value.context is None ==> res == Err::<AnalyticsEventRow, AppError>(
                AppError::MissingEventContext,
            ),
            value.context matches Some(c) && c.system is None ==> res == Err::<
                AnalyticsEventRow,
                AppError,
            >(AppError::MissingSystemInfo),
            value.context matches Some(c) && c.system is Some && value.event_type is None ==> res
                == Err::<AnalyticsEventRow, AppError>(AppError::MissingEventData),
    {
        let mut ret = AnalyticsEventRow::default();
        match value.context {
            Some(context) => {
                let r = context.consume(&mut ret);
                match r {
                    Ok(()) => {},
                    Err(e) => return Err(e),
                }
            },
            None => return Err(AppError::MissingEventContext),
        }
        match value.event_type {
            Some(event_type) => {
                let r = event_type.consume(&mut ret);
                match r {
                    Ok(()) => {},
                    Err(e) => return Err(e),
                }
            },
            None => return Err(AppError::MissingEventData),
        }
        Ok(ret)
    }
}


/// The row after the server's own knowledge is written into it: the
/// authenticated user (replacing any user the client claimed), the server's
/// geo lookup (replacing any location the client claimed), and the time the
/// server received the event.
pub open spec fn apply_server_info(
    r: RowView,
    user_id: Option<i64>,
    geo: Option<GeoLocation>,
    now_ms: i64,
) -> RowView {
    RowView {
        user_id: match user_id {
            Some(id) => Some(int_decimal(id as int)),
            None => None,
        },
        geo_country: match geo {
            Some(g) => Some(g.country@),
            None => None,
        },
        geo_region: match geo {
            Some(g) => Some(g.region@),
            None => None,
        },
        geo_city: match geo {
            Some(g) => Some(g.city@),
            None => None,
        },
        server_ts: now_ms,
        ..r
    }
}

impl AnalyticsEventRow {
    /// Writes the authenticated user's id (in decimal), the server's geo
    /// lookup and the receive time `now_ms` into the row.
    pub fn update_with_server_info_at(
        &mut self,
        user_id: Option<i64>,
        geo: Option<GeoLocation>,
        now_ms: i64,
    )
        ensures
            final(self)@ == apply_server_info(old(self)@, user_id, geo, now_ms),
            user_id matches Some(id) ==> final(self)@.user_id == Some(int_decimal(id as int)),
            user_id matches Some(id) ==> decimal_value(final(self)@.user_id->0) == id,
            user_id is None ==> final(self)@.user_id is None,
            geo matches Some(g) ==> final(self)@.geo_country == Some(g.country@),
            geo matches Some(g) ==> final(self)@.geo_region == Some(g.region@),
            geo matches Some(g) ==> final(self)@.geo_city == Some(g.city@),
            geo is None ==> final(self)@.geo_country is None && final(self)@.geo_region is None
                && final(self)@.geo_city is None,
            final(self)@.server_ts == now_ms,
    {
        proof {
            if let Some(id) = user_id {
                lemma_int_decimal_reads_back(id as int);
            }
        }
        if let Some(id) = user_id {
            self.user_id = Some(i64_to_decimal(id));
        } else {
            self.user_id = None;
        }

        if let Some(geo) = geo {
            self.geo_country = Some(geo.country);
            self.geo_city = Some(geo.city);
            self.geo_region = Some(geo.region);
        } else {
            self.geo_country = None;
            self.geo_city = None;
            self.geo_region = None;
        }

        self.server_ts = now_ms;
    }

    /// Writes the authenticated user's id, the server's geo lookup and the
    /// current time (read from the clock) into the row.
    pub fn update_with_server_info(&mut self, user_id: Option<i64>, geo: Option<GeoLocation>)
        ensures
            exists|now_ms: i64|
                now_ms >= 0 && final(self)@ == apply_server_info(old(self)@, user_id, geo, now_ms),
    {
        let now_ms = now_millis();
        self.update_with_server_info_at(user_id, geo, now_ms);
    }
}


/// The row stored for an incoming event: the event's own row, completed
/// with the authenticated user, the server's geo lookup and the time the
/// server read from its clock; or why the event has no row.
pub fn create_event_row(
    event: AnalyticsEvent,
    user_id: Option<i64>,
    geo: Option<GeoLocation>,
) -> (res: Result<AnalyticsEventRow, AppError>)
    ensures
        match row_of_event(event) {
            Ok(r) => res matches Ok(row) && exists|now_ms: i64|
                now_ms >= 0 && row@ == apply_server_info(r, user_id, geo, now_ms),
            Err(e) => res == Err::<AnalyticsEventRow, AppError>(e),
        },
{
    let mut row = match AnalyticsEventRow::try_from(event) {
        Ok(row) => row,
        Err(e) => return Err(e),
    };
    row.update_with_server_info(user_id, geo);
    Ok(row)
}

/// A row made from an event records the event's kind by its name, holds the
/// fields of that kind and leaves the fields of every other kind empty; it
/// never records a message's file count, and its session is not yet set.
pub proof fn lemma_row_holds_only_its_event_fields(e: AnalyticsEvent)
    requires
        row_of_event(e) is Ok,
    ensures
        ({
            let r = row_of_event(e)->Ok_0;
            let t = e.event_type->0;
            &&& r.event_type == event_type_name(t)
            &&& (r.exit_code is Some <==> t is AppExit)
            &&& (r.login_email is Some <==> t is UserLogin)
            &&& (r.logout_email is Some <==> t is UserLogout)
            &&& (r.register_email is Some <==> t is UserRegister)
            &&& (r.register_workspace_id is Some <==> t is UserRegister)
            &&& (r.chat_created_workspace_id is Some <==> t is ChatCreated)
            &&& (r.message_chat_id is Some <==> t is MessageSent)
            &&& (r.message_type is Some <==> t is MessageSent)
            &&& (r.message_size is Some <==> t is MessageSent)
            &&& (r.chat_joined_id is Some <==> t is ChatJoined)
            &&& (r.chat_left_id is Some <==> t is ChatLeft)
            &&& (r.navigation_from is Some <==> t is Navigation)
            &&& (r.navigation_to is Some <==> t is Navigation)
            &&& r.message_total_files is None
            &&& r.session_id == Seq::<char>::empty()
            &&& (t is AppStart ==> r.event_type == "app_start"@)
            &&& (t matches EventType::AppExit(ev) ==> r.event_type == "app_exit"@
                && r.exit_code == Some(
                if ev.exit_code == 1 {
                    "EXIT_CODE_SUCCESS"@
                } else if ev.exit_code == 2 {
                    "EXIT_CODE_FAILURE"@
                } else {
                    "EXIT_CODE_UNSPECIFIED"@
                },
            ))
            &&& (t matches EventType::UserLogin(ev) ==> r.event_type == "user_login"@
                && r.login_email == Some(ev.email@))
            &&& (t matches EventType::UserLogout(ev) ==> r.event_type == "user_logout"@
                && r.logout_email == Some(ev.email@))
            &&& (t matches EventType::UserRegister(ev) ==> r.event_type == "user_register"@
                && r.register_email == Some(ev.email@) && r.register_workspace_id == Some(
                ev.workspace_id@,
            ))
            &&& (t matches EventType::ChatCreated(ev) ==> r.event_type == "chat_created"@
                && r.chat_created_workspace_id == Some(ev.workspace_id@))
            &&& (t matches EventType::MessageSent(ev) ==> r.event_type == "message_sent"@
                && r.message_chat_id == Some(ev.chat_id@) && r.message_type == Some(
                ev.message_type@,
            ) && r.message_size == Some(ev.size))
            &&& (t matches EventType::ChatJoined(ev) ==> r.event_type == "chat_joined"@
                && r.chat_joined_id == Some(ev.chat_id@))
            &&& (t matches EventType::ChatLeft(ev) ==> r.event_type == "chat_left"@
                && r.chat_left_id == Some(ev.chat_id@))
            &&& (t matches EventType::Navigation(ev) ==> r.event_type == "navigation"@
                && r.navigation_from == Some(ev.from@) && r.navigation_to == Some(ev.to@))
        }),
{
}

/// Writing an event payload into any row sets the row's kind name and the
/// payload's own fields to exactly the payload's values, and changes no
/// other field.
pub proof fn lemma_payload_fields_written_unchanged(r: RowView, t: EventType)
    ensures
        ({
            let r2 = apply_event(r, t);
            &&& match t {
                EventType::AppStart(_) => r2.event_type == "app_start"@
                    && RowView { event_type: r.event_type, ..r2 } == r,
                EventType::AppExit(ev) => r2.event_type == "app_exit"@ && r2.exit_code == Some(
                    if ev.exit_code == 1 {
                        "EXIT_CODE_SUCCESS"@
                    } else if ev.exit_code == 2 {
                        "EXIT_CODE_FAILURE"@
                    } else {
                        "EXIT_CODE_UNSPECIFIED"@
                    },
                ) && RowView { event_type: r.event_type, exit_code: r.exit_code, ..r2 } == r,
                EventType::UserLogin(ev) => r2.event_type == "user_login"@ && r2.login_email
                    == Some(ev.email@) && RowView {
                    event_type: r.event_type,
                    login_email: r.login_email,
                    ..r2
                } == r,
                EventType::UserLogout(ev) => r2.event_type == "user_logout"@ && r2.logout_email
                    == Some(ev.email@) && RowView {
                    event_type: r.event_type,
                    logout_email: r.logout_email,
                    ..r2
                } == r,
                EventType::UserRegister(ev) => r2.event_type == "user_register"@
                    && r2.register_email == Some(ev.email@) && r2.register_workspace_id == Some(
                    ev.workspace_id@,
                ) && RowView {
                    event_type: r.event_type,
                    register_email: r.register_email,
                    register_workspace_id: r.register_workspace_id,
                    ..r2
                } == r,
                EventType::ChatCreated(ev) => r2.event_type == "chat_created"@
                    && r2.chat_created_workspace_id == Some(ev.workspace_id@) && RowView {
                    event_type: r.event_type,
                    chat_created_workspace_id: r.chat_created_workspace_id,
                    ..r2
                } == r,
                EventType::MessageSent(ev) => r2.event_type == "message_sent"@
                    && r2.message_chat_id == Some(ev.chat_id@) && r2.message_type == Some(
                    ev.message_type@,
                ) && r2.message_size == Some(ev.size) && RowView {
                    event_type: r.event_type,
                    message_chat_id: r.message_chat_id,
                    message_type: r.message_type,
                    message_size: r.message_size,
                    ..r2
                } == r,
                EventType::ChatJoined(ev) => r2.event_type == "chat_joined"@ && r2.chat_joined_id
                    == Some(ev.chat_id@) && RowView {
                    event_type: r.event_type,
                    chat_joined_id: r.chat_joined_id,
                    ..r2
                } == r,
                EventType::ChatLeft(ev) => r2.event_type == "chat_left"@ && r2.chat_left_id
                    == Some(ev.chat_id@) && RowView {
                    event_type: r.event_type,
                    chat_left_id: r.chat_left_id,
                    ..r2
                } == r,
                EventType::Navigation(ev) => r2.event_type == "navigation"@ && r2.navigation_from
                    == Some(ev.from@) && r2.navigation_to == Some(ev.to@) && RowView {
                    event_type: r.event_type,
                    navigation_from: r.navigation_from,
                    navigation_to: r.navigation_to,
                    ..r2
                } == r,
            }
        }),
{
}

/// Writing an event context into any row copies the client id and version
/// unchanged; with system information it also copies the system fields and
/// both timestamps unchanged, records the user, address and agent exactly
/// when they are not empty (keeping the row's own otherwise), records the
/// location exactly when there is one, and succeeds; without it, it fails
/// with `MissingSystemInfo` having changed only the client id and version.
pub proof fn lemma_context_fields_written_unchanged(r: RowView, c: EventContext)
    ensures
        ({
            let (r2, res) = apply_context(r, c);
            &&& r2.client_id == c.client_id@
            &&& r2.app_version == c.app_version@
            &&& match c.system {
                None => res == Err::<(), AppError>(AppError::MissingSystemInfo) && RowView {
                    client_id: r.client_id,
                    app_version: r.app_version,
                    ..r2
                } == r,
                Some(sys) => {
                    &&& res is Ok
                    &&& r2.system_os == sys.os@
                    &&& r2.system_arch == sys.arch@
                    &&& r2.system_locale == sys.locale@
                    &&& r2.system_timezone == sys.timezone@
                    &&& r2.client_ts == c.client_ts
                    &&& r2.server_ts == c.server_ts
                    &&& r2.user_id == (if c.user_id@.len() > 0 {
                        Some(c.user_id@)
                    } else {
                        r.user_id
                    })
                    &&& r2.ip == (if c.ip@.len() > 0 {
                        Some(c.ip@)
                    } else {
                        r.ip
                    })
                    &&& r2.user_agent == (if c.user_agent@.len() > 0 {
                        Some(c.user_agent@)
                    } else {
                        r.user_agent
                    })
                    &&& match c.geo {
                        Some(g) => r2.geo_country == Some(g.country@) && r2.geo_region == Some(
                            g.region@,
                        ) && r2.geo_city == Some(g.city@),
                        None => r2.geo_country == r.geo_country && r2.geo_region == r.geo_region
                            && r2.geo_city == r.geo_city,
                    }
                    &&& r2.session_id == r.session_id
                    &&& r2.event_type == r.event_type
                },
            }
        }),
{
}

/// A row made from an event keeps the event's context: client, version,
/// system, timestamps, the client-claimed user, address and agent when they
/// are not empty, and the client-claimed location when there is one.
pub proof fn lemma_row_keeps_event_context(e: AnalyticsEvent)
    requires
        row_of_event(e) is Ok,
    ensures
        ({
            let r = row_of_event(e)->Ok_0;
            let c = e.context->0;
            let s = c.system->0;
            &&& r.client_id == c.client_id@
            &&& r.app_version == c.app_version@
            &&& r.system_os == s.os@
            &&& r.system_arch == s.arch@
            &&& r.system_locale == s.locale@
            &&& r.system_timezone == s.timezone@
            &&& r.user_id == non_empty(c.user_id@)
            &&& (c.user_id@.len() > 0 ==> r.user_id == Some(c.user_id@))
            &&& (c.user_id@.len() == 0 ==> r.user_id is None)
            &&& (c.ip@.len() > 0 ==> r.ip == Some(c.ip@))
            &&& (c.ip@.len() == 0 ==> r.ip is None)
            &&& (c.user_agent@.len() > 0 ==> r.user_agent == Some(c.user_agent@))
            &&& (c.user_agent@.len() == 0 ==> r.user_agent is None)
            &&& r.ip == non_empty(c.ip@)
            &&& r.user_agent == non_empty(c.user_agent@)
            &&& r.geo_country == match c.geo {
                Some(g) => Some(g.country@),
                None => None,
            }
            &&& r.geo_region == match c.geo {
                Some(g) => Some(g.region@),
                None => None,
            }
            &&& r.geo_city == match c.geo {
                Some(g) => Some(g.city@),
                None => None,
            }
            &&& r.client_ts == c.client_ts
            &&& r.server_ts == c.server_ts
        }),
{
}

/// The server's knowledge replaces what the client claimed: after the
/// server information is written, the user and location are exactly the
/// server's and the server time is the receive time, whatever the row held;
/// every other field is unchanged.
pub proof fn lemma_server_info_overrides_client_claims(
    r: RowView,
    user_id: Option<i64>,
    geo: Option<GeoLocation>,
    now_ms: i64,
)
    ensures
        ({
            let r2 = apply_server_info(r, user_id, geo, now_ms);
            &&& (r2.user_id is Some <==> user_id is Some)
            &&& (user_id matches Some(id) ==> r2.user_id == Some(int_decimal(id as int))
                && decimal_value(r2.user_id->0) == id)
            &&& (geo matches Some(g) ==> r2.geo_country == Some(g.country@) && r2.geo_region
                == Some(g.region@) && r2.geo_city == Some(g.city@))
            &&& (r2.geo_country is Some <==> geo is Some)
            &&& (r2.geo_region is Some <==> geo is Some)
            &&& (r2.geo_city is Some <==> geo is Some)
            &&& r2.server_ts == now_ms
            &&& RowView {
                user_id: r.user_id,
                geo_country: r.geo_country,
                geo_region: r.geo_region,
                geo_city: r.geo_city,
                server_ts: r.server_ts,
                ..r2
            } == r
        }),
{
    if let Some(id) = user_id {
        lemma_int_decimal_reads_back(id as int);
    }
}

} // verus!
