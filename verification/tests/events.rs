use chat_analytics::error::AppError;
use chat_analytics::events::{AnalyticsEventRow, EventConsume, EventTypeRow, ExitCodeRow};
use chat_analytics::pb::{
    AnalyticsEvent, AppExitEvent, AppStartEvent, ChatCreatedEvent, ChatJoinedEvent,
    ChatLeftEvent, EventContext, EventType, ExitCode, GeoLocation, MessageSentEvent,
    NavigationEvent, SystemInfo, UserLoginEvent, UserLogoutEvent, UserRegisterEvent,
};

fn system() -> SystemInfo {
    SystemInfo {
        os: "macos".to_string(),
        arch: "aarch64".to_string(),
        locale: "en-US".to_string(),
        timezone: "America/Los_Angeles".to_string(),
    }
}

fn context() -> EventContext {
    EventContext {
        client_id: "client-1".to_string(),
        app_version: "1.0.0".to_string(),
        system: Some(system()),
        user_id: "42".to_string(),
        ip: String::new(),
        user_agent: "agent/1".to_string(),
        geo: None,
        client_ts: 1000,
        server_ts: 2000,
    }
}

fn event(t: EventType) -> AnalyticsEvent {
    AnalyticsEvent { context: Some(context()), event_type: Some(t) }
}

fn ok_row(t: EventType) -> AnalyticsEventRow {
    match AnalyticsEventRow::try_from(event(t)) {
        Ok(r) => r,
        Err(e) => panic!("unexpected error {:?}", e),
    }
}

fn assert_no_event_fields(r: &AnalyticsEventRow, except: &str) {
    if except != "app_exit" {
        assert_eq!(r.exit_code, None);
    }
    if except != "user_login" {
        assert_eq!(r.login_email, None);
    }
    if except != "user_logout" {
        assert_eq!(r.logout_email, None);
    }
    if except != "user_register" {
        assert_eq!(r.register_email, None);
        assert_eq!(r.register_workspace_id, None);
    }
    if except != "chat_created" {
        assert_eq!(r.chat_created_workspace_id, None);
    }
    if except != "message_sent" {
        assert_eq!(r.message_chat_id, None);
        assert_eq!(r.message_type, None);
        assert_eq!(r.message_size, None);
    }
    if except != "chat_joined" {
        assert_eq!(r.chat_joined_id, None);
    }
    if except != "chat_left" {
        assert_eq!(r.chat_left_id, None);
    }
    if except != "navigation" {
        assert_eq!(r.navigation_from, None);
        assert_eq!(r.navigation_to, None);
    }
    assert_eq!(r.message_total_files, None);
}

#[test]
fn default_row_is_empty() {
    let r = AnalyticsEventRow::default();
    assert_eq!(r.client_id, "");
    assert_eq!(r.session_id, "");
    assert_eq!(r.event_type, "");
    assert_eq!(r.user_id, None);
    assert_eq!(r.client_ts, 0);
    assert_eq!(r.server_ts, 0);
    assert_eq!(EventTypeRow::default(), EventTypeRow::Unspecified);
    assert_eq!(ExitCodeRow::default(), ExitCodeRow::Unspecified);
}

#[test]
fn context_is_copied_into_row() {
    let r = ok_row(EventType::AppStart(AppStartEvent {}));
    assert_eq!(r.client_id, "client-1");
    assert_eq!(r.app_version, "1.0.0");
    assert_eq!(r.system_os, "macos");
    assert_eq!(r.system_arch, "aarch64");
    assert_eq!(r.system_locale, "en-US");
    assert_eq!(r.system_timezone, "America/Los_Angeles");
    assert_eq!(r.user_id.as_deref(), Some("42"));
    // an empty ip is not recorded
    assert_eq!(r.ip, None);
    assert_eq!(r.user_agent.as_deref(), Some("agent/1"));
    assert_eq!(r.geo_country, None);
    assert_eq!(r.client_ts, 1000);
    assert_eq!(r.server_ts, 2000);
    assert_eq!(r.session_id, "");
    assert_eq!(r.event_type, "app_start");
    assert_no_event_fields(&r, "app_start");
}

#[test]
fn client_geo_is_copied_into_row() {
    let mut ctx = context();
    ctx.geo = Some(GeoLocation {
        country: "US".to_string(),
        region: "CA".to_string(),
        city: "San Francisco".to_string(),
    });
    ctx.ip = "10.0.0.1".to_string();
    let r = AnalyticsEventRow::try_from(AnalyticsEvent {
        context: Some(ctx),
        event_type: Some(EventType::AppStart(AppStartEvent {})),
    })
    .ok()
    .unwrap();
    assert_eq!(r.geo_country.as_deref(), Some("US"));
    assert_eq!(r.geo_region.as_deref(), Some("CA"));
    assert_eq!(r.geo_city.as_deref(), Some("San Francisco"));
    assert_eq!(r.ip.as_deref(), Some("10.0.0.1"));
}

#[test]
fn app_exit_records_exit_code_name() {
    let r = ok_row(EventType::AppExit(AppExitEvent { exit_code: 1 }));
    assert_eq!(r.event_type, "app_exit");
    assert_eq!(r.exit_code.as_deref(), Some("EXIT_CODE_SUCCESS"));
    assert_no_event_fields(&r, "app_exit");
    let r = ok_row(EventType::AppExit(AppExitEvent { exit_code: 2 }));
    assert_eq!(r.exit_code.as_deref(), Some("EXIT_CODE_FAILURE"));
    let r = ok_row(EventType::AppExit(AppExitEvent { exit_code: 0 }));
    assert_eq!(r.exit_code.as_deref(), Some("EXIT_CODE_UNSPECIFIED"));
    // unknown wire values read as unspecified
    let r = ok_row(EventType::AppExit(AppExitEvent { exit_code: 7 }));
    assert_eq!(r.exit_code.as_deref(), Some("EXIT_CODE_UNSPECIFIED"));
}

#[test]
fn exit_code_getter_and_names() {
    assert_eq!(AppExitEvent { exit_code: 2 }.exit_code(), ExitCode::Failure);
    assert_eq!(AppExitEvent { exit_code: -1 }.exit_code(), ExitCode::Unspecified);
    assert_eq!(ExitCode::Success.as_str_name(), "EXIT_CODE_SUCCESS");
}

#[test]
fn user_events_record_their_fields() {
    let r = ok_row(EventType::UserLogin(UserLoginEvent { email: "a@b.c".to_string() }));
    assert_eq!(r.event_type, "user_login");
    assert_eq!(r.login_email.as_deref(), Some("a@b.c"));
    assert_no_event_fields(&r, "user_login");

    let r = ok_row(EventType::UserLogout(UserLogoutEvent { email: "a@b.c".to_string() }));
    assert_eq!(r.event_type, "user_logout");
    assert_eq!(r.logout_email.as_deref(), Some("a@b.c"));
    assert_no_event_fields(&r, "user_logout");

    let r = ok_row(EventType::UserRegister(UserRegisterEvent {
        workspace_id: "ws-1".to_string(),
        email: "new@b.c".to_string(),
    }));
    assert_eq!(r.event_type, "user_register");
    assert_eq!(r.register_email.as_deref(), Some("new@b.c"));
    assert_eq!(r.register_workspace_id.as_deref(), Some("ws-1"));
    assert_no_event_fields(&r, "user_register");
}

#[test]
fn chat_events_record_their_fields() {
    let r = ok_row(EventType::ChatCreated(ChatCreatedEvent { workspace_id: "ws-9".to_string() }));
    assert_eq!(r.event_type, "chat_created");
    assert_eq!(r.chat_created_workspace_id.as_deref(), Some("ws-9"));
    assert_no_event_fields(&r, "chat_created");

    let r = ok_row(EventType::MessageSent(MessageSentEvent {
        chat_id: "c-1".to_string(),
        message_type: "text".to_string(),
        size: 128,
        total_files: 3,
    }));
    assert_eq!(r.event_type, "message_sent");
    assert_eq!(r.message_chat_id.as_deref(), Some("c-1"));
    assert_eq!(r.message_type.as_deref(), Some("text"));
    assert_eq!(r.message_size, Some(128));
    // the file count is not recorded
    assert_eq!(r.message_total_files, None);
    assert_no_event_fields(&r, "message_sent");

    let r = ok_row(EventType::ChatJoined(ChatJoinedEvent { chat_id: "c-2".to_string() }));
    assert_eq!(r.event_type, "chat_joined");
    assert_eq!(r.chat_joined_id.as_deref(), Some("c-2"));
    assert_no_event_fields(&r, "chat_joined");

    let r = ok_row(EventType::ChatLeft(ChatLeftEvent { chat_id: "c-3".to_string() }));
    assert_eq!(r.event_type, "chat_left");
    assert_eq!(r.chat_left_id.as_deref(), Some("c-3"));
    assert_no_event_fields(&r, "chat_left");

    let r = ok_row(EventType::Navigation(NavigationEvent {
        from: "/a".to_string(),
        to: "/b".to_string(),
    }));
    assert_eq!(r.event_type, "navigation");
    assert_eq!(r.navigation_from.as_deref(), Some("/a"));
    assert_eq!(r.navigation_to.as_deref(), Some("/b"));
    assert_no_event_fields(&r, "navigation");
}

#[test]
fn missing_context_is_refused() {
    let res = AnalyticsEventRow::try_from(AnalyticsEvent {
        context: None,
        event_type: Some(EventType::AppStart(AppStartEvent {})),
    });
    assert_eq!(res.err(), Some(AppError::MissingEventContext));
    let res = AnalyticsEventRow::try_from(AnalyticsEvent { context: None, event_type: None });
    assert_eq!(res.err(), Some(AppError::MissingEventContext));
}

#[test]
fn missing_system_info_is_refused_before_missing_payload() {
    let mut ctx = context();
    ctx.system = None;
    let res = AnalyticsEventRow::try_from(AnalyticsEvent { context: Some(ctx), event_type: None });
    assert_eq!(res.err(), Some(AppError::MissingSystemInfo));
}

#[test]
fn missing_payload_is_refused() {
    let res = AnalyticsEventRow::try_from(AnalyticsEvent {
        context: Some(context()),
        event_type: None,
    });
    assert_eq!(res.err(), Some(AppError::MissingEventData));
}

#[test]
fn context_consume_writes_client_before_checking_system() {
    let mut ctx = context();
    ctx.system = None;
    let mut row = AnalyticsEventRow::default();
    assert_eq!(ctx.consume(&mut row), Err(AppError::MissingSystemInfo));
    assert_eq!(row.client_id, "client-1");
    assert_eq!(row.app_version, "1.0.0");
    assert_eq!(row.system_os, "");
    assert_eq!(row.client_ts, 0);
}

#[test]
fn server_info_replaces_client_claims() {
    let mut ctx = context();
    ctx.geo = Some(GeoLocation {
        country: "FR".to_string(),
        region: "IDF".to_string(),
        city: "Paris".to_string(),
    });
    let mut r = AnalyticsEventRow::try_from(AnalyticsEvent {
        context: Some(ctx),
        event_type: Some(EventType::AppStart(AppStartEvent {})),
    })
    .ok()
    .unwrap();
    r.update_with_server_info_at(
        Some(-17),
        Some(GeoLocation {
            country: "US".to_string(),
            region: "WA".to_string(),
            city: "Seattle".to_string(),
        }),
        1_700_000_000_000,
    );
    assert_eq!(r.user_id.as_deref(), Some("-17"));
    assert_eq!(r.geo_country.as_deref(), Some("US"));
    assert_eq!(r.geo_region.as_deref(), Some("WA"));
    assert_eq!(r.geo_city.as_deref(), Some("Seattle"));
    assert_eq!(r.server_ts, 1_700_000_000_000);
    assert_eq!(r.client_ts, 1000);

    r.update_with_server_info_at(None, None, 5);
    assert_eq!(r.user_id, None);
    assert_eq!(r.geo_country, None);
    assert_eq!(r.geo_region, None);
    assert_eq!(r.geo_city, None);
    assert_eq!(r.server_ts, 5);
    assert_eq!(r.event_type, "app_start");
}

#[test]
fn server_info_uses_the_clock() {
    let mut r = ok_row(EventType::AppStart(AppStartEvent {}));
    r.update_with_server_info(Some(7), None);
    assert_eq!(r.user_id.as_deref(), Some("7"));
    // the clock reads a time after 2020-01-01, not the client-provided 2000
    assert!(r.server_ts > 1_577_836_800_000);
}

#[test]
fn incoming_event_becomes_stored_row() {
    let row = chat_analytics::events::create_event_row(
        event(EventType::ChatJoined(ChatJoinedEvent { chat_id: "c-7".to_string() })),
        Some(99),
        None,
    )
    .ok()
    .unwrap();
    assert_eq!(row.event_type, "chat_joined");
    assert_eq!(row.chat_joined_id.as_deref(), Some("c-7"));
    assert_eq!(row.user_id.as_deref(), Some("99"));
    assert_eq!(row.client_id, "client-1");
    assert!(row.server_ts > 1_577_836_800_000);

    let err = chat_analytics::events::create_event_row(
        AnalyticsEvent { context: Some(context()), event_type: None },
        Some(99),
        None,
    );
    assert_eq!(err.err(), Some(AppError::MissingEventData));
}

#[test]
fn messages_and_rows_copy_and_compare() {
    let e = event(EventType::UserLogin(UserLoginEvent { email: "x@y.z".to_string() }));
    let copy = e.clone();
    assert_eq!(e, copy);
    assert_eq!(EventContext::default().client_ts, 0);
    assert_eq!(ExitCode::default(), ExitCode::Unspecified);
    let r = AnalyticsEventRow::try_from(copy).ok().unwrap();
    let r2 = r.clone();
    assert_eq!(r2.login_email.as_deref(), Some("x@y.z"));
    assert!(format!("{:?}", r2).contains("user_login"));
}
