use activity_core::dashboard::{team_stats_endpoint, ManagerState};
use activity_core::probe::{get_active_window_info, get_idle_time, IdleReading, ProbeError, WindowInfo, WindowReading};
use activity_core::report::activity_endpoint;

fn wide(s: &str) -> Vec<u16> {
    s.encode_utf16().collect()
}

fn info(r: Result<WindowInfo, ProbeError>) -> (String, String) {
    match r {
        Ok(w) => (w.app_name, w.window_title),
        Err(e) => panic!("unexpected {:?}", e),
    }
}

fn fail(r: Result<WindowInfo, ProbeError>) -> ProbeError {
    match r {
        Ok(w) => panic!("unexpected window {}", w.app_name),
        Err(e) => e,
    }
}

#[test]
fn foreground_without_window_fails() {
    let r = get_active_window_info(&WindowReading::Foreground {
        window_found: false,
        title_buf: wide("x"),
        title_len: 1,
        process_name: None,
    });
    assert_eq!(fail(r), ProbeError::NoForegroundWindow);
}

#[test]
fn foreground_reads_title_and_process() {
    let mut buf = wide("main.rs - Code");
    buf.resize(512, 0);
    let mut name = wide("Code.exe");
    name.resize(256, 0);
    let r = get_active_window_info(&WindowReading::Foreground {
        window_found: true,
        title_buf: buf,
        title_len: 14,
        process_name: Some((name, 8)),
    });
    assert_eq!(info(r), ("Code.exe".to_string(), "main.rs - Code".to_string()));
}

#[test]
fn foreground_title_is_cut_at_capacity() {
    let buf = wide("abcd");
    let r = get_active_window_info(&WindowReading::Foreground {
        window_found: true,
        title_buf: buf,
        title_len: 9,
        process_name: None,
    });
    assert_eq!(info(r), ("Unknown Application".to_string(), "abcd".to_string()));
}

#[test]
fn foreground_empty_reads_give_sentinels() {
    let r = get_active_window_info(&WindowReading::Foreground {
        window_found: true,
        title_buf: vec![0; 512],
        title_len: 0,
        process_name: Some((vec![0; 256], 0)),
    });
    assert_eq!(info(r), ("Unknown Application".to_string(), "Unknown Window".to_string()));
}

#[test]
fn foreground_unpaired_surrogate_is_replaced() {
    let r = get_active_window_info(&WindowReading::Foreground {
        window_found: true,
        title_buf: vec![0x0041, 0xD800, 0x0042],
        title_len: 3,
        process_name: None,
    });
    assert_eq!(info(r).1, "A\u{FFFD}B");
}

#[test]
fn workspace_without_frontmost_fails() {
    let r = get_active_window_info(&WindowReading::Workspace { frontmost_found: false, display_name: None });
    assert_eq!(fail(r), ProbeError::NoFrontmostApplication);
}

#[test]
fn workspace_title_follows_app_name() {
    let r = get_active_window_info(&WindowReading::Workspace {
        frontmost_found: true,
        display_name: Some(b"Safari".to_vec()),
    });
    assert_eq!(info(r), ("Safari".to_string(), "Safari Window".to_string()));
    let r = get_active_window_info(&WindowReading::Workspace { frontmost_found: true, display_name: None });
    assert_eq!(
        info(r),
        ("Unknown Application".to_string(), "Unknown Application Window".to_string())
    );
}

#[test]
fn xprotocol_without_display_fails() {
    let r = get_active_window_info(&WindowReading::XProtocol {
        display_opened: false,
        focus: 7,
        title: None,
        class: None,
    });
    assert_eq!(fail(r), ProbeError::DisplayUnavailable);
}

#[test]
fn xprotocol_without_focus_gives_sentinels() {
    let r = get_active_window_info(&WindowReading::XProtocol {
        display_opened: true,
        focus: 0,
        title: Some(b"ignored".to_vec()),
        class: Some(b"Ignored".to_vec()),
    });
    assert_eq!(info(r), ("Unknown Application".to_string(), "Unknown Window".to_string()));
}

#[test]
fn xprotocol_reads_name_and_class() {
    let r = get_active_window_info(&WindowReading::XProtocol {
        display_opened: true,
        focus: 0x3a00007,
        title: Some(b"notes.txt - gedit".to_vec()),
        class: Some(b"Gedit".to_vec()),
    });
    assert_eq!(info(r), ("Gedit".to_string(), "notes.txt - gedit".to_string()));
}

#[test]
fn xprotocol_missing_or_empty_fields_give_sentinels() {
    let r = get_active_window_info(&WindowReading::XProtocol {
        display_opened: true,
        focus: 5,
        title: Some(Vec::new()),
        class: None,
    });
    assert_eq!(info(r), ("Unknown Application".to_string(), "Unknown Window".to_string()));
}

#[test]
fn xprotocol_invalid_utf8_is_replaced() {
    let r = get_active_window_info(&WindowReading::XProtocol {
        display_opened: true,
        focus: 5,
        title: Some(vec![b'o', 0xff, b'k']),
        class: Some(b"Term".to_vec()),
    });
    assert_eq!(info(r).1, "o\u{FFFD}k");
}

#[test]
fn unsupported_platform_placeholders() {
    let r = get_active_window_info(&WindowReading::Unsupported);
    assert_eq!(info(r), ("Unsupported Platform".to_string(), "Unsupported Platform".to_string()));
    assert_eq!(get_idle_time(&IdleReading::Unsupported), Ok(0));
}

#[test]
fn foreground_idle_is_tick_difference() {
    let r = get_idle_time(&IdleReading::Foreground { last_input_tick: Some(1000), now_tick: 4500 });
    assert_eq!(r, Ok(3500));
}

#[test]
fn foreground_idle_clamps_at_zero() {
    let r = get_idle_time(&IdleReading::Foreground { last_input_tick: Some(5000), now_tick: 10 });
    assert_eq!(r, Ok(0));
    let r = get_idle_time(&IdleReading::Foreground { last_input_tick: Some(0), now_tick: u32::MAX });
    assert_eq!(r, Ok(u32::MAX as u64));
}

#[test]
fn foreground_idle_query_failure() {
    let r = get_idle_time(&IdleReading::Foreground { last_input_tick: None, now_tick: 10 });
    assert_eq!(r, Err(ProbeError::ApiFailure));
}

#[test]
fn workspace_idle_defaults_to_zero() {
    assert_eq!(get_idle_time(&IdleReading::Workspace { idle_millis: Some(61000) }), Ok(61000));
    assert_eq!(get_idle_time(&IdleReading::Workspace { idle_millis: None }), Ok(0));
}

#[test]
fn xprotocol_idle() {
    assert_eq!(
        get_idle_time(&IdleReading::XProtocol { display_opened: false, idle_millis: Some(3) }),
        Err(ProbeError::DisplayUnavailable)
    );
    assert_eq!(get_idle_time(&IdleReading::XProtocol { display_opened: true, idle_millis: Some(3) }), Ok(3));
    assert_eq!(get_idle_time(&IdleReading::XProtocol { display_opened: true, idle_millis: None }), Ok(0));
}

#[test]
fn endpoints() {
    assert_eq!(
        activity_endpoint("t9"),
        "https://productivityflow-backend.onrender.com/api/teams/t9/activity"
    );
    assert_eq!(
        team_stats_endpoint("t9"),
        "https://productivityflow-backend.onrender.com/api/teams/t9/stats"
    );
}

#[test]
fn manager_session() {
    let mut m = ManagerState::default();
    assert!(!m.is_authenticated);
    m.authenticate_manager("bob".to_string(), "acme".to_string());
    let c = m.get_app_state();
    assert!(c.is_authenticated);
    assert_eq!(c.user_name.as_deref(), Some("bob"));
    assert_eq!(c.organization.as_deref(), Some("acme"));
    m.logout_manager();
    assert!(!m.is_authenticated);
    assert!(m.user_name.is_none());
    assert!(m.organization.is_none());
}

#[test]
fn error_messages() {
    assert_eq!(ProbeError::NoForegroundWindow.message(), "No foreground window found");
    assert_eq!(ProbeError::NoFrontmostApplication.message(), "No frontmost application found");
    assert_eq!(ProbeError::DisplayUnavailable.message(), "Cannot open display");
    assert_eq!(ProbeError::ApiFailure.message(), "Failed to get last input info");
    assert_eq!(activity_core::report::CommandError::NotTracking.message(), "Tracking is not active");
    assert_eq!(activity_core::report::CommandError::MissingIdentity.message(), "Identity not set");
}
