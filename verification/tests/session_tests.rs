use sdfdesk_bridge::rdp_session::{
    advance_session, credential_arguments, get_rdp_credentials, has_display_connected,
    is_rdp_mode_enabled, manager_phase, next_session_action, session_of_line, session_settings,
    sessions_to_log_off, set_rdp_credentials, start_rdp_session_if_needed, stop_rdp_session,
    HeadlessManager, ManagerPhase, ProcessPoll, RdpCredentials, RdpSession, SessionAction,
    SessionError, Stage, StartOutcome, StepReport, CLIENT_COMMAND, CREDENTIAL_COMMAND,
    CREDENTIAL_DELETE, CREDENTIAL_TARGET, LOGOFF_COMMAND, SESSION_LIST_COMMAND,
    SESSION_SETTINGS, SETTINGS_FILE_NAME, SETTLE_SECONDS,
};

const LISTING: &str = " SESSIONNAME       USERNAME                 ID  STATE   TYPE        DEVICE\n services                                    0  Disc\n>console           alice                     1  Active\n rdp-tcp#3         bob                       2  Active\n                   carol                     4  Disc\n rdp-tcp#9         dave                      5  Disc\n rdp-tcp                                 65536  Listen\n 31c5ce94          erin                  65536  Disc\n";

fn credentials() -> RdpCredentials {
    RdpCredentials { username: "alice".to_string(), password: "s3cret".to_string() }
}

fn enabled() -> HeadlessManager {
    let mut manager = HeadlessManager::new();
    set_rdp_credentials(&mut manager, "alice".to_string(), "s3cret".to_string());
    manager
}

fn active() -> HeadlessManager {
    let mut manager = enabled();
    assert_eq!(
        start_rdp_session_if_needed(&mut manager, false, ProcessPoll::Failed),
        StartOutcome::Started
    );
    let mut guard = 0;
    while next_session_action(&manager) != SessionAction::Idle {
        assert_eq!(advance_session(&mut manager, StepReport::Succeeded), Ok(()));
        guard += 1;
        assert!(guard < 20);
    }
    assert_eq!(manager_phase(&manager), ManagerPhase::Active);
    manager
}

#[test]
fn display_detection_falls_back_to_the_primary_display() {
    assert!(has_display_connected(None, true));
    assert!(!has_display_connected(None, false));
    assert!(has_display_connected(Some(1), false));
    assert!(has_display_connected(Some(3), true));
    assert!(!has_display_connected(Some(0), false));
    assert!(!has_display_connected(Some(0), true));
}

#[test]
fn manager_starts_disabled_and_is_enabled_by_credentials() {
    let mut manager = HeadlessManager::new();
    assert!(!is_rdp_mode_enabled(&manager));
    assert_eq!(get_rdp_credentials(&manager), None);
    assert_eq!(manager_phase(&manager), ManagerPhase::Disabled);
    set_rdp_credentials(&mut manager, "alice".to_string(), "s3cret".to_string());
    assert!(is_rdp_mode_enabled(&manager));
    assert_eq!(get_rdp_credentials(&manager), Some(credentials()));
    assert_eq!(manager_phase(&manager), ManagerPhase::Standby);
    set_rdp_credentials(&mut manager, "bob".to_string(), "pw".to_string());
    assert_eq!(
        get_rdp_credentials(&manager),
        Some(RdpCredentials { username: "bob".to_string(), password: "pw".to_string() })
    );
}

#[test]
fn disabled_manager_needs_nothing() {
    let mut manager = HeadlessManager::new();
    for display in [false, true] {
        for poll in [ProcessPoll::Exited, ProcessPoll::Running, ProcessPoll::Failed] {
            assert_eq!(
                start_rdp_session_if_needed(&mut manager, display, poll),
                StartOutcome::NotNeeded
            );
        }
    }
    stop_rdp_session(&mut manager);
    assert_eq!(next_session_action(&manager), SessionAction::Idle);
    assert_eq!(advance_session(&mut manager, StepReport::Failed), Ok(()));
    assert_eq!(manager_phase(&manager), ManagerPhase::Disabled);
}

#[test]
fn no_session_is_started_while_a_display_is_present() {
    let mut manager = enabled();
    assert_eq!(
        start_rdp_session_if_needed(&mut manager, true, ProcessPoll::Failed),
        StartOutcome::NotStarted
    );
    assert_eq!(manager_phase(&manager), ManagerPhase::Standby);
    assert_eq!(next_session_action(&manager), SessionAction::Idle);
}

#[test]
fn start_runs_through_its_steps_in_order() {
    let mut manager = enabled();
    assert_eq!(
        start_rdp_session_if_needed(&mut manager, false, ProcessPoll::Failed),
        StartOutcome::Started
    );
    assert_eq!(manager_phase(&manager), ManagerPhase::Starting);
    assert_eq!(next_session_action(&manager), SessionAction::ListSessions);
    assert_eq!(advance_session(&mut manager, StepReport::Listing { text: LISTING }), Ok(()));
    assert_eq!(next_session_action(&manager), SessionAction::LogOff { session_id: 2 });
    assert_eq!(advance_session(&mut manager, StepReport::Failed), Ok(()));
    assert_eq!(next_session_action(&manager), SessionAction::LogOff { session_id: 5 });
    assert_eq!(advance_session(&mut manager, StepReport::Succeeded), Ok(()));
    assert_eq!(next_session_action(&manager), SessionAction::LogOff { session_id: 65536 });
    assert_eq!(advance_session(&mut manager, StepReport::Succeeded), Ok(()));
    assert_eq!(next_session_action(&manager), SessionAction::StoreCredential);
    assert_eq!(advance_session(&mut manager, StepReport::Failed), Ok(()));
    assert_eq!(next_session_action(&manager), SessionAction::WriteSettings);
    assert_eq!(advance_session(&mut manager, StepReport::Failed), Ok(()));
    assert_eq!(next_session_action(&manager), SessionAction::LaunchClient);
    assert_eq!(advance_session(&mut manager, StepReport::Succeeded), Ok(()));
    assert_eq!(next_session_action(&manager), SessionAction::Settle { seconds: 3 });
    assert_eq!(manager_phase(&manager), ManagerPhase::Starting);
    assert_eq!(advance_session(&mut manager, StepReport::Succeeded), Ok(()));
    assert_eq!(next_session_action(&manager), SessionAction::Settle { seconds: 3 });
    assert_eq!(advance_session(&mut manager, StepReport::Succeeded), Ok(()));
    assert_eq!(next_session_action(&manager), SessionAction::Idle);
    assert_eq!(manager_phase(&manager), ManagerPhase::Active);
}

#[test]
fn a_failed_listing_logs_nobody_off() {
    let mut manager = enabled();
    start_rdp_session_if_needed(&mut manager, false, ProcessPoll::Failed);
    assert_eq!(advance_session(&mut manager, StepReport::Failed), Ok(()));
    assert_eq!(next_session_action(&manager), SessionAction::StoreCredential);
}

#[test]
fn only_a_failed_launch_is_an_error() {
    let mut manager = enabled();
    start_rdp_session_if_needed(&mut manager, false, ProcessPoll::Failed);
    assert_eq!(advance_session(&mut manager, StepReport::Failed), Ok(()));
    assert_eq!(advance_session(&mut manager, StepReport::Failed), Ok(()));
    assert_eq!(advance_session(&mut manager, StepReport::Failed), Ok(()));
    assert_eq!(next_session_action(&manager), SessionAction::LaunchClient);
    assert_eq!(
        advance_session(&mut manager, StepReport::Failed),
        Err(SessionError::LaunchFailed)
    );
    assert_eq!(manager_phase(&manager), ManagerPhase::Standby);
    assert_eq!(next_session_action(&manager), SessionAction::Idle);
    assert!(is_rdp_mode_enabled(&manager));
}

#[test]
fn starting_twice_while_active_starts_nothing() {
    let mut manager = active();
    for _ in 0..2 {
        assert_eq!(
            start_rdp_session_if_needed(&mut manager, false, ProcessPoll::Running),
            StartOutcome::AlreadyActive
        );
        assert_eq!(next_session_action(&manager), SessionAction::Idle);
        assert_eq!(manager_phase(&manager), ManagerPhase::Active);
    }
    assert_eq!(
        start_rdp_session_if_needed(&mut manager, true, ProcessPoll::Running),
        StartOutcome::AlreadyActive
    );
}

#[test]
fn a_session_whose_client_has_ended_is_replaced_on_the_next_start() {
    let mut manager = active();
    assert_eq!(manager_phase(&manager), ManagerPhase::Active);
    assert_eq!(
        start_rdp_session_if_needed(&mut manager, false, ProcessPoll::Exited),
        StartOutcome::Started
    );
    assert_eq!(next_session_action(&manager), SessionAction::ListSessions);
    let mut gone = active();
    assert_eq!(
        start_rdp_session_if_needed(&mut gone, true, ProcessPoll::Failed),
        StartOutcome::NotStarted
    );
    assert_eq!(manager_phase(&gone), ManagerPhase::Standby);
}

#[test]
fn a_start_in_progress_is_not_started_again() {
    let mut manager = enabled();
    start_rdp_session_if_needed(&mut manager, false, ProcessPoll::Failed);
    assert_eq!(
        start_rdp_session_if_needed(&mut manager, false, ProcessPoll::Failed),
        StartOutcome::Busy
    );
    assert_eq!(next_session_action(&manager), SessionAction::ListSessions);
}

#[test]
fn stop_tears_down_and_returns_to_standby() {
    let mut manager = active();
    stop_rdp_session(&mut manager);
    assert_eq!(manager_phase(&manager), ManagerPhase::Stopping);
    assert_eq!(next_session_action(&manager), SessionAction::KillClient);
    assert_eq!(advance_session(&mut manager, StepReport::Failed), Ok(()));
    assert_eq!(next_session_action(&manager), SessionAction::DeleteCredential);
    assert_eq!(
        start_rdp_session_if_needed(&mut manager, false, ProcessPoll::Running),
        StartOutcome::Busy
    );
    assert_eq!(advance_session(&mut manager, StepReport::Failed), Ok(()));
    assert_eq!(next_session_action(&manager), SessionAction::LogOffSelf);
    assert_eq!(advance_session(&mut manager, StepReport::Failed), Ok(()));
    assert_eq!(next_session_action(&manager), SessionAction::Idle);
    assert_eq!(manager_phase(&manager), ManagerPhase::Standby);
    assert!(is_rdp_mode_enabled(&manager));
}

#[test]
fn stop_before_the_launch_kills_nothing() {
    let mut manager = enabled();
    start_rdp_session_if_needed(&mut manager, false, ProcessPoll::Failed);
    advance_session(&mut manager, StepReport::Listing { text: LISTING }).unwrap();
    stop_rdp_session(&mut manager);
    assert_eq!(next_session_action(&manager), SessionAction::DeleteCredential);
    advance_session(&mut manager, StepReport::Succeeded).unwrap();
    advance_session(&mut manager, StepReport::Succeeded).unwrap();
    assert_eq!(manager_phase(&manager), ManagerPhase::Standby);
}

#[test]
fn session_reports_its_liveness_without_changing() {
    let mut session = RdpSession::start(&credentials());
    assert_eq!(session.stage(), Stage::ListingSessions);
    assert!(!session.is_running(ProcessPoll::Running));
    for _ in 0..4 {
        session.advance(StepReport::Succeeded);
    }
    assert_eq!(session.stage(), Stage::SettlingClient);
    assert!(session.is_running(ProcessPoll::Running));
    assert!(!session.is_running(ProcessPoll::Exited));
    assert!(!session.is_running(ProcessPoll::Failed));
    assert_eq!(session.stage(), Stage::SettlingClient);
    session.advance(StepReport::Succeeded);
    session.advance(StepReport::Succeeded);
    assert_eq!(session.stage(), Stage::Running);
    session.advance(StepReport::Failed);
    assert_eq!(session.stage(), Stage::Running);
    session.stop();
    assert_eq!(session.stage(), Stage::Killing);
    assert!(!session.is_running(ProcessPoll::Running));
    session.stop();
    assert_eq!(session.stage(), Stage::Killing);
    session.advance(StepReport::Succeeded);
    session.advance(StepReport::Succeeded);
    session.advance(StepReport::Succeeded);
    assert_eq!(session.stage(), Stage::Stopped);
    assert_eq!(session.next_action(), SessionAction::Idle);
    session.stop();
    assert_eq!(session.stage(), Stage::Stopped);
}

#[test]
fn session_list_names_remote_and_disconnected_sessions() {
    assert_eq!(sessions_to_log_off(LISTING), vec![2, 5, 65536]);
    assert_eq!(sessions_to_log_off(" rdp-tcp#3 bob 2 Active"), Vec::<u32>::new());
    assert_eq!(sessions_to_log_off("heading\n carol 4 Disc\n rdp-tcp 65536 Listen\n"), Vec::<u32>::new());
    assert_eq!(sessions_to_log_off(""), Vec::<u32>::new());
    assert_eq!(sessions_to_log_off("rdp-tcp x 7 Active"), Vec::<u32>::new());
    assert_eq!(sessions_to_log_off("heading\r\nrdp-tcp x 7 Active\r\n"), vec![7]);
    assert_eq!(sessions_to_log_off("heading\nrdp-tcp x 7 Active"), vec![7]);
}

#[test]
fn session_line_needs_a_number_in_its_third_field() {
    assert_eq!(session_of_line(" rdp-tcp#3   bob   2  Active"), Some(2));
    assert_eq!(session_of_line(" a b +9 Disc"), Some(9));
    assert_eq!(session_of_line(" a b 4294967295 Disc"), Some(u32::MAX));
    assert_eq!(session_of_line(" a b 4294967296 Disc"), None);
    assert_eq!(session_of_line(" a b 0 Disc"), None);
    assert_eq!(session_of_line(" a b -0 Disc"), None);
    assert_eq!(session_of_line(" a b -3 Disc"), None);
    assert_eq!(session_of_line(" a b 3x Disc"), None);
    assert_eq!(session_of_line(" a b 3 Active"), None);
    assert_eq!(session_of_line(" a b 3 disc"), None);
    assert_eq!(session_of_line("rdp-tcp 3"), None);
    assert_eq!(session_of_line(""), None);
    assert_eq!(session_of_line(" services      0  Disc"), None);
    assert_eq!(session_of_line("\u{3000}a\u{a0}b\t12\u{2003}Disc"), Some(12));
}

#[test]
fn credentials_are_stored_for_the_loopback_target() {
    assert_eq!(
        credential_arguments(&credentials()),
        vec![
            "/generic:TERMSRV/127.0.0.1".to_string(),
            "/user:alice".to_string(),
            "/pass:s3cret".to_string()
        ]
    );
    let session = RdpSession::start(&credentials());
    assert_eq!(session.credential_arguments(), credential_arguments(&credentials()));
}

#[test]
fn settings_end_with_the_user_name() {
    let settings = session_settings("alice");
    assert!(settings.starts_with("screen mode id:i:2\nuse multimon:i:0\ndesktopwidth:i:1920\n"));
    assert!(settings.ends_with("kdcproxyname:s:\nusername:s:alice\n"));
    assert_eq!(settings.lines().count(), 47);
    assert_eq!(settings, format!("{}alice\n", SESSION_SETTINGS));
    for line in [
        "desktopheight:i:1080",
        "session bpp:i:32",
        "full address:s:127.0.0.1",
        "redirectprinters:i:0",
        "redirectcomports:i:0",
        "redirectsmartcards:i:0",
        "redirectclipboard:i:1",
        "autoreconnection enabled:i:1",
        "prompt for credentials:i:0",
    ] {
        assert!(settings.lines().any(|l| l == line));
    }
    let session = RdpSession::start(&credentials());
    assert_eq!(session.settings(), settings);
}

#[test]
fn commands_have_their_names() {
    assert_eq!(SESSION_LIST_COMMAND, "qwinsta");
    assert_eq!(LOGOFF_COMMAND, "logoff");
    assert_eq!(CREDENTIAL_COMMAND, "cmdkey");
    assert_eq!(CREDENTIAL_TARGET, "/generic:TERMSRV/127.0.0.1");
    assert_eq!(CREDENTIAL_DELETE, "/delete:127.0.0.1");
    assert_eq!(CLIENT_COMMAND, "mstsc");
    assert_eq!(SETTINGS_FILE_NAME, "sdfdesk_rdp.rdp");
    assert_eq!(SETTLE_SECONDS, 3);
}
