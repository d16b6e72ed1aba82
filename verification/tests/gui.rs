use ledger_installer::device::{CatalogApp, DeviceInfo, InstalledApp};
use ledger_installer::driver::Reply;
use ledger_installer::gui::{LedgerInstaller, Message};
use ledger_installer::ledger_service::LedgerService;
use ledger_installer::message::LedgerMessage;
use ledger_installer::screen::{
    apps_container, btn, device_container, version, AppControl, GenuineControl,
};
use ledger_installer::version::Version;

fn event(state: &mut LedgerInstaller, msg: LedgerMessage) {
    assert!(state.update(Message::LedgerServiceMsg(msg)).is_none());
}

fn deliver(state: &mut LedgerInstaller, events: Vec<LedgerMessage>) {
    for msg in events {
        event(state, msg);
    }
}

fn installed(text: &str) -> Version {
    Version::Installed(text.to_string())
}

fn latest(text: &str) -> Version {
    Version::Latest(text.to_string())
}

fn offered(version: &str) -> CatalogApp {
    CatalogApp {
        version: version.to_string(),
        perso: "perso_11".to_string(),
        delete_key: "del".to_string(),
        firmware: "fw".to_string(),
        firmware_key: "key".to_string(),
        hash: "00".to_string(),
    }
}

#[test]
fn window_opens_with_the_prompt() {
    let state = LedgerInstaller::new();
    assert_eq!(state.ledger_model(), None);
    assert_eq!(state.ledger_version(), None);
    assert!(state.main_app_version().is_none());
    assert!(state.main_latest_version().is_none());
    assert!(state.test_app_version().is_none());
    assert!(state.test_latest_version().is_none());
    assert_eq!(state.user_message(), Some("Please connect a device and unlock it...".to_string()));
    assert_eq!(state.device_is_genuine(), None);
    assert!(!state.device_busy());
    assert!(!state.alarm());
    let screen = state.screen();
    assert_eq!(screen.hint_message, None);
    assert!(screen.app.is_none());
    assert!(!screen.reset_alarm);
    assert_eq!(screen.user_message, Some("Please connect a device and unlock it...".to_string()));
}

#[test]
fn orders_mark_the_session_busy_and_go_to_it() {
    for (msg, expected) in [
        (Message::UpdateMain, "UpdateMain"),
        (Message::InstallMain, "InstallMain"),
        (Message::UpdateTest, "UpdateTest"),
        (Message::InstallTest, "InstallTest"),
        (Message::GenuineCheck, "GenuineCheck"),
    ] {
        let mut state = LedgerInstaller::new();
        let order = state.update(msg).unwrap();
        assert_eq!(format!("{:?}", order), expected);
        assert!(order.is_command());
        assert!(state.device_busy());
    }
}

#[test]
fn install_forgets_the_installed_versions() {
    for msg in [Message::InstallMain, Message::InstallTest] {
        let mut state = LedgerInstaller::new();
        event(&mut state, LedgerMessage::MainAppVersion(installed("2.0.0")));
        event(&mut state, LedgerMessage::TestAppVersion(Version::NotInstalled));
        state.update(msg);
        assert!(state.main_app_version().is_none());
        assert!(state.test_app_version().is_none());
    }
    for msg in [Message::UpdateMain, Message::UpdateTest, Message::GenuineCheck] {
        let mut state = LedgerInstaller::new();
        event(&mut state, LedgerMessage::MainAppVersion(installed("2.0.0")));
        event(&mut state, LedgerMessage::TestAppVersion(Version::NotInstalled));
        state.update(msg);
        assert_eq!(format!("{:?}", state.main_app_version()), "Installed(\"2.0.0\")");
        assert_eq!(format!("{:?}", state.test_app_version()), "NotInstalled");
    }
}

#[test]
fn completion_events_clear_busy() {
    for msg in [
        LedgerMessage::MainAppVersion(Version::NotInstalled),
        LedgerMessage::TestAppVersion(Version::NotInstalled),
        LedgerMessage::DeviceIsGenuine(None),
        LedgerMessage::DeviceIsGenuine(Some(true)),
        LedgerMessage::DisplayMessage("failed".to_string(), true),
        LedgerMessage::Connected(Some("Ledger".to_string()), Some("2.1.0".to_string())),
        LedgerMessage::Connected(None, None),
    ] {
        let mut state = LedgerInstaller::new();
        state.update(Message::GenuineCheck);
        assert!(state.device_busy());
        event(&mut state, msg);
        assert!(!state.device_busy());
    }
}

#[test]
fn progress_events_leave_busy_as_it_is() {
    for msg in [
        LedgerMessage::DisplayMessage("working".to_string(), false),
        LedgerMessage::DisplayMessage(String::new(), false),
        LedgerMessage::LatestApps(latest("2.1.0"), latest("2.2.0")),
        LedgerMessage::TryConnect,
        LedgerMessage::InstallMain,
    ] {
        let mut state = LedgerInstaller::new();
        state.update(Message::InstallMain);
        event(&mut state, msg);
        assert!(state.device_busy());
    }
}

#[test]
fn clear_takes_text_and_alarm_away() {
    let mut state = LedgerInstaller::new();
    event(&mut state, LedgerMessage::DisplayMessage("failed".to_string(), true));
    assert!(state.alarm());
    assert_eq!(state.user_message(), Some("failed".to_string()));
    event(&mut state, LedgerMessage::DisplayMessage(String::new(), false));
    assert!(!state.alarm());
    assert_eq!(state.user_message(), None);
    event(&mut state, LedgerMessage::clear());
    assert!(!state.alarm());
    assert_eq!(state.user_message(), None);

    let mut state = LedgerInstaller::new();
    event(&mut state, LedgerMessage::clear());
    assert!(!state.alarm());
    assert_eq!(state.user_message(), None);
}

#[test]
fn texts_are_kept_with_their_alarm() {
    let mut state = LedgerInstaller::new();
    event(&mut state, LedgerMessage::DisplayMessage("working".to_string(), false));
    assert!(!state.alarm());
    assert_eq!(state.user_message(), Some("working".to_string()));
    event(&mut state, LedgerMessage::DisplayMessage(String::new(), true));
    assert!(state.alarm());
    assert_eq!(state.user_message(), Some(String::new()));
}

#[test]
fn reset_alarm_takes_text_and_alarm_away() {
    let mut state = LedgerInstaller::new();
    state.update(Message::GenuineCheck);
    event(&mut state, LedgerMessage::DisplayMessage("failed".to_string(), true));
    assert!(state.update(Message::ResetAlarm).is_none());
    assert!(!state.alarm());
    assert_eq!(state.user_message(), None);
}

#[test]
fn other_messages_change_nothing() {
    let mut state = LedgerInstaller::new();
    event(&mut state, LedgerMessage::MainAppVersion(installed("2.0.0")));
    let before = format!("{:?}", state.screen());
    assert!(state.update(Message::Result).is_none());
    assert!(state.update(Message::Connect).is_none());
    event(&mut state, LedgerMessage::GenuineCheck);
    assert_eq!(format!("{:?}", state.screen()), before);
    assert!(!state.device_busy());
    assert_eq!(format!("{:?}", state.main_app_version()), "Installed(\"2.0.0\")");
}

#[test]
fn gone_device_clears_all_versions() {
    let mut state = LedgerInstaller::new();
    event(&mut state, LedgerMessage::Connected(Some("Nano S".to_string()), Some("2.1.0".to_string())));
    event(&mut state, LedgerMessage::MainAppVersion(installed("2.0.0")));
    event(&mut state, LedgerMessage::TestAppVersion(Version::NotInstalled));
    event(&mut state, LedgerMessage::LatestApps(latest("2.1.0"), latest("2.2.0")));
    assert_eq!(state.ledger_model(), Some("Nano S".to_string()));
    assert_eq!(state.ledger_version(), Some("2.1.0".to_string()));
    event(&mut state, LedgerMessage::Connected(None, Some("2.1.0".to_string())));
    assert_eq!(state.ledger_model(), None);
    assert_eq!(state.ledger_version(), Some("2.1.0".to_string()));
    assert!(state.main_app_version().is_none());
    assert!(state.main_latest_version().is_none());
    assert!(state.test_app_version().is_none());
    assert!(state.test_latest_version().is_none());
}

#[test]
fn connected_device_keeps_the_versions() {
    let mut state = LedgerInstaller::new();
    event(&mut state, LedgerMessage::LatestApps(latest("2.1.0"), latest("2.2.0")));
    event(&mut state, LedgerMessage::Connected(Some("Ledger".to_string()), Some("2.1.0".to_string())));
    assert_eq!(format!("{:?}", state.main_latest_version()), "Latest(\"2.1.0\")");
    assert_eq!(format!("{:?}", state.test_latest_version()), "Latest(\"2.2.0\")");
}

#[test]
fn button_follows_installed_and_latest_version() {
    let install = || Some(Message::InstallMain);
    let update = || Some(Message::UpdateMain);
    let shown = |version: &Version, latest: &Version| {
        format!("{:?}", btn(version, latest, install(), update()))
    };
    assert_eq!(shown(&Version::NotInstalled, &latest("2.1.0")), "Install(Some(InstallMain))");
    assert_eq!(shown(&Version::NotInstalled, &Version::Unknown), "Install(Some(InstallMain))");
    assert_eq!(shown(&installed("2.0.0"), &latest("2.1.0")), "Update(Some(UpdateMain))");
    assert_eq!(shown(&installed("2.1.0"), &latest("2.1.0")), "Latest");
    assert_eq!(shown(&installed("2.1.0"), &Version::Unknown), "Unavailable");
    assert_eq!(shown(&installed("2.1.0"), &Version::NotInstalled), "Unavailable");
    assert_eq!(shown(&installed("2.1.0"), &installed("2.1.0")), "Unavailable");
    assert_eq!(shown(&Version::Unknown, &latest("2.1.0")), "Unavailable");
    assert_eq!(shown(&latest("2.1.0"), &latest("2.1.0")), "Unavailable");
    assert_eq!(
        format!("{:?}", btn(&Version::NotInstalled, &latest("2.1.0"), None, update())),
        "Install(None)"
    );
    assert_eq!(
        format!("{:?}", btn(&installed("2.0.0"), &latest("2.1.0"), install(), None)),
        "Update(None)"
    );
}

#[test]
fn controls_have_their_labels() {
    assert_eq!(AppControl::Install(None).label(), " Install ");
    assert_eq!(AppControl::Update(None).label(), " Update ");
    assert_eq!(AppControl::Latest.label(), "Latest");
    assert_eq!(AppControl::Unavailable.label(), " - ");
    assert_eq!(GenuineControl::Check(None).label(), None);
    assert_eq!(GenuineControl::Yes.label(), Some(" Yes "));
    assert_eq!(GenuineControl::No.label(), Some("No!"));
}

#[test]
fn installed_version_is_written_out() {
    assert_eq!(version(installed("2.1.0")), "Version: 2.1.0");
    assert_eq!(version(Version::NotInstalled), "Not installed");
    assert_eq!(version(Version::Unknown), " - ");
    assert_eq!(version(latest("2.1.0")), " - ");
}

#[test]
fn device_panel_shows_what_is_known() {
    let panel = device_container(None, None, None, false);
    assert_eq!(panel.model, " - ");
    assert_eq!(panel.firmware, " - ");
    assert_eq!(format!("{:?}", panel.genuine), "Check(Some(GenuineCheck))");

    let panel =
        device_container(Some("Nano X".to_string()), Some("2.0.2".to_string()), None, true);
    assert_eq!(panel.model, "Nano X");
    assert_eq!(panel.firmware, "2.0.2");
    assert_eq!(format!("{:?}", panel.genuine), "Check(None)");

    let panel = device_container(Some("Nano X".to_string()), None, Some(true), false);
    assert_eq!(format!("{:?}", panel.genuine), "Yes");
    let panel = device_container(Some("Nano X".to_string()), None, Some(false), true);
    assert_eq!(format!("{:?}", panel.genuine), "No");
}

#[test]
fn apps_panel_offers_nothing_while_busy() {
    let panel = apps_container(
        Version::NotInstalled,
        latest("2.1.0"),
        installed("2.0.0"),
        latest("2.2.0"),
        false,
    );
    assert_eq!(panel.bitcoin.version, "Not installed");
    assert_eq!(format!("{:?}", panel.bitcoin.control), "Install(Some(InstallMain))");
    assert_eq!(panel.test.version, "Version: 2.0.0");
    assert_eq!(format!("{:?}", panel.test.control), "Update(Some(UpdateTest))");

    let panel = apps_container(
        installed("2.0.0"),
        latest("2.1.0"),
        Version::NotInstalled,
        latest("2.2.0"),
        true,
    );
    assert_eq!(format!("{:?}", panel.bitcoin.control), "Update(None)");
    assert_eq!(format!("{:?}", panel.test.control), "Install(None)");
}

#[test]
fn alarm_hides_the_device_and_offers_to_reset() {
    let mut state = LedgerInstaller::new();
    event(&mut state, LedgerMessage::Connected(Some("Nano S".to_string()), Some("2.1.0".to_string())));
    event(&mut state, LedgerMessage::DisplayMessage(String::new(), false));
    let screen = state.screen();
    assert!(screen.app.is_some());
    assert!(!screen.reset_alarm);
    assert_eq!(screen.hint_message, None);
    assert_eq!(screen.user_message, None);

    event(&mut state, LedgerMessage::DisplayMessage("failed".to_string(), true));
    let screen = state.screen();
    assert!(screen.app.is_none());
    assert!(screen.reset_alarm);
    assert_eq!(screen.hint_message, Some("failed".to_string()));
    assert_eq!(screen.user_message, None);

    state.update(Message::ResetAlarm);
    let screen = state.screen();
    assert!(screen.app.is_some());
    assert!(!screen.reset_alarm);
    assert_eq!(screen.hint_message, None);
    assert_eq!(screen.user_message, None);
}

#[test]
fn alarm_without_device_shows_the_prompt_once_the_catalog_answered() {
    let mut state = LedgerInstaller::new();
    event(&mut state, LedgerMessage::LatestApps(latest("2.1.0"), latest("2.2.0")));
    event(&mut state, LedgerMessage::DisplayMessage("Error fetching device info".to_string(), true));
    let screen = state.screen();
    assert_eq!(screen.hint_message, Some("Please connect a device and unlock it...".to_string()));
    assert!(screen.app.is_none());
    assert!(!screen.reset_alarm);
    assert_eq!(screen.user_message, None);

    let mut state = LedgerInstaller::new();
    event(&mut state, LedgerMessage::DisplayMessage("Fail to get latest apps".to_string(), true));
    assert_eq!(state.screen().hint_message, Some("Fail to get latest apps".to_string()));
}

#[test]
fn scenario_no_device_attached() {
    let mut session = LedgerService::new("wss://example.invalid/update".to_string());
    let mut state = LedgerInstaller::new();
    event(&mut state, LedgerMessage::MainAppVersion(installed("2.0.0")));
    event(&mut state, LedgerMessage::LatestApps(latest("2.1.0"), latest("2.2.0")));

    deliver(&mut state, session.start().events);
    let step = session.resume(Reply::Transport(false)).unwrap();
    assert_eq!(format!("{:?}", step.events[0]), "Connected(None, None)");
    deliver(&mut state, step.events);

    assert_eq!(state.ledger_model(), None);
    assert_eq!(state.ledger_version(), None);
    assert!(state.main_app_version().is_none());
    assert!(state.main_latest_version().is_none());
    assert!(state.test_app_version().is_none());
    assert!(state.test_latest_version().is_none());
    let screen = state.screen();
    assert!(screen.app.is_none());
    assert!(!screen.reset_alarm);
    assert_eq!(screen.hint_message, Some("Please connect a device and unlock it...".to_string()));
}

#[test]
fn scenario_installed_app_is_the_latest() {
    let mut session = LedgerService::new("wss://example.invalid/update".to_string());
    let mut state = LedgerInstaller::new();
    deliver(&mut state, session.start().events);
    deliver(&mut state, session.resume(Reply::Transport(true)).unwrap().events);
    deliver(
        &mut state,
        session
            .resume(Reply::Catalog(Ok((Some(offered("2.1.0")), Some(offered("2.2.0"))))))
            .unwrap()
            .events,
    );
    deliver(
        &mut state,
        session
            .resume(Reply::DeviceInfo(Ok(DeviceInfo {
                target_id: 823132164,
                version: "2.1.0".to_string(),
            })))
            .unwrap()
            .events,
    );
    deliver(
        &mut state,
        session
            .resume(Reply::InstalledApps(Ok(vec![InstalledApp {
                version_name: "Bitcoin".to_string(),
                firmware: "nanos/2.1.0/bitcoin/app_2.1.0".to_string(),
            }])))
            .unwrap()
            .events,
    );

    assert_eq!(format!("{:?}", state.main_app_version()), "Installed(\"2.1.0\")");
    assert_eq!(format!("{:?}", state.main_latest_version()), "Latest(\"2.1.0\")");
    assert_eq!(state.ledger_model(), Some("Nano S".to_string()));
    assert_eq!(state.ledger_version(), Some("2.1.0".to_string()));
    let screen = state.screen();
    let (device, apps) = screen.app.unwrap();
    assert_eq!(device.model, "Nano S");
    assert_eq!(device.firmware, "2.1.0");
    assert_eq!(format!("{:?}", device.genuine), "Check(Some(GenuineCheck))");
    assert_eq!(format!("{:?}", apps.bitcoin.control), "Latest");
    assert_eq!(apps.bitcoin.control.label(), "Latest");
    assert_eq!(apps.bitcoin.version, "Version: 2.1.0");
    assert_eq!(format!("{:?}", apps.test.control), "Install(Some(InstallTest))");
    assert_eq!(apps.test.version, "Not installed");
    assert_eq!(screen.hint_message, None);
    assert_eq!(screen.user_message, None);
}

#[test]
fn scenario_reducer_alone_reports_latest() {
    let mut state = LedgerInstaller::new();
    event(&mut state, LedgerMessage::Connected(Some("Nano S".to_string()), Some("2.1.0".to_string())));
    event(&mut state, LedgerMessage::MainAppVersion(installed("2.1.0")));
    event(&mut state, LedgerMessage::LatestApps(latest("2.1.0"), latest("2.2.0")));
    event(&mut state, LedgerMessage::clear());
    let (_, apps) = state.screen().app.unwrap();
    assert_eq!(format!("{:?}", apps.bitcoin.control), "Latest");
    assert_eq!(format!("{:?}", apps.test.control), "Unavailable");
}

#[test]
fn scenario_device_does_not_list_its_apps() {
    let mut session = LedgerService::new("wss://example.invalid/update".to_string());
    let mut state = LedgerInstaller::new();
    deliver(&mut state, session.start().events);
    deliver(&mut state, session.resume(Reply::Transport(true)).unwrap().events);
    deliver(
        &mut state,
        session
            .resume(Reply::Catalog(Ok((Some(offered("2.1.0")), Some(offered("2.2.0"))))))
            .unwrap()
            .events,
    );
    deliver(
        &mut state,
        session
            .resume(Reply::DeviceInfo(Ok(DeviceInfo {
                target_id: 823132164,
                version: "2.1.0".to_string(),
            })))
            .unwrap()
            .events,
    );
    assert_eq!(state.ledger_model(), None);
    assert_eq!(state.ledger_version(), Some("2.1.0".to_string()));
    assert_eq!(
        state.screen().user_message,
        Some("Querying installed apps. Please confirm on device.".to_string())
    );
    deliver(
        &mut state,
        session.resume(Reply::InstalledApps(Err("denied".to_string()))).unwrap().events,
    );

    assert!(state.alarm());
    assert!(!state.device_busy());
    assert_eq!(state.user_message(), Some("Cannot check installed apps: denied".to_string()));
    assert!(state.main_app_version().is_none());
    assert!(state.test_app_version().is_none());
    assert_eq!(
        state.screen().hint_message,
        Some("Cannot check installed apps: denied".to_string())
    );
    assert!(session.is_idle());
}

#[test]
fn scenario_genuine_check_on_unreachable_device() {
    let mut session = LedgerService::new("wss://example.invalid/update".to_string());
    let mut state = LedgerInstaller::new();

    let order = state.update(Message::GenuineCheck).unwrap();
    assert!(state.device_busy());
    deliver(&mut state, session.handle_message(order).events);
    assert!(state.device_busy());
    deliver(&mut state, session.resume(Reply::Transport(false)).unwrap().events);

    assert!(!state.device_busy());
    assert_eq!(state.device_is_genuine(), None);
    assert!(state.alarm());
    assert_eq!(state.user_message(), Some("Cannot connect to device!".to_string()));
    assert!(session.is_idle());
}

#[test]
fn scenario_genuine_device() {
    let mut session = LedgerService::new("wss://example.invalid/update".to_string());
    let mut state = LedgerInstaller::new();
    event(&mut state, LedgerMessage::Connected(Some("Nano S".to_string()), Some("2.1.0".to_string())));
    event(&mut state, LedgerMessage::clear());

    let order = state.update(Message::GenuineCheck).unwrap();
    let (device, _) = state.screen().app.unwrap();
    assert_eq!(format!("{:?}", device.genuine), "Check(None)");
    deliver(&mut state, session.handle_message(order).events);
    deliver(&mut state, session.resume(Reply::Transport(true)).unwrap().events);
    assert!(state.device_busy());
    assert_eq!(state.user_message(), Some("Check if device genuine...".to_string()));
    deliver(&mut state, session.resume(Reply::Attestation(Ok(()))).unwrap().events);

    assert!(!state.device_busy());
    assert_eq!(state.device_is_genuine(), Some(true));
    assert!(!state.alarm());
    assert_eq!(state.user_message(), None);
    let (device, _) = state.screen().app.unwrap();
    assert_eq!(format!("{:?}", device.genuine), "Yes");
}

#[test]
fn messages_can_be_copied() {
    for msg in [
        Message::LedgerServiceMsg(LedgerMessage::DisplayMessage("x".to_string(), true)),
        Message::UpdateMain,
        Message::InstallMain,
        Message::UpdateTest,
        Message::InstallTest,
        Message::Connect,
        Message::GenuineCheck,
        Message::ResetAlarm,
        Message::Result,
    ] {
        assert_eq!(format!("{:?}", msg.clone()), format!("{:?}", msg));
    }
}
