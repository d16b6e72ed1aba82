//! The state behind the window: how each message changes it, and what it
//! puts on the screen.

use crate::message::{clone_text, LedgerMessage, LedgerMessageView};
use crate::notice::CONNECT_PROMPT;
use crate::screen::{
    apps_container, apps_panel, device_container, device_panel, AppsPanel, DevicePanel, Screen,
    ScreenView,
};
use crate::version::{Version, VersionView};
use vstd::prelude::*;
use vstd::string::*;

verus! {

/// What the window's state is handed: an event from the session, or what
/// the user did.
#[derive(Debug)]
pub enum Message {
    /// An event from the session.
    LedgerServiceMsg(LedgerMessage),
    /// The user asks for an update of the mainnet app.
    UpdateMain,
    /// The user asks for the mainnet app to be installed.
    InstallMain,
    /// The user asks for an update of the testnet app.
    UpdateTest,
    /// The user asks for the testnet app to be installed.
    InstallTest,
    /// The user asks to look for the device. Nothing on the screen sends
    /// it, and it changes nothing.
    Connect,
    /// The user asks for the device to be attested.
    GenuineCheck,
    /// The user has read the alarm.
    ResetAlarm,
    /// A resource of the window has been loaded.
    Result,
}

/// A `Message` with its texts as sequences of characters.
pub enum MessageView {
    LedgerServiceMsg(LedgerMessageView),
    UpdateMain,
    InstallMain,
    UpdateTest,
    InstallTest,
    Connect,
    GenuineCheck,
    ResetAlarm,
    Result,
}

impl MessageView {
    /// Whether the message has the session begin an operation.
    pub open spec fn is_order(self) -> bool {
        self is UpdateMain || self is InstallMain || self is UpdateTest || self is InstallTest
            || self is GenuineCheck
    }
}

impl View for Message {
    type V = MessageView;

    open spec fn view(&self) -> MessageView {
        match self {
            Message::LedgerServiceMsg(msg) => MessageView::LedgerServiceMsg(msg@),
            Message::UpdateMain => MessageView::UpdateMain,
            Message::InstallMain => MessageView::InstallMain,
            Message::UpdateTest => MessageView::UpdateTest,
            Message::InstallTest => MessageView::InstallTest,
            Message::Connect => MessageView::Connect,
            Message::GenuineCheck => MessageView::GenuineCheck,
            Message::ResetAlarm => MessageView::ResetAlarm,
            Message::Result => MessageView::Result,
        }
    }
}

impl DeepView for Message {
    type V = MessageView;

    open spec fn deep_view(&self) -> MessageView {
        self@
    }
}

impl Clone for Message {
    fn clone(&self) -> (copy: Self)
        ensures
            copy@ == self@,
    {
        match self {
            Message::LedgerServiceMsg(msg) => Message::LedgerServiceMsg(msg.clone()),
            Message::UpdateMain => Message::UpdateMain,
            Message::InstallMain => Message::InstallMain,
            Message::UpdateTest => Message::UpdateTest,
            Message::InstallTest => Message::InstallTest,
            Message::Connect => Message::Connect,
            Message::GenuineCheck => Message::GenuineCheck,
            Message::ResetAlarm => Message::ResetAlarm,
            Message::Result => Message::Result,
        }
    }
}

/// The state behind the window, with its texts as sequences of characters.
pub struct InstallerView {
    /// The device's model; none while no device is connected.
    pub ledger_model: Option<Seq<char>>,
    /// The device's firmware version.
    pub ledger_version: Option<Seq<char>>,
    pub main_app_version: VersionView,
    pub main_latest_version: VersionView,
    pub test_app_version: VersionView,
    pub test_latest_version: VersionView,
    /// The last text for the user.
    pub user_message: Option<Seq<char>>,
    /// The outcome of the attestation, once one succeeded.
    pub device_is_genuine: Option<bool>,
    /// Whether the session is at work on the user's behalf.
    pub device_busy: bool,
    /// Whether the last text reports a failure.
    pub alarm: bool,
}

impl InstallerView {
    /// The state in which the window opens.
    pub open spec fn initial() -> InstallerView {
        InstallerView {
            ledger_model: None,
            ledger_version: None,
            main_app_version: VersionView::Unknown,
            main_latest_version: VersionView::Unknown,
            test_app_version: VersionView::Unknown,
            test_latest_version: VersionView::Unknown,
            user_message: Some(CONNECT_PROMPT@),
            device_is_genuine: None,
            device_busy: false,
            alarm: false,
        }
    }

    /// The state after an event from the session. Every event that ends
    /// an operation takes the busy mark away; a device that is gone takes
    /// everything known of the apps with it; an empty text without alarm
    /// takes the last text away. A command is no event, and changes nothing.
    pub open spec fn after_event(self, event: LedgerMessageView) -> InstallerView {
        match event {
            LedgerMessageView::Connected(model, version) => {
                let known = if model is None {
                    InstallerView {
                        main_app_version: VersionView::Unknown,
                        main_latest_version: VersionView::Unknown,
                        test_app_version: VersionView::Unknown,
                        test_latest_version: VersionView::Unknown,
                        ..self
                    }
                } else {
                    self
                };
                InstallerView {
                    device_busy: false,
                    ledger_model: model,
                    ledger_version: version,
                    ..known
                }
            },
            LedgerMessageView::MainAppVersion(version) => InstallerView {
                device_busy: false,
                main_app_version: version,
                ..self
            },
            LedgerMessageView::TestAppVersion(version) => InstallerView {
                device_busy: false,
                test_app_version: version,
                ..self
            },
            LedgerMessageView::DisplayMessage(text, alarm) => InstallerView {
                device_busy: self.device_busy && !alarm,
                user_message: if text.len() == 0 && !alarm {
                    None
                } else {
                    Some(text)
                },
                alarm,
                ..self
            },
            LedgerMessageView::DeviceIsGenuine(genuine) => InstallerView {
                device_is_genuine: genuine,
                device_busy: false,
                ..self
            },
            LedgerMessageView::LatestApps(mainnet, testnet) => InstallerView {
                main_latest_version: mainnet,
                test_latest_version: testnet,
                ..self
            },
            _ => self,
        }
    }

    /// The command that goes to the session when the window's state is
    /// handed `event`, if one does.
    pub open spec fn order(event: MessageView) -> Option<LedgerMessageView> {
        match event {
            MessageView::UpdateMain => Some(LedgerMessageView::UpdateMain),
            MessageView::InstallMain => Some(LedgerMessageView::InstallMain),
            MessageView::UpdateTest => Some(LedgerMessageView::UpdateTest),
            MessageView::InstallTest => Some(LedgerMessageView::InstallTest),
            MessageView::GenuineCheck => Some(LedgerMessageView::GenuineCheck),
            _ => None,
        }
    }

    /// The state after `event`. What the user orders marks the session as
    /// busy, and an install forgets what was known of the installed apps.
    pub open spec fn update(self, event: MessageView) -> InstallerView {
        match event {
            MessageView::LedgerServiceMsg(msg) => self.after_event(msg),
            MessageView::ResetAlarm => InstallerView { alarm: false, user_message: None, ..self },
            MessageView::UpdateMain => InstallerView { device_busy: true, ..self },
            MessageView::UpdateTest => InstallerView { device_busy: true, ..self },
            MessageView::GenuineCheck => InstallerView { device_busy: true, ..self },
            MessageView::InstallMain => InstallerView {
                main_app_version: VersionView::Unknown,
                test_app_version: VersionView::Unknown,
                device_busy: true,
                ..self
            },
            MessageView::InstallTest => InstallerView {
                main_app_version: VersionView::Unknown,
                test_app_version: VersionView::Unknown,
                device_busy: true,
                ..self
            },
            _ => self,
        }
    }

    /// Whether the device and its apps are on the screen.
    pub open spec fn display_app(self) -> bool {
        self.ledger_model is Some && !self.alarm
    }

    /// The text at the top of the screen: the alarm, or in its place the
    /// prompt to connect a device when none is connected although the
    /// catalog has answered.
    pub open spec fn hint_message(self) -> Option<Seq<char>> {
        if self.alarm && (self.ledger_model is Some || self.main_latest_version is Unknown) {
            self.user_message
        } else if self.alarm && self.user_message is Some {
            Some(CONNECT_PROMPT@)
        } else {
            None
        }
    }

    /// What is on the screen.
    pub open spec fn screen(self) -> ScreenView {
        ScreenView {
            hint_message: self.hint_message(),
            app: if self.display_app() {
                Some(
                    (
                        device_panel(
                            self.ledger_model,
                            self.ledger_version,
                            self.device_is_genuine,
                            self.device_busy,
                        ),
                        apps_panel(
                            self.main_app_version,
                            self.main_latest_version,
                            self.test_app_version,
                            self.test_latest_version,
                            self.device_busy,
                        ),
                    ),
                )
            } else {
                None
            },
            reset_alarm: self.alarm && self.ledger_model is Some,
            user_message: if self.alarm {
                None
            } else {
                self.user_message
            },
        }
    }
}

/// The state behind the window.
pub struct LedgerInstaller {
    ledger_model: Option<String>,
    ledger_version: Option<String>,
    main_app_version: Version,
    main_latest_version: Version,
    test_app_version: Version,
    test_latest_version: Version,
    user_message: Option<String>,
    device_is_genuine: Option<bool>,
    device_busy: bool,
    alarm: bool,
}

impl View for LedgerInstaller {
    type V = InstallerView;

    closed spec fn view(&self) -> InstallerView {
        InstallerView {
            ledger_model: self.ledger_model.deep_view(),
            ledger_version: self.ledger_version.deep_view(),
            main_app_version: self.main_app_version@,
            main_latest_version: self.main_latest_version@,
            test_app_version: self.test_app_version@,
            test_latest_version: self.test_latest_version@,
            user_message: self.user_message.deep_view(),
            device_is_genuine: self.device_is_genuine,
            device_busy: self.device_busy,
            alarm: self.alarm,
        }
    }
}

impl LedgerInstaller {
    /// The state in which the window opens: nothing known, and the prompt
    /// to connect a device as the text for the user.
    pub fn new() -> (state: LedgerInstaller)
        ensures
            state@ == InstallerView::initial(),
    {
        LedgerInstaller {
            ledger_model: None,
            ledger_version: None,
            main_app_version: Version::Unknown,
            main_latest_version: Version::Unknown,
            test_app_version: Version::Unknown,
            test_latest_version: Version::Unknown,
            user_message: Some(String::from_str(CONNECT_PROMPT)),
            device_is_genuine: None,
            device_busy: false,
            alarm: false,
        }
    }

    /// Takes a message, changes the state by it, and gives the command that
    /// is to go to the session, if the message orders one.
    pub fn update(&mut self, event: Message) -> (order: Option<LedgerMessage>)
        ensures
            final(self)@ == old(self)@.update(event@),
            order.deep_view() == InstallerView::order(event@),
    {
        match event {
            Message::LedgerServiceMsg(ledger) => {
                self.handle_event(ledger);
                None
            },
            Message::ResetAlarm => {
                self.alarm = false;
                self.user_message = None;
                None
            },
            Message::UpdateMain => {
                self.device_busy = true;
                Some(LedgerMessage::UpdateMain)
            },
            Message::InstallMain => {
                self.main_app_version = Version::Unknown;
                self.test_app_version = Version::Unknown;
                self.device_busy = true;
                Some(LedgerMessage::InstallMain)
            },
            Message::UpdateTest => {
                self.device_busy = true;
                Some(LedgerMessage::UpdateTest)
            },
            Message::InstallTest => {
                self.main_app_version = Version::Unknown;
                self.test_app_version = Version::Unknown;
                self.device_busy = true;
                Some(LedgerMessage::InstallTest)
            },
            Message::GenuineCheck => {
                self.device_busy = true;
                Some(LedgerMessage::GenuineCheck)
            },
            _ => None,
        }
    }

    /// Changes the state by an event from the session.
    fn handle_event(&mut self, event: LedgerMessage)
        ensures
            final(self)@ == old(self)@.after_event(event@),
    {
        match event {
            LedgerMessage::Connected(model, version) => {
                self.device_busy = false;
                if model.is_none() {
                    self.main_app_version = Version::Unknown;
                    self.main_latest_version = Version::Unknown;
                    self.test_app_version = Version::Unknown;
                    self.test_latest_version = Version::Unknown;
                }
                self.ledger_model = model;
                self.ledger_version = version;
            },
            LedgerMessage::MainAppVersion(version) => {
                self.device_busy = false;
                self.main_app_version = version;
            },
            LedgerMessage::TestAppVersion(version) => {
                self.device_busy = false;
                self.test_app_version = version;
            },
            LedgerMessage::DisplayMessage(text, alarm) => {
                if alarm {
                    self.device_busy = false;
                }
                self.user_message = if text.as_str().is_empty() && !alarm {
                    None
                } else {
                    Some(text)
                };
                self.alarm = alarm;
            },
            LedgerMessage::DeviceIsGenuine(genuine) => {
                self.device_is_genuine = genuine;
                self.device_busy = false;
            },
            LedgerMessage::LatestApps(mainnet, testnet) => {
                self.main_latest_version = mainnet;
                self.test_latest_version = testnet;
            },
            _ => {},
        }
    }

    /// What is to be put on the screen.
    pub fn screen(&self) -> (screen: Screen)
        ensures
            screen@ == self@.screen(),
    {
        let has_model = self.ledger_model.is_some();
        let hint_message = if self.alarm && (has_model || self.main_latest_version.is_none()) {
            clone_text(&self.user_message)
        } else if self.alarm && self.user_message.is_some() {
            Some(String::from_str(CONNECT_PROMPT))
        } else {
            None
        };
        let app = if has_model && !self.alarm {
            Some(
                (
                    device_container(
                        clone_text(&self.ledger_model),
                        clone_text(&self.ledger_version),
                        self.device_is_genuine,
                        self.device_busy,
                    ),
                    apps_container(
                        self.main_app_version.clone(),
                        self.main_latest_version.clone(),
                        self.test_app_version.clone(),
                        self.test_latest_version.clone(),
                        self.device_busy,
                    ),
                ),
            )
        } else {
            None
        };
        let user_message = if self.alarm {
            None
        } else {
            clone_text(&self.user_message)
        };
        Screen { hint_message, app, reset_alarm: self.alarm && has_model, user_message }
    }

    /// The device's model; none while no device is connected.
    pub fn ledger_model(&self) -> (model: Option<String>)
        ensures
            model.deep_view() == self@.ledger_model,
    {
        clone_text(&self.ledger_model)
    }

    /// The device's firmware version.
    pub fn ledger_version(&self) -> (version: Option<String>)
        ensures
            version.deep_view() == self@.ledger_version,
    {
        clone_text(&self.ledger_version)
    }

    /// What is installed of the mainnet app.
    pub fn main_app_version(&self) -> (version: Version)
        ensures
            version@ == self@.main_app_version,
    {
        self.main_app_version.clone()
    }

    /// The latest mainnet app that the catalog offers.
    pub fn main_latest_version(&self) -> (version: Version)
        ensures
            version@ == self@.main_latest_version,
    {
        self.main_latest_version.clone()
    }

    /// What is installed of the testnet app.
    pub fn test_app_version(&self) -> (version: Version)
        ensures
            version@ == self@.test_app_version,
    {
        self.test_app_version.clone()
    }

    /// The latest testnet app that the catalog offers.
    pub fn test_latest_version(&self) -> (version: Version)
        ensures
            version@ == self@.test_latest_version,
    {
        self.test_latest_version.clone()
    }

    /// The last text for the user.
    pub fn user_message(&self) -> (text: Option<String>)
        ensures
            text.deep_view() == self@.user_message,
    {
        clone_text(&self.user_message)
    }

    /// The outcome of the attestation, once one succeeded.
    pub fn device_is_genuine(&self) -> (genuine: Option<bool>)
        ensures
            genuine == self@.device_is_genuine,
    {
        self.device_is_genuine
    }

    /// Whether the session is at work on the user's behalf.
    pub fn device_busy(&self) -> (busy: bool)
        ensures
            busy == self@.device_busy,
    {
        self.device_busy
    }

    /// Whether the last text reports a failure.
    pub fn alarm(&self) -> (alarm: bool)
        ensures
            alarm == self@.alarm,
    {
        self.alarm
    }
}

} // verus!
