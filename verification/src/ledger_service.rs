//! The session that owns the device: it takes commands and the outcomes of
//! outside work, and says what to publish and what to do next.
//!
//! One operation runs at a time. The driver hands in a command with
//! `handle_message`, performs the request of the step it gets back, hands the
//! outcome in with `resume`, and goes on so until a step asks for nothing.

use crate::device::{
    check_apps_installed, check_latest_apps, CatalogApp, DeviceInfo, InstalledApp,
};
use crate::driver::{Reply, Request, Step};
use crate::install_url::install_url;
use crate::message::{clone_text, emit, no_events, LedgerMessage};
use crate::notice::{
    app_query_failed, check_failed, device_connected, device_unreachable, install_failed,
    listing_failed, ALLOW_MANAGER, APP_NOT_FOUND, CANNOT_CONNECT, CATALOG_FAILED,
    CHECKING_GENUINE, CONNECT_PROMPT, DEVICE_INFO_FAILED, DOWNLOADING, FETCHING_DEVICE_INFO,
    INSTALLED, INSTALLING, LISTING_APPS, QUERYING_APPS, QUERYING_CATALOG,
};
use crate::session::{PhaseView, SessionView};
use crate::session_laws::{handle_message_is_sound, resume_is_sound, start_is_sound};
use crate::version::Version;
use vstd::prelude::*;
use vstd::string::*;

verus! {

/// Where the session stands: idle, or waiting for one reply.
enum Phase {
    Idle,
    PollTransport,
    PollCatalog,
    PollDeviceInfo,
    PollInstalledApps,
    InstallTransport { testnet: bool },
    InstallDeviceInfo { testnet: bool },
    InstallAppInfo { target_id: u32 },
    Installing,
    CheckTransport,
    Checking,
}

impl View for Phase {
    type V = PhaseView;

    closed spec fn view(&self) -> PhaseView {
        match self {
            Phase::Idle => PhaseView::Idle,
            Phase::PollTransport => PhaseView::PollTransport,
            Phase::PollCatalog => PhaseView::PollCatalog,
            Phase::PollDeviceInfo => PhaseView::PollDeviceInfo,
            Phase::PollInstalledApps => PhaseView::PollInstalledApps,
            Phase::InstallTransport { testnet } => PhaseView::InstallTransport {
                testnet: *testnet,
            },
            Phase::InstallDeviceInfo { testnet } => PhaseView::InstallDeviceInfo {
                testnet: *testnet,
            },
            Phase::InstallAppInfo { target_id } => PhaseView::InstallAppInfo {
                target_id: *target_id,
            },
            Phase::Installing => PhaseView::Installing,
            Phase::CheckTransport => PhaseView::CheckTransport,
            Phase::Checking => PhaseView::Checking,
        }
    }
}

/// The session with one device.
pub struct LedgerService {
    device_version: Option<String>,
    mainnet_version: Version,
    testnet_version: Version,
    last_mainnet: Version,
    last_testnet: Version,
    socket_url: String,
    phase: Phase,
}

impl View for LedgerService {
    type V = SessionView;

    closed spec fn view(&self) -> SessionView {
        SessionView {
            device_version: self.device_version.deep_view(),
            mainnet_version: self.mainnet_version@,
            testnet_version: self.testnet_version@,
            last_mainnet: self.last_mainnet@,
            last_testnet: self.last_testnet@,
            socket_url: self.socket_url@,
            phase: self.phase@,
        }
    }
}

impl LedgerService {
    /// A session that knows nothing yet. `socket_url` is the base address of
    /// the install service.
    pub fn new(socket_url: String) -> (service: LedgerService)
        ensures
            service@ == SessionView::initial(socket_url@),
            service@.well_formed(),
    {
        LedgerService {
            device_version: None,
            mainnet_version: Version::Unknown,
            testnet_version: Version::Unknown,
            last_mainnet: Version::Unknown,
            last_testnet: Version::Unknown,
            socket_url,
            phase: Phase::Idle,
        }
    }

    /// Whether no operation runs, so that the next command would be taken.
    pub fn is_idle(&self) -> (idle: bool)
        ensures
            idle == self@.is_idle(),
    {
        matches!(self.phase, Phase::Idle)
    }

    /// The firmware version of the connected device, if one is connected.
    pub fn device_version(&self) -> (version: Option<String>)
        ensures
            version.deep_view() == self@.device_version,
    {
        clone_text(&self.device_version)
    }

    /// What is installed of the mainnet app.
    pub fn mainnet_version(&self) -> (version: Version)
        ensures
            version@ == self@.mainnet_version,
    {
        self.mainnet_version.clone()
    }

    /// What is installed of the testnet app.
    pub fn testnet_version(&self) -> (version: Version)
        ensures
            version@ == self@.testnet_version,
    {
        self.testnet_version.clone()
    }

    /// The latest mainnet app that the catalog offers.
    pub fn last_mainnet(&self) -> (version: Version)
        ensures
            version@ == self@.last_mainnet,
    {
        self.last_mainnet.clone()
    }

    /// The latest testnet app that the catalog offers.
    pub fn last_testnet(&self) -> (version: Version)
        ensures
            version@ == self@.last_testnet,
    {
        self.last_testnet.clone()
    }

    /// Begins the session: polls for the device at once, and has the first
    /// retry scheduled. A session in the middle of an operation is left as
    /// it is.
    pub fn start(&mut self) -> (step: Step)
        ensures
            (final(self)@, step@) =~~= old(self)@.start(),
            old(self)@.well_formed() ==> final(self)@.well_formed(),
    {
        proof {
            if self@.is_idle() && self@.well_formed() {
                start_is_sound(self@);
            }
        }
        if self.is_idle() {
            self.poll().and_poll_later()
        } else {
            Step::nothing()
        }
    }

    /// Takes a message from the presentation layer and begins what it asks
    /// for. While an operation runs, and for anything but a command, nothing
    /// changes and the step is empty.
    pub fn handle_message(&mut self, msg: LedgerMessage) -> (step: Step)
        ensures
            (final(self)@, step@) =~~= old(self)@.handle_message(msg@),
            old(self)@.well_formed() ==> final(self)@.well_formed(),
    {
        proof {
            if self@.is_idle() && self@.well_formed() {
                handle_message_is_sound(self@, msg@);
            }
        }
        if !self.is_idle() {
            return Step::nothing();
        }
        match msg {
            LedgerMessage::TryConnect => {
                if self.device_version.is_none() {
                    self.poll().and_poll_later()
                } else {
                    Step::nothing()
                }
            },
            LedgerMessage::UpdateMain => self.update_main(),
            LedgerMessage::InstallMain => self.install_main(),
            LedgerMessage::UpdateTest => self.update_test(),
            LedgerMessage::InstallTest => self.install_test(),
            LedgerMessage::GenuineCheck => self.genuine_check(),
            _ => Step::nothing(),
        }
    }

    /// Takes the outcome of the request that the last step asked for, and
    /// goes on with the operation. For a reply that the session does not
    /// wait for, nothing changes and there is no step.
    pub fn resume(&mut self, reply: Reply) -> (step: Option<Step>)
        ensures
            match old(self)@.resume(reply@) {
                Some((next, taken)) => {
                    &&& final(self)@ == next
                    &&& step matches Some(s)
                    &&& s@ == taken
                },
                None => {
                    &&& final(self)@ == old(self)@
                    &&& step is None
                },
            },
            old(self)@.well_formed() ==> final(self)@.well_formed(),
    {
        proof {
            if self@.well_formed() && self@.phase.awaits(reply@) {
                resume_is_sound(self@, reply@);
            }
        }
        match reply {
            Reply::Transport(connected) => match self.phase {
                Phase::PollTransport => Some(self.poll_connected(connected)),
                Phase::InstallTransport { testnet } => Some(self.install_app(testnet, connected)),
                Phase::CheckTransport => Some(self.check_connected(connected)),
                _ => None,
            },
            Reply::Catalog(found) => match self.phase {
                Phase::PollCatalog => Some(self.poll_catalog(found)),
                _ => None,
            },
            Reply::DeviceInfo(found) => match self.phase {
                Phase::PollDeviceInfo => Some(self.poll_device_info(found)),
                Phase::InstallDeviceInfo { testnet } => Some(
                    self.install_device_info(testnet, found),
                ),
                _ => None,
            },
            Reply::InstalledApps(found) => match self.phase {
                Phase::PollInstalledApps => Some(self.poll_installed_apps(found)),
                _ => None,
            },
            Reply::AppInfo(found) => match self.phase {
                Phase::InstallAppInfo { target_id } => Some(
                    self.install_app_info(target_id, found),
                ),
                _ => None,
            },
            Reply::Install(outcome) => match self.phase {
                Phase::Installing => Some(self.install_done(outcome)),
                _ => None,
            },
            Reply::Attestation(outcome) => match self.phase {
                Phase::Checking => Some(self.check_done(outcome)),
                _ => None,
            },
        }
    }

    /// Begins a poll, unless a device is connected already.
    fn poll(&mut self) -> (step: Step)
        ensures
            (final(self)@, step@) =~~= old(self)@.poll(),
    {
        if self.device_version.is_none() {
            self.phase = Phase::PollTransport;
            Step::ask(no_events(), Request::Transport)
        } else {
            Step::nothing()
        }
    }

    /// Adds to `events` those that report the installed apps, as far as
    /// anything is known of them, and the latest apps.
    fn update_apps_version(&self, events: &mut Vec<LedgerMessage>)
        ensures
            final(events).deep_view() == old(events).deep_view() + self@.apps_version(),
    {
        if self.mainnet_version.is_some() {
            emit(events, LedgerMessage::MainAppVersion(self.mainnet_version.clone()));
        }
        if self.testnet_version.is_some() {
            emit(events, LedgerMessage::TestAppVersion(self.testnet_version.clone()));
        }
        emit(events, LedgerMessage::LatestApps(self.last_mainnet.clone(), self.last_testnet.clone()));
    }

    /// Begins an install or an update of the mainnet app, or of the testnet
    /// app if `testnet`.
    fn install(&mut self, testnet: bool) -> (step: Step)
        ensures
            (final(self)@, step@) =~~= old(self)@.install(testnet),
    {
        self.mainnet_version = Version::Unknown;
        self.testnet_version = Version::Unknown;
        self.phase = Phase::InstallTransport { testnet };
        let mut events = no_events();
        emit(&mut events, LedgerMessage::MainAppVersion(Version::Unknown));
        emit(&mut events, LedgerMessage::TestAppVersion(Version::Unknown));
        emit(&mut events, LedgerMessage::notice(DOWNLOADING, false));
        Step::ask(events, Request::Transport)
    }

    /// Begins the install of the mainnet app.
    fn install_main(&mut self) -> (step: Step)
        ensures
            (final(self)@, step@) =~~= old(self)@.install(false),
    {
        self.install(false)
    }

    /// Begins the update of the mainnet app, which is an install over the
    /// one that is there.
    fn update_main(&mut self) -> (step: Step)
        ensures
            (final(self)@, step@) =~~= old(self)@.install(false),
    {
        self.install(false)
    }

    /// Begins the install of the testnet app.
    fn install_test(&mut self) -> (step: Step)
        ensures
            (final(self)@, step@) =~~= old(self)@.install(true),
    {
        self.install(true)
    }

    /// Begins the update of the testnet app, which is an install over the
    /// one that is there.
    fn update_test(&mut self) -> (step: Step)
        ensures
            (final(self)@, step@) =~~= old(self)@.install(true),
    {
        self.install(true)
    }

    /// Begins an attestation.
    fn genuine_check(&mut self) -> (step: Step)
        ensures
            (final(self)@, step@) =~~= old(self)@.genuine_check(),
    {
        self.phase = Phase::CheckTransport;
        Step::ask(no_events(), Request::Transport)
    }

    /// Goes on with a poll once it is known whether the transport is open.
    fn poll_connected(&mut self, connected: bool) -> (step: Step)
        ensures
            (final(self)@, step@) =~~= old(self)@.poll_connected(connected),
    {
        let mut events = no_events();
        if !connected {
            self.phase = Phase::Idle;
            emit(&mut events, LedgerMessage::Connected(None, None));
            emit(&mut events, LedgerMessage::notice(CONNECT_PROMPT, true));
            Step::done(events)
        } else if self.last_mainnet.is_none() || self.last_testnet.is_none() {
            self.phase = Phase::PollCatalog;
            emit(&mut events, LedgerMessage::notice(QUERYING_CATALOG, false));
            Step::ask(events, Request::Catalog)
        } else {
            self.phase = Phase::PollDeviceInfo;
            Step::ask(events, Request::DeviceInfo)
        }
    }

    /// Goes on with a poll once the catalog has answered or failed.
    fn poll_catalog(
        &mut self,
        found: Result<(Option<CatalogApp>, Option<CatalogApp>), String>,
    ) -> (step: Step)
        ensures
            (final(self)@, step@) =~~= old(self)@.poll_catalog(
                match found {
                    Ok(apps) => Ok((apps.0.deep_view(), apps.1.deep_view())),
                    Err(cause) => Err(cause@),
                },
            ),
    {
        let mut events = no_events();
        self.phase = Phase::PollDeviceInfo;
        match found {
            Ok((bitcoin, test)) => {
                let (mainnet, testnet) = check_latest_apps(bitcoin, test);
                self.last_mainnet = mainnet.clone();
                self.last_testnet = testnet.clone();
                emit(&mut events, LedgerMessage::LatestApps(mainnet, testnet));
            },
            Err(_) => {
                emit(&mut events, LedgerMessage::notice(CATALOG_FAILED, true));
            },
        }
        Step::ask(events, Request::DeviceInfo)
    }

    /// Goes on with a poll once the device has described itself or failed to.
    fn poll_device_info(&mut self, found: Result<DeviceInfo, String>) -> (step: Step)
        ensures
            (final(self)@, step@) =~~= old(self)@.poll_device_info(
                match found {
                    Ok(info) => Ok(info@),
                    Err(cause) => Err(cause@),
                },
            ),
    {
        let mut events = no_events();
        match found {
            Ok(info) => {
                emit(
                    &mut events,
                    LedgerMessage::DisplayMessage(device_connected(info.version.as_str()), false),
                );
                emit(&mut events, LedgerMessage::Connected(None, Some(info.version.clone())));
                emit(&mut events, LedgerMessage::notice(QUERYING_APPS, false));
                emit(&mut events, LedgerMessage::notice(QUERYING_APPS, false));
                self.device_version = Some(info.version);
                self.phase = Phase::PollInstalledApps;
                Step::ask(events, Request::InstalledApps)
            },
            Err(cause) => {
                emit(
                    &mut events,
                    LedgerMessage::DisplayMessage(device_unreachable(cause.as_str()), true),
                );
                self.phase = Phase::Idle;
                Step::done(events)
            },
        }
    }

    /// Ends a poll once the device has listed its apps or failed to.
    fn poll_installed_apps(&mut self, found: Result<Vec<InstalledApp>, String>) -> (step: Step)
        ensures
            (final(self)@, step@) =~~= old(self)@.poll_installed_apps(
                match found {
                    Ok(apps) => Ok(apps.deep_view()),
                    Err(cause) => Err(cause@),
                },
            ),
    {
        let mut events = no_events();
        self.phase = Phase::Idle;
        match found {
            Ok(apps) => {
                let inventory = check_apps_installed(&apps);
                emit(&mut events, LedgerMessage::notice(LISTING_APPS, false));
                emit(&mut events, LedgerMessage::clear());
                emit(
                    &mut events,
                    LedgerMessage::Connected(
                        Some(inventory.model.to_string()),
                        clone_text(&self.device_version),
                    ),
                );
                self.mainnet_version = inventory.mainnet;
                self.testnet_version = inventory.testnet;
                self.update_apps_version(&mut events);
                emit(&mut events, LedgerMessage::clear());
            },
            Err(cause) => {
                emit(
                    &mut events,
                    LedgerMessage::DisplayMessage(listing_failed(cause.as_str()), true),
                );
                emit(
                    &mut events,
                    LedgerMessage::DisplayMessage(check_failed(cause.as_str()), true),
                );
            },
        }
        Step::done(events)
    }

    /// Ends an install: the device counts as disconnected, and a poll begins.
    fn reconnect(&mut self, events: Vec<LedgerMessage>) -> (step: Step)
        ensures
            (final(self)@, step@) =~~= old(self)@.reconnect(events.deep_view()),
    {
        self.device_version = None;
        self.phase = Phase::PollTransport;
        Step::ask(events, Request::Transport)
    }

    /// Goes on with an install once it is known whether the transport is open.
    fn install_app(&mut self, testnet: bool, connected: bool) -> (step: Step)
        ensures
            (final(self)@, step@) =~~= old(self)@.install_app(testnet, connected),
    {
        let mut events = no_events();
        if connected {
            self.phase = Phase::InstallDeviceInfo { testnet };
            emit(&mut events, LedgerMessage::notice(FETCHING_DEVICE_INFO, false));
            Step::ask(events, Request::DeviceInfo)
        } else {
            self.reconnect(events)
        }
    }

    /// Goes on with an install once the device has described itself or
    /// failed to.
    fn install_device_info(&mut self, testnet: bool, found: Result<DeviceInfo, String>) -> (step:
        Step)
        ensures
            (final(self)@, step@) =~~= old(self)@.install_device_info(
                testnet,
                match found {
                    Ok(info) => Ok(info@),
                    Err(cause) => Err(cause@),
                },
            ),
    {
        let mut events = no_events();
        match found {
            Ok(info) => {
                self.phase = Phase::InstallAppInfo { target_id: info.target_id };
                Step::ask(events, Request::AppInfo { testnet })
            },
            Err(_) => {
                emit(&mut events, LedgerMessage::notice(DEVICE_INFO_FAILED, true));
                self.reconnect(events)
            },
        }
    }

    /// Goes on with an install once the catalog has answered for the app or
    /// failed.
    fn install_app_info(
        &mut self,
        target_id: u32,
        found: Result<Option<CatalogApp>, String>,
    ) -> (step: Step)
        ensures
            (final(self)@, step@) =~~= old(self)@.install_app_info(
                target_id,
                match found {
                    Ok(app) => Ok(app.deep_view()),
                    Err(cause) => Err(cause@),
                },
            ),
    {
        let mut events = no_events();
        match found {
            Ok(Some(app)) => {
                emit(&mut events, LedgerMessage::notice(ALLOW_MANAGER, false));
                let url = install_url(self.socket_url.as_str(), target_id, &app);
                emit(&mut events, LedgerMessage::notice(INSTALLING, false));
                self.phase = Phase::Installing;
                Step::ask(events, Request::Install { url })
            },
            Ok(None) => {
                emit(&mut events, LedgerMessage::notice(APP_NOT_FOUND, true));
                self.reconnect(events)
            },
            Err(cause) => {
                emit(
                    &mut events,
                    LedgerMessage::DisplayMessage(app_query_failed(cause.as_str()), true),
                );
                self.reconnect(events)
            },
        }
    }

    /// Ends an install once the install service has ended.
    fn install_done(&mut self, outcome: Result<(), String>) -> (step: Step)
        ensures
            (final(self)@, step@) =~~= old(self)@.install_done(
                match outcome {
                    Ok(_) => Ok(()),
                    Err(cause) => Err(cause@),
                },
            ),
    {
        let mut events = no_events();
        match outcome {
            Ok(_) => {
                emit(&mut events, LedgerMessage::notice(INSTALLED, false));
            },
            Err(cause) => {
                emit(
                    &mut events,
                    LedgerMessage::DisplayMessage(install_failed(cause.as_str()), true),
                );
            },
        }
        self.reconnect(events)
    }

    /// Goes on with an attestation once it is known whether the transport is
    /// open.
    fn check_connected(&mut self, connected: bool) -> (step: Step)
        ensures
            (final(self)@, step@) =~~= old(self)@.check_connected(connected),
    {
        let mut events = no_events();
        if connected {
            self.phase = Phase::Checking;
            emit(&mut events, LedgerMessage::notice(CHECKING_GENUINE, false));
            Step::ask(events, Request::Attestation)
        } else {
            self.phase = Phase::Idle;
            emit(&mut events, LedgerMessage::notice(CANNOT_CONNECT, true));
            emit(&mut events, LedgerMessage::DeviceIsGenuine(None));
            Step::done(events)
        }
    }

    /// Ends an attestation once its outcome is known.
    fn check_done(&mut self, outcome: Result<(), String>) -> (step: Step)
        ensures
            (final(self)@, step@) =~~= old(self)@.check_done(
                match outcome {
                    Ok(_) => Ok(()),
                    Err(cause) => Err(cause@),
                },
            ),
    {
        let mut events = no_events();
        self.phase = Phase::Idle;
        match outcome {
            Ok(_) => {
                emit(&mut events, LedgerMessage::clear());
                emit(&mut events, LedgerMessage::DeviceIsGenuine(Some(true)));
            },
            Err(cause) => {
                emit(&mut events, LedgerMessage::DisplayMessage(cause, true));
                emit(&mut events, LedgerMessage::DeviceIsGenuine(None));
            },
        }
        Step::done(events)
    }
}

} // verus!
