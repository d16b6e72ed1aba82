//! The session as a state machine over plain values.
//!
//! A session is idle or in the middle of one operation: a poll for the
//! device, an install, or an attestation. An operation is a chain of outside
//! requests. Each transition takes the state and a command or a reply, and
//! gives the next state, the events to publish, and the next request, if the
//! operation goes on.

use crate::device::{latest_version, CatalogAppView, DeviceInfoView, InstalledAppView, InventoryView};
use crate::driver::{ReplyView, RequestView, StepView};
use crate::install_url::install_address;
use crate::message::LedgerMessageView;
use crate::notice::{
    app_query_failed_text, check_failed_text, device_connected_text, device_unreachable_text,
    install_failed_text, listing_failed_text, ALLOW_MANAGER, APP_NOT_FOUND,
    CANNOT_CONNECT, CATALOG_FAILED, CHECKING_GENUINE, CONNECT_PROMPT, DEVICE_INFO_FAILED,
    DOWNLOADING, FETCHING_DEVICE_INFO, INSTALLED, INSTALLING, LISTING_APPS, QUERYING_APPS,
    QUERYING_CATALOG,
};
use crate::version::VersionView;
use vstd::prelude::*;

verus! {

/// Where the session stands: idle, or waiting for one reply.
pub enum PhaseView {
    /// No operation runs.
    Idle,
    /// A poll waits for the transport.
    PollTransport,
    /// A poll waits for the catalog.
    PollCatalog,
    /// A poll waits for the device's description.
    PollDeviceInfo,
    /// A poll waits for the list of installed apps.
    PollInstalledApps,
    /// An install waits for the transport.
    InstallTransport { testnet: bool },
    /// An install waits for the device's description.
    InstallDeviceInfo { testnet: bool },
    /// An install waits for the catalog's entry for the app.
    InstallAppInfo { target_id: u32 },
    /// An install waits for the install service.
    Installing,
    /// An attestation waits for the transport.
    CheckTransport,
    /// An attestation waits for its outcome.
    Checking,
}

impl PhaseView {
    /// Whether a poll runs.
    pub open spec fn is_polling(self) -> bool {
        self.seeks_device() || self is PollInstalledApps
    }

    /// Whether a poll runs that has not found the device yet.
    pub open spec fn seeks_device(self) -> bool {
        self is PollTransport || self is PollCatalog || self is PollDeviceInfo
    }

    /// Whether an install runs.
    pub open spec fn is_installing(self) -> bool {
        self is InstallTransport || self is InstallDeviceInfo || self is InstallAppInfo
            || self is Installing
    }

    /// Whether an attestation runs.
    pub open spec fn is_checking(self) -> bool {
        self is CheckTransport || self is Checking
    }

    /// Whether `reply` is what the session waits for.
    pub open spec fn awaits(self, reply: ReplyView) -> bool {
        match self {
            PhaseView::Idle => false,
            PhaseView::PollTransport => reply is Transport,
            PhaseView::PollCatalog => reply is Catalog,
            PhaseView::PollDeviceInfo => reply is DeviceInfo,
            PhaseView::PollInstalledApps => reply is InstalledApps,
            PhaseView::InstallTransport { .. } => reply is Transport,
            PhaseView::InstallDeviceInfo { .. } => reply is DeviceInfo,
            PhaseView::InstallAppInfo { .. } => reply is AppInfo,
            PhaseView::Installing => reply is Install,
            PhaseView::CheckTransport => reply is Transport,
            PhaseView::Checking => reply is Attestation,
        }
    }

    /// An upper bound on the replies that an install still takes before it
    /// hands over to a poll; zero outside an install.
    pub open spec fn install_steps_left(self) -> nat {
        match self {
            PhaseView::InstallTransport { .. } => 4,
            PhaseView::InstallDeviceInfo { .. } => 3,
            PhaseView::InstallAppInfo { .. } => 2,
            PhaseView::Installing => 1,
            _ => 0,
        }
    }
}

/// The state of a session.
#[verifier::ext_equal]
pub struct SessionView {
    /// The firmware version of the connected device; none while no device
    /// is connected.
    pub device_version: Option<Seq<char>>,
    /// What is installed of the mainnet app.
    pub mainnet_version: VersionView,
    /// What is installed of the testnet app.
    pub testnet_version: VersionView,
    /// The latest mainnet app that the catalog offers.
    pub last_mainnet: VersionView,
    /// The latest testnet app that the catalog offers.
    pub last_testnet: VersionView,
    /// The base address of the install service.
    pub socket_url: Seq<char>,
    /// Where the session stands.
    pub phase: PhaseView,
}

impl SessionView {
    /// The state in which a session begins: idle, with nothing known.
    pub open spec fn initial(socket_url: Seq<char>) -> SessionView {
        SessionView {
            device_version: None,
            mainnet_version: VersionView::Unknown,
            testnet_version: VersionView::Unknown,
            last_mainnet: VersionView::Unknown,
            last_testnet: VersionView::Unknown,
            socket_url,
            phase: PhaseView::Idle,
        }
    }

    /// Whether no operation runs.
    pub open spec fn is_idle(self) -> bool {
        self.phase is Idle
    }

    /// What holds of every state that a session reaches: a poll looks for
    /// the device only while none is connected, and asks for the installed
    /// apps only of one that is; and nothing is known of the installed apps
    /// while no device is connected or an install runs.
    pub open spec fn well_formed(self) -> bool {
        &&& self.phase.seeks_device() ==> self.device_version is None
        &&& self.phase is PollInstalledApps ==> self.device_version is Some
        &&& self.device_version is None || self.phase.is_installing() ==> {
            &&& self.mainnet_version is Unknown
            &&& self.testnet_version is Unknown
        }
    }

    /// Whether the catalog still has to be asked.
    pub open spec fn catalog_missing(self) -> bool {
        self.last_mainnet is Unknown || self.last_testnet is Unknown
    }

    /// The same state in another phase.
    pub open spec fn at(self, phase: PhaseView) -> SessionView {
        SessionView { phase, ..self }
    }

    /// The events that report the installed apps, as far as anything is
    /// known of them, and the latest apps.
    pub open spec fn apps_version(self) -> Seq<LedgerMessageView> {
        let mainnet = if self.mainnet_version is Unknown {
            Seq::empty()
        } else {
            seq![LedgerMessageView::MainAppVersion(self.mainnet_version)]
        };
        let testnet = if self.testnet_version is Unknown {
            Seq::empty()
        } else {
            seq![LedgerMessageView::TestAppVersion(self.testnet_version)]
        };
        mainnet + testnet + seq![
            LedgerMessageView::LatestApps(self.last_mainnet, self.last_testnet),
        ]
    }

    /// Begins a poll, unless a device is connected already.
    pub open spec fn poll(self) -> (SessionView, StepView) {
        if self.device_version is None {
            (self.at(PhaseView::PollTransport), StepView::ask(Seq::empty(), RequestView::Transport))
        } else {
            (self, StepView::nothing())
        }
    }

    /// Begins the session: a poll at once, and the first retry on its way.
    pub open spec fn start(self) -> (SessionView, StepView) {
        if self.is_idle() {
            let (next, step) = self.poll();
            (next, step.and_poll_later())
        } else {
            (self, StepView::nothing())
        }
    }

    /// Begins an install or an update: what was known of the installed apps
    /// is forgotten, and the presentation layer is told so before anything
    /// else.
    pub open spec fn install(self, testnet: bool) -> (SessionView, StepView) {
        (
            SessionView {
                mainnet_version: VersionView::Unknown,
                testnet_version: VersionView::Unknown,
                phase: PhaseView::InstallTransport { testnet },
                ..self
            },
            StepView::ask(
                seq![
                    LedgerMessageView::MainAppVersion(VersionView::Unknown),
                    LedgerMessageView::TestAppVersion(VersionView::Unknown),
                    LedgerMessageView::notice(DOWNLOADING@, false),
                ],
                RequestView::Transport,
            ),
        )
    }

    /// Begins an attestation.
    pub open spec fn genuine_check(self) -> (SessionView, StepView) {
        (self.at(PhaseView::CheckTransport), StepView::ask(Seq::empty(), RequestView::Transport))
    }

    /// Takes a message from the presentation layer. While an operation runs
    /// nothing is begun. A `TryConnect` begins a poll only while no
    /// device is connected, and anything but a command is ignored.
    pub open spec fn handle_message(self, msg: LedgerMessageView) -> (SessionView, StepView) {
        if !self.is_idle() {
            (self, StepView::nothing())
        } else {
            match msg {
                LedgerMessageView::TryConnect => if self.device_version is None {
                    let (next, step) = self.poll();
                    (next, step.and_poll_later())
                } else {
                    (self, StepView::nothing())
                },
                LedgerMessageView::UpdateMain => self.install(false),
                LedgerMessageView::InstallMain => self.install(false),
                LedgerMessageView::UpdateTest => self.install(true),
                LedgerMessageView::InstallTest => self.install(true),
                LedgerMessageView::GenuineCheck => self.genuine_check(),
                _ => (self, StepView::nothing()),
            }
        }
    }

    /// A poll learns whether the transport is open. Without a device the
    /// presentation layer is told that none is connected and asked to show
    /// the prompt; with one, the catalog is asked first if it has not
    /// answered yet.
    pub open spec fn poll_connected(self, connected: bool) -> (SessionView, StepView) {
        if !connected {
            (
                self.at(PhaseView::Idle),
                StepView::done(
                    seq![
                        LedgerMessageView::Connected(None, None),
                        LedgerMessageView::notice(CONNECT_PROMPT@, true),
                    ],
                ),
            )
        } else if self.catalog_missing() {
            (
                self.at(PhaseView::PollCatalog),
                StepView::ask(
                    seq![LedgerMessageView::notice(QUERYING_CATALOG@, false)],
                    RequestView::Catalog,
                ),
            )
        } else {
            (
                self.at(PhaseView::PollDeviceInfo),
                StepView::ask(Seq::empty(), RequestView::DeviceInfo),
            )
        }
    }

    /// A poll learns what the catalog offers, and goes on to the device
    /// whether it answered or not.
    pub open spec fn poll_catalog(
        self,
        found: Result<(Option<CatalogAppView>, Option<CatalogAppView>), Seq<char>>,
    ) -> (SessionView, StepView) {
        match found {
            Ok((bitcoin, test)) => {
                let mainnet = latest_version(bitcoin);
                let testnet = latest_version(test);
                (
                    SessionView {
                        last_mainnet: mainnet,
                        last_testnet: testnet,
                        phase: PhaseView::PollDeviceInfo,
                        ..self
                    },
                    StepView::ask(
                        seq![LedgerMessageView::LatestApps(mainnet, testnet)],
                        RequestView::DeviceInfo,
                    ),
                )
            },
            Err(_) => (
                self.at(PhaseView::PollDeviceInfo),
                StepView::ask(
                    seq![LedgerMessageView::notice(CATALOG_FAILED@, true)],
                    RequestView::DeviceInfo,
                ),
            ),
        }
    }

    /// A poll learns the device's description. A device that answers
    /// counts as connected from here on. It is reported at once with its
    /// firmware version and without its model, which only its apps can
    /// tell, and asked for them. A device that does not answer ends the
    /// poll.
    pub open spec fn poll_device_info(self, found: Result<DeviceInfoView, Seq<char>>) -> (
        SessionView,
        StepView,
    ) {
        match found {
            Ok(info) => (
                SessionView {
                    device_version: Some(info.version),
                    phase: PhaseView::PollInstalledApps,
                    ..self
                },
                StepView::ask(
                    seq![
                        LedgerMessageView::notice(device_connected_text(info.version), false),
                        LedgerMessageView::Connected(None, Some(info.version)),
                        LedgerMessageView::notice(QUERYING_APPS@, false),
                        LedgerMessageView::notice(QUERYING_APPS@, false),
                    ],
                    RequestView::InstalledApps,
                ),
            ),
            Err(cause) => (
                self.at(PhaseView::Idle),
                StepView::done(
                    seq![LedgerMessageView::notice(device_unreachable_text(cause), true)],
                ),
            ),
        }
    }

    /// A poll learns the installed apps, and ends. If the device listed
    /// them, its model and the two Bitcoin apps are reported, and the text
    /// for the user is taken away. If not, the failure is reported and
    /// stays before the user, and the apps stay unknown until the device is
    /// connected anew.
    pub open spec fn poll_installed_apps(
        self,
        found: Result<Seq<InstalledAppView>, Seq<char>>,
    ) -> (SessionView, StepView) {
        match found {
            Ok(apps) => {
                let inventory = InventoryView::of(apps);
                let next = SessionView {
                    mainnet_version: inventory.mainnet,
                    testnet_version: inventory.testnet,
                    phase: PhaseView::Idle,
                    ..self
                };
                (
                    next,
                    StepView::done(
                        seq![
                            LedgerMessageView::notice(LISTING_APPS@, false),
                            LedgerMessageView::clear(),
                            LedgerMessageView::Connected(
                                Some(inventory.model.text()),
                                self.device_version,
                            ),
                        ] + next.apps_version() + seq![LedgerMessageView::clear()],
                    ),
                )
            },
            Err(cause) => (
                self.at(PhaseView::Idle),
                StepView::done(
                    seq![
                        LedgerMessageView::notice(listing_failed_text(cause), true),
                        LedgerMessageView::notice(check_failed_text(cause), true),
                    ],
                ),
            ),
        }
    }

    /// The end of an install, however it went: the device counts as
    /// disconnected, and a poll begins at once.
    pub open spec fn reconnect(self, events: Seq<LedgerMessageView>) -> (SessionView, StepView) {
        (
            SessionView { device_version: None, phase: PhaseView::PollTransport, ..self },
            StepView::ask(events, RequestView::Transport),
        )
    }

    /// An install learns whether the transport is open.
    pub open spec fn install_app(self, testnet: bool, connected: bool) -> (SessionView, StepView) {
        if connected {
            (
                self.at(PhaseView::InstallDeviceInfo { testnet }),
                StepView::ask(
                    seq![LedgerMessageView::notice(FETCHING_DEVICE_INFO@, false)],
                    RequestView::DeviceInfo,
                ),
            )
        } else {
            self.reconnect(Seq::empty())
        }
    }

    /// An install learns the device's description.
    pub open spec fn install_device_info(
        self,
        testnet: bool,
        found: Result<DeviceInfoView, Seq<char>>,
    ) -> (SessionView, StepView) {
        match found {
            Ok(info) => (
                self.at(PhaseView::InstallAppInfo { target_id: info.target_id }),
                StepView::ask(Seq::empty(), RequestView::AppInfo { testnet }),
            ),
            Err(_) => self.reconnect(seq![LedgerMessageView::notice(DEVICE_INFO_FAILED@, true)]),
        }
    }

    /// An install learns what the catalog has of the app.
    pub open spec fn install_app_info(
        self,
        target_id: u32,
        found: Result<Option<CatalogAppView>, Seq<char>>,
    ) -> (SessionView, StepView) {
        match found {
            Ok(Some(app)) => (
                self.at(PhaseView::Installing),
                StepView::ask(
                    seq![
                        LedgerMessageView::notice(ALLOW_MANAGER@, false),
                        LedgerMessageView::notice(INSTALLING@, false),
                    ],
                    RequestView::Install { url: install_address(self.socket_url, target_id, app) },
                ),
            ),
            Ok(None) => self.reconnect(seq![LedgerMessageView::notice(APP_NOT_FOUND@, true)]),
            Err(cause) => self.reconnect(
                seq![LedgerMessageView::notice(app_query_failed_text(cause), true)],
            ),
        }
    }

    /// An install learns how the install service ended.
    pub open spec fn install_done(self, outcome: Result<(), Seq<char>>) -> (
        SessionView,
        StepView,
    ) {
        match outcome {
            Ok(_) => self.reconnect(seq![LedgerMessageView::notice(INSTALLED@, false)]),
            Err(cause) => self.reconnect(
                seq![LedgerMessageView::notice(install_failed_text(cause), true)],
            ),
        }
    }

    /// An attestation learns whether the transport is open.
    pub open spec fn check_connected(self, connected: bool) -> (SessionView, StepView) {
        if connected {
            (
                self.at(PhaseView::Checking),
                StepView::ask(
                    seq![LedgerMessageView::notice(CHECKING_GENUINE@, false)],
                    RequestView::Attestation,
                ),
            )
        } else {
            (
                self.at(PhaseView::Idle),
                StepView::done(
                    seq![
                        LedgerMessageView::notice(CANNOT_CONNECT@, true),
                        LedgerMessageView::DeviceIsGenuine(None),
                    ],
                ),
            )
        }
    }

    /// An attestation learns its outcome, and ends.
    pub open spec fn check_done(self, outcome: Result<(), Seq<char>>) -> (SessionView, StepView) {
        match outcome {
            Ok(_) => (
                self.at(PhaseView::Idle),
                StepView::done(
                    seq![LedgerMessageView::clear(), LedgerMessageView::DeviceIsGenuine(Some(true))],
                ),
            ),
            Err(cause) => (
                self.at(PhaseView::Idle),
                StepView::done(
                    seq![
                        LedgerMessageView::notice(cause, true),
                        LedgerMessageView::DeviceIsGenuine(None),
                    ],
                ),
            ),
        }
    }

    /// Takes the outcome of the outside work that the session waits for.
    /// A reply that it does not wait for has no successor.
    pub open spec fn resume(self, reply: ReplyView) -> Option<(SessionView, StepView)> {
        match (self.phase, reply) {
            (PhaseView::PollTransport, ReplyView::Transport(connected)) => Some(
                self.poll_connected(connected),
            ),
            (PhaseView::PollCatalog, ReplyView::Catalog(found)) => Some(self.poll_catalog(found)),
            (PhaseView::PollDeviceInfo, ReplyView::DeviceInfo(found)) => Some(
                self.poll_device_info(found),
            ),
            (PhaseView::PollInstalledApps, ReplyView::InstalledApps(found)) => Some(
                self.poll_installed_apps(found),
            ),
            (PhaseView::InstallTransport { testnet }, ReplyView::Transport(connected)) => Some(
                self.install_app(testnet, connected),
            ),
            (PhaseView::InstallDeviceInfo { testnet }, ReplyView::DeviceInfo(found)) => Some(
                self.install_device_info(testnet, found),
            ),
            (PhaseView::InstallAppInfo { target_id }, ReplyView::AppInfo(found)) => Some(
                self.install_app_info(target_id, found),
            ),
            (PhaseView::Installing, ReplyView::Install(outcome)) => Some(
                self.install_done(outcome),
            ),
            (PhaseView::CheckTransport, ReplyView::Transport(connected)) => Some(
                self.check_connected(connected),
            ),
            (PhaseView::Checking, ReplyView::Attestation(outcome)) => Some(
                self.check_done(outcome),
            ),
            _ => None,
        }
    }
}

} // verus!
