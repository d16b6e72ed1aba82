//! What the window shows, as plain values: texts, and for each control the
//! message that a press sends. Drawing them is left to the window.

use crate::gui::{Message, MessageView};
use crate::version::{Version, VersionView};
use vstd::prelude::*;
use vstd::string::*;

verus! {

/// Shown in place of what is not known.
pub const BLANK: &'static str = " - ";

/// How the device's attestation is shown.
#[derive(Debug)]
pub enum GenuineControl {
    /// Not attested yet: a button that asks for the attestation, with the
    /// message that its press sends. Without a message the button is
    /// disabled.
    Check(Option<Message>),
    /// Attested as genuine.
    Yes,
    /// Attested as not genuine.
    No,
}

/// A `GenuineControl` over message views.
pub enum GenuineControlView {
    Check(Option<MessageView>),
    Yes,
    No,
}

impl View for GenuineControl {
    type V = GenuineControlView;

    open spec fn view(&self) -> GenuineControlView {
        match self {
            GenuineControl::Check(press) => GenuineControlView::Check(press.deep_view()),
            GenuineControl::Yes => GenuineControlView::Yes,
            GenuineControl::No => GenuineControlView::No,
        }
    }
}

impl GenuineControl {
    /// The text that stands for an attested device; none for the button.
    pub fn label(&self) -> (text: Option<&'static str>)
        ensures
            self is Check <==> text is None,
            self is Yes ==> text == Some(" Yes "),
            self is No ==> text == Some("No!"),
    {
        match self {
            GenuineControl::Check(_) => None,
            GenuineControl::Yes => Some(" Yes "),
            GenuineControl::No => Some("No!"),
        }
    }
}

/// The part of the window that describes the device.
#[derive(Debug)]
pub struct DevicePanel {
    pub model: String,
    pub firmware: String,
    pub genuine: GenuineControl,
}

/// A `DevicePanel` with its texts as sequences of characters.
pub struct DevicePanelView {
    pub model: Seq<char>,
    pub firmware: Seq<char>,
    pub genuine: GenuineControlView,
}

impl View for DevicePanel {
    type V = DevicePanelView;

    open spec fn view(&self) -> DevicePanelView {
        DevicePanelView { model: self.model@, firmware: self.firmware@, genuine: self.genuine@ }
    }
}

impl DeepView for DevicePanel {
    type V = DevicePanelView;

    open spec fn deep_view(&self) -> DevicePanelView {
        self@
    }
}

/// `text`, or the blank where there is none.
pub open spec fn or_blank(text: Option<Seq<char>>) -> Seq<char> {
    match text {
        Some(t) => t,
        None => BLANK@,
    }
}

/// What `press` sends while the session is free; nothing while it is busy.
pub open spec fn unless_busy(press: MessageView, device_busy: bool) -> Option<MessageView> {
    if device_busy {
        None
    } else {
        Some(press)
    }
}

/// The device's part of the window. The attestation can be asked for until
/// one succeeded, and only while the session is free.
pub open spec fn device_panel(
    model: Option<Seq<char>>,
    version: Option<Seq<char>>,
    is_genuine: Option<bool>,
    device_busy: bool,
) -> DevicePanelView {
    DevicePanelView {
        model: or_blank(model),
        firmware: or_blank(version),
        genuine: match is_genuine {
            None => GenuineControlView::Check(unless_busy(MessageView::GenuineCheck, device_busy)),
            Some(true) => GenuineControlView::Yes,
            Some(false) => GenuineControlView::No,
        },
    }
}

fn text_or_blank(text: Option<String>) -> (shown: String)
    ensures
        shown@ == or_blank(text.deep_view()),
{
    match text {
        Some(t) => t,
        None => String::from_str(BLANK),
    }
}

fn press_unless_busy(press: Message, device_busy: bool) -> (sent: Option<Message>)
    ensures
        sent.deep_view() == unless_busy(press@, device_busy),
{
    if device_busy {
        None
    } else {
        Some(press)
    }
}

/// Lays out the device's part of the window.
pub fn device_container(
    model: Option<String>,
    version: Option<String>,
    is_genuine: Option<bool>,
    device_busy: bool,
) -> (panel: DevicePanel)
    ensures
        panel@ == device_panel(model.deep_view(), version.deep_view(), is_genuine, device_busy),
{
    let genuine = match is_genuine {
        None => GenuineControl::Check(press_unless_busy(Message::GenuineCheck, device_busy)),
        Some(true) => GenuineControl::Yes,
        Some(false) => GenuineControl::No,
    };
    DevicePanel { model: text_or_blank(model), firmware: text_or_blank(version), genuine }
}

/// What the window offers for one app.
#[derive(Debug)]
pub enum AppControl {
    /// A button that installs the app, with the message that its press
    /// sends. Without a message the button is disabled.
    Install(Option<Message>),
    /// A button that updates the app, with the message that its press
    /// sends. Without a message the button is disabled.
    Update(Option<Message>),
    /// No button: the latest version is installed.
    Latest,
    /// No button: too little is known.
    Unavailable,
}

/// An `AppControl` over message views.
pub enum AppControlView {
    Install(Option<MessageView>),
    Update(Option<MessageView>),
    Latest,
    Unavailable,
}

impl View for AppControl {
    type V = AppControlView;

    open spec fn view(&self) -> AppControlView {
        match self {
            AppControl::Install(press) => AppControlView::Install(press.deep_view()),
            AppControl::Update(press) => AppControlView::Update(press.deep_view()),
            AppControl::Latest => AppControlView::Latest,
            AppControl::Unavailable => AppControlView::Unavailable,
        }
    }
}

impl AppControlView {
    /// The message that a press sends, if there is a button and it is
    /// enabled.
    pub open spec fn press(self) -> Option<MessageView> {
        match self {
            AppControlView::Install(press) => press,
            AppControlView::Update(press) => press,
            _ => None,
        }
    }
}

impl AppControl {
    /// The text on the button, or shown in its place.
    pub fn label(&self) -> (text: &'static str)
        ensures
            self is Install ==> text == " Install ",
            self is Update ==> text == " Update ",
            self is Latest ==> text == "Latest",
            self is Unavailable ==> text == BLANK,
    {
        match self {
            AppControl::Install(_) => " Install ",
            AppControl::Update(_) => " Update ",
            AppControl::Latest => "Latest",
            AppControl::Unavailable => BLANK,
        }
    }
}

/// The row of the window that stands for one app.
#[derive(Debug)]
pub struct AppRow {
    pub version: String,
    pub control: AppControl,
}

/// An `AppRow` with its texts as sequences of characters.
pub struct AppRowView {
    pub version: Seq<char>,
    pub control: AppControlView,
}

impl View for AppRow {
    type V = AppRowView;

    open spec fn view(&self) -> AppRowView {
        AppRowView { version: self.version@, control: self.control@ }
    }
}

/// The part of the window that describes the two apps.
#[derive(Debug)]
pub struct AppsPanel {
    pub bitcoin: AppRow,
    pub test: AppRow,
}

/// An `AppsPanel` with its texts as sequences of characters.
pub struct AppsPanelView {
    pub bitcoin: AppRowView,
    pub test: AppRowView,
}

impl View for AppsPanel {
    type V = AppsPanelView;

    open spec fn view(&self) -> AppsPanelView {
        AppsPanelView { bitcoin: self.bitcoin@, test: self.test@ }
    }
}

impl DeepView for AppsPanel {
    type V = AppsPanelView;

    open spec fn deep_view(&self) -> AppsPanelView {
        self@
    }
}

/// What is offered for an app of which `version` is installed while the
/// catalog's latest is `latest`: to install it when it is not installed; to
/// update it when the installed one is not the latest; nothing when it is,
/// or when either is not known.
pub open spec fn app_control(
    version: VersionView,
    latest: VersionView,
    install_msg: Option<MessageView>,
    update_msg: Option<MessageView>,
) -> AppControlView {
    if version is NotInstalled {
        AppControlView::Install(install_msg)
    } else if version is Installed && latest is Latest {
        if version.same(latest) {
            AppControlView::Latest
        } else {
            AppControlView::Update(update_msg)
        }
    } else {
        AppControlView::Unavailable
    }
}

/// The text that tells the installed version of an app.
pub open spec fn version_text(version: VersionView) -> Seq<char> {
    match version {
        VersionView::Installed(v) => "Version: "@ + v,
        VersionView::NotInstalled => "Not installed"@,
        _ => BLANK@,
    }
}

/// The row for one app.
pub open spec fn app_row(
    version: VersionView,
    latest: VersionView,
    install: MessageView,
    update: MessageView,
    device_busy: bool,
) -> AppRowView {
    AppRowView {
        version: version_text(version),
        control: app_control(
            version,
            latest,
            unless_busy(install, device_busy),
            unless_busy(update, device_busy),
        ),
    }
}

/// The apps' part of the window. No button can be pressed while the
/// session is busy.
pub open spec fn apps_panel(
    bitcoin_version: VersionView,
    bitcoin_latest: VersionView,
    test_version: VersionView,
    test_latest: VersionView,
    device_busy: bool,
) -> AppsPanelView {
    AppsPanelView {
        bitcoin: app_row(
            bitcoin_version,
            bitcoin_latest,
            MessageView::InstallMain,
            MessageView::UpdateMain,
            device_busy,
        ),
        test: app_row(
            test_version,
            test_latest,
            MessageView::InstallTest,
            MessageView::UpdateTest,
            device_busy,
        ),
    }
}

/// Chooses what the window offers for one app.
pub fn btn(
    version: &Version,
    latest: &Version,
    install_msg: Option<Message>,
    update_msg: Option<Message>,
) -> (control: AppControl)
    ensures
        control@ == app_control(
            version@,
            latest@,
            install_msg.deep_view(),
            update_msg.deep_view(),
        ),
{
    match (version, latest) {
        (Version::NotInstalled, _) => AppControl::Install(install_msg),
        (Version::Installed(_), Version::Latest(_)) => {
            if version != latest {
                AppControl::Update(update_msg)
            } else {
                AppControl::Latest
            }
        },
        _ => AppControl::Unavailable,
    }
}

/// Writes out the installed version of an app.
pub fn version(installed: Version) -> (text: String)
    ensures
        text@ == version_text(installed@),
{
    match installed {
        Version::Installed(v) => String::from_str("Version: ").concat(v.as_str()),
        Version::NotInstalled => String::from_str("Not installed"),
        _ => String::from_str(BLANK),
    }
}

/// Lays out the apps' part of the window.
pub fn apps_container(
    bitcoin_version: Version,
    bitcoin_latest: Version,
    test_version: Version,
    test_latest: Version,
    device_busy: bool,
) -> (panel: AppsPanel)
    ensures
        panel@ == apps_panel(
            bitcoin_version@,
            bitcoin_latest@,
            test_version@,
            test_latest@,
            device_busy,
        ),
{
    let bitcoin_button = btn(
        &bitcoin_version,
        &bitcoin_latest,
        press_unless_busy(Message::InstallMain, device_busy),
        press_unless_busy(Message::UpdateMain, device_busy),
    );
    let test_button = btn(
        &test_version,
        &test_latest,
        press_unless_busy(Message::InstallTest, device_busy),
        press_unless_busy(Message::UpdateTest, device_busy),
    );
    AppsPanel {
        bitcoin: AppRow { version: version(bitcoin_version), control: bitcoin_button },
        test: AppRow { version: version(test_version), control: test_button },
    }
}

/// All that the window shows, from top to bottom.
#[derive(Debug)]
pub struct Screen {
    /// A text at the top, centred.
    pub hint_message: Option<String>,
    /// The device and its apps.
    pub app: Option<(DevicePanel, AppsPanel)>,
    /// Whether there is a button that takes the alarm away.
    pub reset_alarm: bool,
    /// A text at the bottom.
    pub user_message: Option<String>,
}

/// A `Screen` with its texts as sequences of characters.
pub struct ScreenView {
    pub hint_message: Option<Seq<char>>,
    pub app: Option<(DevicePanelView, AppsPanelView)>,
    pub reset_alarm: bool,
    pub user_message: Option<Seq<char>>,
}

impl View for Screen {
    type V = ScreenView;

    open spec fn view(&self) -> ScreenView {
        ScreenView {
            hint_message: self.hint_message.deep_view(),
            app: self.app.deep_view(),
            reset_alarm: self.reset_alarm,
            user_message: self.user_message.deep_view(),
        }
    }
}

impl ScreenView {
    /// Whether a press somewhere on the screen sends `press`.
    pub open spec fn offers(self, press: MessageView) -> bool {
        ||| self.reset_alarm && press is ResetAlarm
        ||| self.app matches Some((device, apps)) && {
            ||| device.genuine == GenuineControlView::Check(Some(press))
            ||| apps.bitcoin.control.press() == Some(press)
            ||| apps.test.control.press() == Some(press)
        }
    }
}

} // verus!
