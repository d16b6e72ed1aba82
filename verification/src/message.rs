//! The messages that the session and the presentation layer exchange.
//!
//! One type carries both directions. Commands travel from the presentation
//! layer to the session and hold no data; events travel back and report what
//! the session has found.

use crate::version::{Version, VersionView};
use vstd::prelude::*;
use vstd::string::*;

verus! {

/// A command to the session, or an event from it.
#[derive(Debug)]
pub enum LedgerMessage {
    /// Command: update the mainnet app.
    UpdateMain,
    /// Command: install the mainnet app.
    InstallMain,
    /// Command: update the testnet app.
    UpdateTest,
    /// Command: install the testnet app.
    InstallTest,
    /// Command: look for the device, unless it is connected already.
    TryConnect,
    /// Command: have the device attested.
    GenuineCheck,
    /// Event: the device's model and firmware version. Neither is there
    /// when no device is; the model is missing as long as the device's apps
    /// have not told it.
    Connected(Option<String>, Option<String>),
    /// Event: what is installed of the mainnet app.
    MainAppVersion(Version),
    /// Event: what is installed of the testnet app.
    TestAppVersion(Version),
    /// Event: a text for the user, and whether it reports a failure.
    DisplayMessage(String, bool),
    /// Event: the outcome of an attestation; nothing when none succeeded.
    DeviceIsGenuine(Option<bool>),
    /// Event: the latest mainnet and testnet apps that the catalog offers.
    LatestApps(Version, Version),
}

/// A `LedgerMessage` with its texts as sequences of characters.
pub enum LedgerMessageView {
    UpdateMain,
    InstallMain,
    UpdateTest,
    InstallTest,
    TryConnect,
    GenuineCheck,
    Connected(Option<Seq<char>>, Option<Seq<char>>),
    MainAppVersion(VersionView),
    TestAppVersion(VersionView),
    DisplayMessage(Seq<char>, bool),
    DeviceIsGenuine(Option<bool>),
    LatestApps(VersionView, VersionView),
}

impl LedgerMessageView {
    /// Whether the message travels from the presentation layer to the session.
    pub open spec fn is_command(self) -> bool {
        self is UpdateMain || self is InstallMain || self is UpdateTest || self is InstallTest
            || self is TryConnect || self is GenuineCheck
    }

    /// Whether the message travels from the session to the presentation layer.
    pub open spec fn is_event(self) -> bool {
        !self.is_command()
    }

    /// The message that puts `text` before the user.
    pub open spec fn notice(text: Seq<char>, alarm: bool) -> LedgerMessageView {
        LedgerMessageView::DisplayMessage(text, alarm)
    }

    /// The message that takes the last text away.
    pub open spec fn clear() -> LedgerMessageView {
        LedgerMessageView::DisplayMessage(Seq::empty(), false)
    }
}

impl View for LedgerMessage {
    type V = LedgerMessageView;

    open spec fn view(&self) -> LedgerMessageView {
        match self {
            LedgerMessage::UpdateMain => LedgerMessageView::UpdateMain,
            LedgerMessage::InstallMain => LedgerMessageView::InstallMain,
            LedgerMessage::UpdateTest => LedgerMessageView::UpdateTest,
            LedgerMessage::InstallTest => LedgerMessageView::InstallTest,
            LedgerMessage::TryConnect => LedgerMessageView::TryConnect,
            LedgerMessage::GenuineCheck => LedgerMessageView::GenuineCheck,
            LedgerMessage::Connected(model, version) => LedgerMessageView::Connected(
                model.deep_view(),
                version.deep_view(),
            ),
            LedgerMessage::MainAppVersion(version) => LedgerMessageView::MainAppVersion(version@),
            LedgerMessage::TestAppVersion(version) => LedgerMessageView::TestAppVersion(version@),
            LedgerMessage::DisplayMessage(text, alarm) => LedgerMessageView::DisplayMessage(
                text@,
                *alarm,
            ),
            LedgerMessage::DeviceIsGenuine(genuine) => LedgerMessageView::DeviceIsGenuine(*genuine),
            LedgerMessage::LatestApps(mainnet, testnet) => LedgerMessageView::LatestApps(
                mainnet@,
                testnet@,
            ),
        }
    }
}

impl DeepView for LedgerMessage {
    type V = LedgerMessageView;

    open spec fn deep_view(&self) -> LedgerMessageView {
        self@
    }
}

impl LedgerMessage {
    /// Whether the message is a command to the session.
    pub fn is_command(&self) -> (command: bool)
        ensures
            command == self@.is_command(),
    {
        match self {
            LedgerMessage::UpdateMain
            | LedgerMessage::InstallMain
            | LedgerMessage::UpdateTest
            | LedgerMessage::InstallTest
            | LedgerMessage::TryConnect
            | LedgerMessage::GenuineCheck => true,
            _ => false,
        }
    }

    /// Whether the message is an event from the session.
    pub fn is_event(&self) -> (event: bool)
        ensures
            event == self@.is_event(),
    {
        !self.is_command()
    }

    /// The event that puts `text` before the user.
    pub fn notice(text: &str, alarm: bool) -> (message: LedgerMessage)
        ensures
            message@ == LedgerMessageView::notice(text@, alarm),
    {
        LedgerMessage::DisplayMessage(String::from_str(text), alarm)
    }

    /// The event that takes the last text away.
    pub fn clear() -> (message: LedgerMessage)
        ensures
            message@ == LedgerMessageView::clear(),
    {
        LedgerMessage::DisplayMessage(String::new(), false)
    }
}

impl Clone for LedgerMessage {
    fn clone(&self) -> (copy: Self)
        ensures
            copy@ == self@,
    {
        match self {
            LedgerMessage::UpdateMain => LedgerMessage::UpdateMain,
            LedgerMessage::InstallMain => LedgerMessage::InstallMain,
            LedgerMessage::UpdateTest => LedgerMessage::UpdateTest,
            LedgerMessage::InstallTest => LedgerMessage::InstallTest,
            LedgerMessage::TryConnect => LedgerMessage::TryConnect,
            LedgerMessage::GenuineCheck => LedgerMessage::GenuineCheck,
            LedgerMessage::Connected(model, version) => LedgerMessage::Connected(
                clone_text(model),
                clone_text(version),
            ),
            LedgerMessage::MainAppVersion(version) => LedgerMessage::MainAppVersion(
                version.clone(),
            ),
            LedgerMessage::TestAppVersion(version) => LedgerMessage::TestAppVersion(
                version.clone(),
            ),
            LedgerMessage::DisplayMessage(text, alarm) => LedgerMessage::DisplayMessage(
                text.clone(),
                *alarm,
            ),
            LedgerMessage::DeviceIsGenuine(genuine) => LedgerMessage::DeviceIsGenuine(*genuine),
            LedgerMessage::LatestApps(mainnet, testnet) => LedgerMessage::LatestApps(
                mainnet.clone(),
                testnet.clone(),
            ),
        }
    }
}

/// A copy of a text that may be absent.
pub fn clone_text(text: &Option<String>) -> (copy: Option<String>)
    ensures
        copy == *text,
{
    match text {
        Some(t) => Some(t.clone()),
        None => None,
    }
}

/// A list of events with nothing in it.
pub fn no_events() -> (events: Vec<LedgerMessage>)
    ensures
        events.deep_view() == Seq::<LedgerMessageView>::empty(),
{
    let events = Vec::new();
    assert(events.deep_view() =~= Seq::<LedgerMessageView>::empty());
    events
}

/// Adds `event` at the end of `events`.
pub fn emit(events: &mut Vec<LedgerMessage>, event: LedgerMessage)
    ensures
        final(events).deep_view() == old(events).deep_view().push(event@),
{
    events.push(event);
    assert(events.deep_view() =~= old(events).deep_view().push(event@));
}

} // verus!
