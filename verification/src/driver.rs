//! What the session asks of whoever drives it, and what it is told in return.
//!
//! The session never touches the device or the network. It names the outside
//! work it needs as a `Request`; the driver performs it and hands the outcome
//! back as a `Reply`. A failure comes with its cause as text.

use crate::device::{
    CatalogApp, CatalogAppView, DeviceInfo, DeviceInfoView, InstalledApp, InstalledAppView,
};
use crate::message::{no_events, LedgerMessage, LedgerMessageView};
use vstd::prelude::*;
use vstd::string::*;

verus! {

/// The seconds to wait before the `TryConnect` that a step asks for with
/// `poll_later` is sent.
pub const RETRY_DELAY_SECS: u64 = 2;

/// A piece of outside work.
#[derive(Debug)]
pub enum Request {
    /// Open the transport to the device. It serves the requests that follow,
    /// up to the next `Transport`.
    Transport,
    /// Ask the catalog for the latest mainnet and testnet apps for this device.
    Catalog,
    /// Ask the device to describe itself.
    DeviceInfo,
    /// Ask the device for the apps installed on it.
    InstalledApps,
    /// Ask the catalog for the Bitcoin app for this device, the testnet one
    /// if `testnet`.
    AppInfo { testnet: bool },
    /// Run the install service at `url` against the device.
    Install { url: String },
    /// Have the device attested.
    Attestation,
}

/// A `Request` with its text as a sequence of characters.
pub enum RequestView {
    Transport,
    Catalog,
    DeviceInfo,
    InstalledApps,
    AppInfo { testnet: bool },
    Install { url: Seq<char> },
    Attestation,
}

impl View for Request {
    type V = RequestView;

    open spec fn view(&self) -> RequestView {
        match self {
            Request::Transport => RequestView::Transport,
            Request::Catalog => RequestView::Catalog,
            Request::DeviceInfo => RequestView::DeviceInfo,
            Request::InstalledApps => RequestView::InstalledApps,
            Request::AppInfo { testnet } => RequestView::AppInfo { testnet: *testnet },
            Request::Install { url } => RequestView::Install { url: url@ },
            Request::Attestation => RequestView::Attestation,
        }
    }
}

impl DeepView for Request {
    type V = RequestView;

    open spec fn deep_view(&self) -> RequestView {
        self@
    }
}

/// The outcome of a piece of outside work.
#[derive(Debug)]
pub enum Reply {
    /// Whether the transport could be opened.
    Transport(bool),
    /// The latest mainnet and testnet apps, each absent where the catalog
    /// has none.
    Catalog(Result<(Option<CatalogApp>, Option<CatalogApp>), String>),
    /// The device's description.
    DeviceInfo(Result<DeviceInfo, String>),
    /// The apps installed on the device.
    InstalledApps(Result<Vec<InstalledApp>, String>),
    /// The app asked for, absent where the catalog has none.
    AppInfo(Result<Option<CatalogApp>, String>),
    /// How the install service ended.
    Install(Result<(), String>),
    /// How the attestation ended.
    Attestation(Result<(), String>),
}

/// A `Reply` with its texts as sequences of characters.
pub enum ReplyView {
    Transport(bool),
    Catalog(Result<(Option<CatalogAppView>, Option<CatalogAppView>), Seq<char>>),
    DeviceInfo(Result<DeviceInfoView, Seq<char>>),
    InstalledApps(Result<Seq<InstalledAppView>, Seq<char>>),
    AppInfo(Result<Option<CatalogAppView>, Seq<char>>),
    Install(Result<(), Seq<char>>),
    Attestation(Result<(), Seq<char>>),
}

impl View for Reply {
    type V = ReplyView;

    open spec fn view(&self) -> ReplyView {
        match self {
            Reply::Transport(connected) => ReplyView::Transport(*connected),
            Reply::Catalog(found) => ReplyView::Catalog(
                match found {
                    Ok(apps) => Ok((apps.0.deep_view(), apps.1.deep_view())),
                    Err(cause) => Err(cause@),
                },
            ),
            Reply::DeviceInfo(found) => ReplyView::DeviceInfo(
                match found {
                    Ok(info) => Ok(info@),
                    Err(cause) => Err(cause@),
                },
            ),
            Reply::InstalledApps(found) => ReplyView::InstalledApps(
                match found {
                    Ok(apps) => Ok(apps.deep_view()),
                    Err(cause) => Err(cause@),
                },
            ),
            Reply::AppInfo(found) => ReplyView::AppInfo(
                match found {
                    Ok(app) => Ok(app.deep_view()),
                    Err(cause) => Err(cause@),
                },
            ),
            Reply::Install(outcome) => ReplyView::Install(
                match outcome {
                    Ok(_) => Ok(()),
                    Err(cause) => Err(cause@),
                },
            ),
            Reply::Attestation(outcome) => ReplyView::Attestation(
                match outcome {
                    Ok(_) => Ok(()),
                    Err(cause) => Err(cause@),
                },
            ),
        }
    }
}

impl RequestView {
    /// Whether `reply` is an outcome of this request.
    pub open spec fn answered_by(self, reply: ReplyView) -> bool {
        match self {
            RequestView::Transport => reply is Transport,
            RequestView::Catalog => reply is Catalog,
            RequestView::DeviceInfo => reply is DeviceInfo,
            RequestView::InstalledApps => reply is InstalledApps,
            RequestView::AppInfo { .. } => reply is AppInfo,
            RequestView::Install { .. } => reply is Install,
            RequestView::Attestation => reply is Attestation,
        }
    }
}

/// What the session wants done after it has been handed a command or a reply.
#[derive(Debug)]
pub struct Step {
    /// The events to publish, in this order.
    pub events: Vec<LedgerMessage>,
    /// Whether to send the session a `TryConnect` once the retry delay has
    /// passed.
    pub poll_later: bool,
    /// The outside work to perform next. With none, the operation is over
    /// and the session takes the next command.
    pub request: Option<Request>,
}

/// A `Step` with its texts as sequences of characters.
#[verifier::ext_equal]
pub struct StepView {
    pub events: Seq<LedgerMessageView>,
    pub poll_later: bool,
    pub request: Option<RequestView>,
}

impl View for Step {
    type V = StepView;

    open spec fn view(&self) -> StepView {
        StepView {
            events: self.events.deep_view(),
            poll_later: self.poll_later,
            request: self.request.deep_view(),
        }
    }
}

impl StepView {
    /// Nothing to publish and nothing to do.
    pub open spec fn nothing() -> StepView {
        StepView { events: Seq::empty(), poll_later: false, request: None }
    }

    /// The end of an operation: `events` to publish, and no further work.
    pub open spec fn done(events: Seq<LedgerMessageView>) -> StepView {
        StepView { events, poll_later: false, request: None }
    }

    /// `events` to publish, then `request` to perform.
    pub open spec fn ask(events: Seq<LedgerMessageView>, request: RequestView) -> StepView {
        StepView { events, poll_later: false, request: Some(request) }
    }

    /// The same step, with a `TryConnect` to come after the retry delay.
    pub open spec fn and_poll_later(self) -> StepView {
        StepView { poll_later: true, ..self }
    }
}

impl Step {
    /// Nothing to publish and nothing to do.
    pub fn nothing() -> (step: Step)
        ensures
            step@ == StepView::nothing(),
    {
        Step { events: no_events(), poll_later: false, request: None }
    }

    /// The end of an operation: `events` to publish, and no further work.
    pub fn done(events: Vec<LedgerMessage>) -> (step: Step)
        ensures
            step@ == StepView::done(events.deep_view()),
    {
        Step { events, poll_later: false, request: None }
    }

    /// `events` to publish, then `request` to perform.
    pub fn ask(events: Vec<LedgerMessage>, request: Request) -> (step: Step)
        ensures
            step@ == StepView::ask(events.deep_view(), request@),
    {
        Step { events, poll_later: false, request: Some(request) }
    }

    /// The same step, with a `TryConnect` to come after the retry delay.
    pub fn and_poll_later(self) -> (step: Step)
        ensures
            step@ == self@.and_poll_later(),
    {
        Step { events: self.events, poll_later: true, request: self.request }
    }
}

} // verus!
