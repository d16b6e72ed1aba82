//! What holds of every session, whatever commands and replies it is handed.

use crate::driver::{ReplyView, RequestView, StepView};
use crate::message::LedgerMessageView;
use crate::session::{PhaseView, SessionView};
use crate::version::VersionView;
use vstd::prelude::*;

verus! {

/// Whether `msg` asks for an install or an update.
pub open spec fn asks_install(msg: LedgerMessageView) -> bool {
    msg is InstallMain || msg is UpdateMain || msg is InstallTest || msg is UpdateTest
}

/// Whether `step` fits the state `next` that it leads to: it asks for
/// outside work exactly if the session is left in the middle of an operation,
/// and the session then waits for the outcome of that work and of no other.
pub open spec fn in_step(next: SessionView, step: StepView) -> bool {
    &&& next.is_idle() <==> step.request is None
    &&& forall|reply: ReplyView| #[trigger]
        next.phase.awaits(reply) <==> step.request is Some && step.request->0.answered_by(reply)
}

/// Whether all of `events` are events, and none a command.
pub open spec fn all_events(events: Seq<LedgerMessageView>) -> bool {
    forall|i: int| 0 <= i < events.len() ==> (#[trigger] events[i]).is_event()
}

/// What a session can be handed: a command, or the outcome of outside work.
pub enum Input {
    Command(LedgerMessageView),
    Reply(ReplyView),
}

/// The state after `input`. A reply that the session does not wait for
/// leaves it as it is.
pub open spec fn after(s: SessionView, input: Input) -> SessionView {
    match input {
        Input::Command(msg) => s.handle_message(msg).0,
        Input::Reply(reply) => match s.resume(reply) {
            Some((next, _)) => next,
            None => s,
        },
    }
}

/// The state after `inputs`, taken in order.
pub open spec fn run(s: SessionView, inputs: Seq<Input>) -> SessionView
    decreases inputs.len(),
{
    if inputs.len() == 0 {
        s
    } else {
        after(run(s, inputs.drop_last()), inputs.last())
    }
}

/// A session begins idle and well formed.
pub proof fn initial_is_well_formed(socket_url: Seq<char>)
    ensures
        SessionView::initial(socket_url).is_idle(),
        SessionView::initial(socket_url).well_formed(),
{
}

/// Mutual exclusion: while an operation runs the session begins no other.
/// Whatever it is handed then, the state stays as it is, nothing is
/// published, and no outside work is asked for.
pub proof fn busy_session_begins_nothing(s: SessionView, msg: LedgerMessageView)
    requires
        !s.is_idle(),
    ensures
        s.handle_message(msg) == (s, StepView::nothing()),
        s.start() == (s, StepView::nothing()),
{
}

/// A reply is taken if and only if the session waits for it; an idle
/// session takes none.
pub proof fn resume_takes_the_awaited_reply(s: SessionView, reply: ReplyView)
    ensures
        s.resume(reply) is Some <==> s.phase.awaits(reply),
        s.is_idle() ==> s.resume(reply) is None,
{
}

/// What a command leads to: a well-formed state again, a step that fits
/// it, and nothing published but events.
pub proof fn handle_message_is_sound(s: SessionView, msg: LedgerMessageView)
    requires
        s.is_idle(),
        s.well_formed(),
    ensures
        ({
            let (next, step) = s.handle_message(msg);
            &&& next.well_formed()
            &&& in_step(next, step)
            &&& all_events(step.events)
        }),
{
}

/// What the start of the session leads to: a well-formed state again, a
/// step that fits it, and nothing published but events.
pub proof fn start_is_sound(s: SessionView)
    requires
        s.is_idle(),
        s.well_formed(),
    ensures
        ({
            let (next, step) = s.start();
            &&& next.well_formed()
            &&& in_step(next, step)
            &&& all_events(step.events)
        }),
{
}

/// What a reply leads to: a well-formed state again, a step that fits it,
/// and nothing published but events.
pub proof fn resume_is_sound(s: SessionView, reply: ReplyView)
    requires
        s.well_formed(),
        s.phase.awaits(reply),
    ensures
        s.resume(reply) is Some,
        ({
            let (next, step) = s.resume(reply)->0;
            &&& next.well_formed()
            &&& in_step(next, step)
            &&& all_events(step.events)
        }),
{
}

/// Whatever a session is handed, and in whatever order, it stays well
/// formed.
pub proof fn every_run_is_well_formed(socket_url: Seq<char>, inputs: Seq<Input>)
    ensures
        run(SessionView::initial(socket_url), inputs).well_formed(),
    decreases inputs.len(),
{
    if inputs.len() > 0 {
        every_run_is_well_formed(socket_url, inputs.drop_last());
        let before = run(SessionView::initial(socket_url), inputs.drop_last());
        match inputs.last() {
            Input::Command(msg) => {
                if before.is_idle() {
                    handle_message_is_sound(before, msg);
                }
            },
            Input::Reply(reply) => {
                if before.phase.awaits(reply) {
                    resume_is_sound(before, reply);
                }
            },
        }
    }
}

/// Mutual exclusion over a whole run: whatever came before, a command that
/// arrives while an operation runs leaves the session where it was, so the
/// operation that runs is still the one that was begun.
pub proof fn no_run_begins_a_second_operation(
    socket_url: Seq<char>,
    inputs: Seq<Input>,
    msg: LedgerMessageView,
)
    requires
        !run(SessionView::initial(socket_url), inputs).is_idle(),
    ensures
        run(SessionView::initial(socket_url), inputs.push(Input::Command(msg))) == run(
            SessionView::initial(socket_url),
            inputs,
        ),
{
    assert(inputs.push(Input::Command(msg)).drop_last() =~= inputs);
}

/// A `TryConnect` changes nothing while a device is connected.
pub proof fn connected_session_ignores_try_connect(s: SessionView)
    requires
        s.device_version is Some,
    ensures
        s.handle_message(LedgerMessageView::TryConnect) == (s, StepView::nothing()),
{
}

/// Reset before install: a command to install or update is answered first
/// with the news that nothing is known of either app, and the session holds
/// nothing of them either while the install runs.
pub proof fn install_resets_versions_first(s: SessionView, msg: LedgerMessageView)
    requires
        s.is_idle(),
        asks_install(msg),
    ensures
        ({
            let (next, step) = s.handle_message(msg);
            &&& step.events.len() >= 2
            &&& step.events[0] == LedgerMessageView::MainAppVersion(VersionView::Unknown)
            &&& step.events[1] == LedgerMessageView::TestAppVersion(VersionView::Unknown)
            &&& next.mainnet_version is Unknown
            &&& next.testnet_version is Unknown
            &&& next.phase.is_installing()
            &&& step.request == Some(RequestView::Transport)
        }),
{
}

/// An install ends in a poll: every reply either brings it nearer to its
/// end, or ends it with the device counted as disconnected and a poll begun.
/// At most four replies do the first.
pub proof fn install_ends_in_poll(s: SessionView, reply: ReplyView)
    requires
        s.phase.is_installing(),
        s.phase.awaits(reply),
    ensures
        ({
            let (next, step) = s.resume(reply)->0;
            ||| {
                &&& next.phase.is_installing()
                &&& next.phase.install_steps_left() < s.phase.install_steps_left()
                &&& next.device_version == s.device_version
            }
            ||| {
                &&& next.phase is PollTransport
                &&& next.device_version is None
                &&& step.request == Some(RequestView::Transport)
            }
        }),
        s.phase.install_steps_left() <= 4,
{
}

/// What is known of the installed apps changes in two places only: a
/// command to install or update resets it, and a poll that has the apps
/// listed sets it.
pub proof fn versions_change_only_at_install_and_inventory(
    s: SessionView,
    msg: LedgerMessageView,
    reply: ReplyView,
)
    ensures
        !asks_install(msg) ==> {
            let (next, _) = s.handle_message(msg);
            &&& next.mainnet_version == s.mainnet_version
            &&& next.testnet_version == s.testnet_version
        },
        s.resume(reply) is Some && !(s.phase is PollInstalledApps && reply
            matches ReplyView::InstalledApps(Ok(_))) ==> {
            let (next, _) = s.resume(reply)->0;
            &&& next.mainnet_version == s.mainnet_version
            &&& next.testnet_version == s.testnet_version
        },
{
}

/// The installed apps are asked for once per connection: only by a poll
/// that has just had the device describe itself; and whatever the answer,
/// the device counts as connected after it, so that no poll asks again
/// before an install has the device connected anew.
pub proof fn inventory_is_tried_once_per_connection(
    s: SessionView,
    msg: LedgerMessageView,
    reply: ReplyView,
)
    requires
        s.well_formed(),
    ensures
        s.handle_message(msg).1.request != Some(RequestView::InstalledApps),
        s.resume(reply) is Some ==> {
            let (next, step) = s.resume(reply)->0;
            &&& step.request == Some(RequestView::InstalledApps) ==> s.phase is PollDeviceInfo
            &&& s.phase is PollInstalledApps ==> {
                &&& next.is_idle()
                &&& next.device_version is Some
                &&& next.handle_message(LedgerMessageView::TryConnect) == (
                    next,
                    StepView::nothing(),
                )
            }
        },
{
}

/// The session never reports a device as not genuine: an attestation
/// that fails leaves the verdict open.
pub proof fn session_never_reports_not_genuine(
    s: SessionView,
    msg: LedgerMessageView,
    reply: ReplyView,
    i: int,
)
    ensures
        0 <= i < s.handle_message(msg).1.events.len() ==> s.handle_message(msg).1.events[i]
            != LedgerMessageView::DeviceIsGenuine(Some(false)),
        0 <= i < s.start().1.events.len() ==> s.start().1.events[i]
            != LedgerMessageView::DeviceIsGenuine(Some(false)),
        s.resume(reply) is Some ==> {
            let (_, step) = s.resume(reply)->0;
            0 <= i < step.events.len() ==> step.events[i] != LedgerMessageView::DeviceIsGenuine(
                Some(false),
            )
        },
{
}

/// The catalog is asked at most once in a poll, at its beginning and only
/// while one of its two answers is missing; and what it offered changes
/// only when it answers.
pub proof fn catalog_is_asked_once_per_poll(s: SessionView, msg: LedgerMessageView, reply: ReplyView)
    ensures
        ({
            let (next, step) = s.handle_message(msg);
            &&& step.request != Some(RequestView::Catalog)
            &&& next.last_mainnet == s.last_mainnet
            &&& next.last_testnet == s.last_testnet
        }),
        s.resume(reply) is Some ==> {
            let (next, step) = s.resume(reply)->0;
            &&& step.request == Some(RequestView::Catalog) ==> s.phase is PollTransport
                && s.catalog_missing()
            &&& !(s.phase is PollCatalog && reply matches ReplyView::Catalog(Ok(_))) ==> {
                &&& next.last_mainnet == s.last_mainnet
                &&& next.last_testnet == s.last_testnet
            }
        },
{
}

} // verus!
