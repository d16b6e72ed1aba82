//! What holds of the window's state, whatever it was before.

use crate::gui::{InstallerView, MessageView};
use crate::message::LedgerMessageView;
use crate::notice::{check_failed_text, CANNOT_CONNECT, CONNECT_PROMPT};
use crate::screen::{app_control, AppControlView};
use crate::session::SessionView;
use crate::version::VersionView;
use vstd::prelude::*;

verus! {

/// The state after `events`, taken in order.
pub open spec fn after_events(state: InstallerView, events: Seq<LedgerMessageView>) -> InstallerView
    decreases events.len(),
{
    if events.len() == 0 {
        state
    } else {
        after_events(state, events.drop_last()).after_event(events.last())
    }
}

/// Idempotent clear: an empty text without alarm leaves no text and no
/// alarm, whatever was shown before, and a second one changes nothing more.
pub proof fn clear_takes_the_text_away(state: InstallerView)
    ensures
        state.after_event(LedgerMessageView::clear()).user_message is None,
        !state.after_event(LedgerMessageView::clear()).alarm,
        state.after_event(LedgerMessageView::clear()).after_event(LedgerMessageView::clear())
            == state.after_event(LedgerMessageView::clear()),
        state.update(MessageView::LedgerServiceMsg(LedgerMessageView::clear()))
            == state.after_event(LedgerMessageView::clear()),
{
}

/// A command changes the window's state only when it comes from the user:
/// one that comes from the session changes nothing.
pub proof fn command_from_the_session_changes_nothing(state: InstallerView, msg: LedgerMessageView)
    requires
        msg.is_command(),
    ensures
        state.after_event(msg) == state,
{
}

/// What the user orders marks the session as busy and goes to the session;
/// nothing else goes there.
pub proof fn order_marks_the_session_busy(state: InstallerView, msg: MessageView)
    ensures
        msg.is_order() ==> state.update(msg).device_busy,
        msg.is_order() <==> InstallerView::order(msg) is Some,
        InstallerView::order(msg) matches Some(command) ==> command.is_command(),
{
}

/// Mutual exclusion, seen from the window: while the session is busy the
/// screen offers nothing that would order another operation. So the busy
/// mark is never set while it is set.
pub proof fn busy_screen_offers_no_order(state: InstallerView, press: MessageView)
    requires
        state.device_busy,
        state.screen().offers(press),
    ensures
        !press.is_order(),
{
}

/// Whatever the screen offers is an order or takes the alarm away.
pub proof fn screen_offers_orders_only(state: InstallerView, press: MessageView)
    requires
        state.screen().offers(press),
    ensures
        press.is_order() || press is ResetAlarm,
{
}

/// Every event that ends an operation takes the busy mark away.
pub proof fn completion_clears_busy(state: InstallerView, event: LedgerMessageView)
    requires
        event is Connected || event is MainAppVersion || event is TestAppVersion
            || event is DeviceIsGenuine || event matches LedgerMessageView::DisplayMessage(
            _,
            true,
        ),
    ensures
        !state.after_event(event).device_busy,
{
}

/// A device that is gone takes with it all that was known of the apps.
pub proof fn gone_device_clears_versions(state: InstallerView, version: Option<Seq<char>>)
    ensures
        ({
            let next = state.after_event(LedgerMessageView::Connected(None, version));
            &&& next.ledger_model is None
            &&& next.main_app_version is Unknown
            &&& next.main_latest_version is Unknown
            &&& next.test_app_version is Unknown
            &&& next.test_latest_version is Unknown
            &&& next.screen().app is None
        }),
{
}

/// No device: when a poll finds none, the window forgets the device and the
/// apps and shows the prompt to connect one, whatever it showed before.
pub proof fn absent_device_shows_the_prompt(session: SessionView, state: InstallerView)
    requires
        session.phase is PollTransport,
    ensures
        ({
            let (_, step) = session.poll_connected(false);
            let next = after_events(state, step.events);
            &&& next.ledger_model is None
            &&& next.ledger_version is None
            &&& next.main_app_version is Unknown
            &&& next.main_latest_version is Unknown
            &&& next.test_app_version is Unknown
            &&& next.test_latest_version is Unknown
            &&& !next.device_busy
            &&& next.screen().app is None
            &&& next.screen().hint_message == Some(CONNECT_PROMPT@)
            &&& !next.screen().reset_alarm
        }),
{
    let (_, step) = session.poll_connected(false);
    assert(step.events.drop_last().drop_last() =~= Seq::empty());
    reveal_with_fuel(after_events, 3);
}

/// Failed inventory: when the device does not list its apps, the failure
/// stays before the user as an alarm, whatever the window showed before.
pub proof fn failed_inventory_stays_before_the_user(
    session: SessionView,
    state: InstallerView,
    cause: Seq<char>,
)
    requires
        session.phase is PollInstalledApps,
    ensures
        ({
            let (_, step) = session.poll_installed_apps(Err(cause));
            let next = after_events(state, step.events);
            &&& next.alarm
            &&& !next.device_busy
            &&& next.user_message == Some(check_failed_text(cause))
        }),
{
    let (_, step) = session.poll_installed_apps(Err(cause));
    assert(step.events.drop_last().drop_last() =~= Seq::empty());
    reveal_with_fuel(after_events, 3);
}

/// The installed app is the latest: once the window has been told that a
/// version is installed and that the catalog's latest is the same, it
/// offers no button for that app, and says so.
pub proof fn latest_app_offers_no_button(
    state: InstallerView,
    version: Seq<char>,
    testnet: VersionView,
)
    ensures
        ({
            let next = state.after_event(
                LedgerMessageView::MainAppVersion(VersionView::Installed(version)),
            ).after_event(LedgerMessageView::LatestApps(VersionView::Latest(version), testnet));
            next.screen().app matches Some((_, apps)) ==> apps.bitcoin.control
                == AppControlView::Latest
        }),
        forall|install: Option<MessageView>, update: Option<MessageView>|
            app_control(
                VersionView::Installed(version),
                VersionView::Latest(version),
                install,
                update,
            ) == AppControlView::Latest,
{
}

/// Unreachable device: when an attestation cannot open the transport, the
/// window ends free, without a verdict, and with the failure as its alarm,
/// whatever it showed before.
pub proof fn unreachable_device_ends_in_alarm(session: SessionView, state: InstallerView)
    requires
        session.phase is CheckTransport,
    ensures
        ({
            let (next_session, step) = session.check_connected(false);
            let next = after_events(state.update(MessageView::GenuineCheck), step.events);
            &&& next_session.is_idle()
            &&& !next.device_busy
            &&& next.device_is_genuine is None
            &&& next.alarm
            &&& next.user_message == Some(CANNOT_CONNECT@)
        }),
{
    let (_, step) = session.check_connected(false);
    assert(step.events.drop_last().drop_last() =~= Seq::empty());
    reveal_with_fuel(after_events, 3);
}

} // verus!
