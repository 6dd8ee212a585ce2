//! Laws of the tray bridge. The ones about the event channel are stated over
//! a FIFO model of its contents (`after_delivery`), fed by the answers that
//! `SystrayInterface::activate` is proved to report.
use vstd::prelude::*;

use crate::message::{action_event, GUIMessage, MenuAction};
use crate::tray::{delivery_outcome_spec, disable_step, enable_step, sent_event, TrayError, TrayState};

verus! {

broadcast use vstd::seq_lib::group_to_multiset_ensures;

/// FIFO model of the events waiting in the channel after it answered a send:
/// an accepted event is added at the back, a refused one adds nothing.
pub open spec fn after_delivery(queue: Seq<GUIMessage>, sent: Result<GUIMessage, GUIMessage>) -> Seq<GUIMessage> {
    match sent {
        Ok(m) => queue.push(m),
        Err(_) => queue,
    }
}

/// In the FIFO model, an activation of "open" that the channel accepts adds
/// exactly one `ShowWindow` and no event of another kind; one that it refuses
/// adds nothing. Either way the activation reports `ShowWindow`: as the
/// delivered event or as the refused one.
pub proof fn lemma_open_sends_show_window(queue: Seq<GUIMessage>, sent: Result<GUIMessage, GUIMessage>)
    requires
        sent_event(sent, action_event(MenuAction::Open)),
    ensures
        sent is Ok ==> after_delivery(queue, sent) == queue.push(GUIMessage::ShowWindow),
        sent is Ok ==> after_delivery(queue, sent).to_multiset().count(GUIMessage::ShowWindow)
            == queue.to_multiset().count(GUIMessage::ShowWindow) + 1,
        after_delivery(queue, sent).to_multiset().count(GUIMessage::QuitApplication)
            == queue.to_multiset().count(GUIMessage::QuitApplication),
        sent is Err ==> after_delivery(queue, sent) == queue,
        delivery_outcome_spec(sent) == Ok::<GUIMessage, TrayError>(GUIMessage::ShowWindow)
            || delivery_outcome_spec(sent) == Err::<GUIMessage, TrayError>(
            TrayError::DeliveryViolation(GUIMessage::ShowWindow),
        ),
{
}

/// In the FIFO model, an activation of "quit" that the channel accepts adds
/// exactly one `QuitApplication` and no event of another kind; one that it
/// refuses adds nothing. Either way the activation reports `QuitApplication`.
pub proof fn lemma_quit_sends_quit_application(queue: Seq<GUIMessage>, sent: Result<GUIMessage, GUIMessage>)
    requires
        sent_event(sent, action_event(MenuAction::Quit)),
    ensures
        sent is Ok ==> after_delivery(queue, sent) == queue.push(GUIMessage::QuitApplication),
        sent is Ok ==> after_delivery(queue, sent).to_multiset().count(GUIMessage::QuitApplication)
            == queue.to_multiset().count(GUIMessage::QuitApplication) + 1,
        after_delivery(queue, sent).to_multiset().count(GUIMessage::ShowWindow)
            == queue.to_multiset().count(GUIMessage::ShowWindow),
        sent is Err ==> after_delivery(queue, sent) == queue,
        delivery_outcome_spec(sent) == Ok::<GUIMessage, TrayError>(GUIMessage::QuitApplication)
            || delivery_outcome_spec(sent) == Err::<GUIMessage, TrayError>(
            TrayError::DeliveryViolation(GUIMessage::QuitApplication),
        ),
{
}

/// In the FIFO model, when the channel accepts an activation of each entry,
/// in either order, both events are present, each exactly once: the two
/// orders differ only in the order of the two events.
pub proof fn lemma_both_activations(
    queue: Seq<GUIMessage>,
    open_sent: Result<GUIMessage, GUIMessage>,
    quit_sent: Result<GUIMessage, GUIMessage>,
)
    requires
        sent_event(open_sent, action_event(MenuAction::Open)),
        sent_event(quit_sent, action_event(MenuAction::Quit)),
        open_sent is Ok,
        quit_sent is Ok,
    ensures
        after_delivery(after_delivery(queue, open_sent), quit_sent)
            == queue + seq![GUIMessage::ShowWindow, GUIMessage::QuitApplication],
        after_delivery(after_delivery(queue, quit_sent), open_sent)
            == queue + seq![GUIMessage::QuitApplication, GUIMessage::ShowWindow],
        after_delivery(after_delivery(queue, open_sent), quit_sent).to_multiset()
            == after_delivery(after_delivery(queue, quit_sent), open_sent).to_multiset(),
        after_delivery(after_delivery(queue, open_sent), quit_sent).to_multiset()
            == queue.to_multiset().insert(GUIMessage::ShowWindow).insert(GUIMessage::QuitApplication),
{
    let q = queue.to_multiset();
    assert(after_delivery(after_delivery(queue, open_sent), quit_sent)
        =~= queue + seq![GUIMessage::ShowWindow, GUIMessage::QuitApplication]);
    assert(after_delivery(after_delivery(queue, quit_sent), open_sent)
        =~= queue + seq![GUIMessage::QuitApplication, GUIMessage::ShowWindow]);
    assert(q.insert(GUIMessage::ShowWindow).insert(GUIMessage::QuitApplication)
        =~= q.insert(GUIMessage::QuitApplication).insert(GUIMessage::ShowWindow));
}

/// In the lifecycle model (`TrayState`), enabling successfully and then
/// disabling leaves the bridge unregistered, the state it started in; an
/// enable after that ends as an enable from a clean state would. The model
/// is not driven by the service runner, so this says nothing of the host.
pub proof fn lemma_enable_disable_round_trip(state: TrayState, succeeded_again: bool)
    requires
        state == TrayState::Unregistered,
    ensures
        enable_step(state, true) == TrayState::Active,
        disable_step(enable_step(state, true)) == state,
        enable_step(disable_step(enable_step(state, true)), succeeded_again)
            == enable_step(state, succeeded_again),
{
}

} // verus!
