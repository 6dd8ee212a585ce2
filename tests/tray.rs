use songrec_tray::message::{event_for, GUIMessage, MenuAction};
use songrec_tray::tray::{
    delivery_outcome, menu_entries, registration_options, registration_outcome, SystrayInterface,
    TrayError, TrayState,
};

fn bridge() -> (SystrayInterface, async_channel::Receiver<GUIMessage>) {
    let (tx, rx) = async_channel::unbounded();
    (SystrayInterface::new(tx), rx)
}

fn drain(rx: &async_channel::Receiver<GUIMessage>) -> Vec<GUIMessage> {
    let mut out = Vec::new();
    while let Ok(m) = rx.try_recv() {
        out.push(m);
    }
    out
}

#[test]
fn identity_strings() {
    let (tray, _rx) = bridge();
    assert_eq!(tray.id(), "songrec");
    assert_eq!(tray.icon_name(), "re.fossplant.songrec");
    assert_eq!(tray.title(), "SongRec");
}

#[test]
fn identity_is_stable_across_queries() {
    let (tray, _rx) = bridge();
    assert_eq!(tray.id(), tray.id());
    assert_eq!(tray.title(), tray.title());
}

#[test]
fn menu_entries_keep_labels() {
    let menu = menu_entries("Open".to_string(), "Quit".to_string());
    assert_eq!(menu.len(), 2);
    assert_eq!(menu[0].label, "Open");
    assert_eq!(menu[0].action, MenuAction::Open);
    assert_eq!(menu[1].label, "Quit");
    assert_eq!(menu[1].action, MenuAction::Quit);
}

#[test]
fn event_for_each_action() {
    assert_eq!(event_for(MenuAction::Open), GUIMessage::ShowWindow);
    assert_eq!(event_for(MenuAction::Quit), GUIMessage::QuitApplication);
}

#[test]
fn open_enqueues_one_show_window() {
    let (tray, rx) = bridge();
    assert_eq!(tray.activate(MenuAction::Open), Ok(GUIMessage::ShowWindow));
    assert_eq!(drain(&rx), vec![GUIMessage::ShowWindow]);
}

#[test]
fn quit_enqueues_one_quit_application() {
    let (tray, rx) = bridge();
    assert_eq!(tray.activate(MenuAction::Quit), Ok(GUIMessage::QuitApplication));
    assert_eq!(drain(&rx), vec![GUIMessage::QuitApplication]);
}

#[test]
fn interleaved_activations_deliver_both_once() {
    let (tx, rx) = async_channel::unbounded();
    let first = SystrayInterface::new(tx.clone());
    let second = SystrayInterface::new(tx);
    assert_eq!(second.activate(MenuAction::Quit), Ok(GUIMessage::QuitApplication));
    assert_eq!(first.activate(MenuAction::Open), Ok(GUIMessage::ShowWindow));
    let got = drain(&rx);
    assert_eq!(got.len(), 2);
    assert_eq!(got.iter().filter(|m| **m == GUIMessage::ShowWindow).count(), 1);
    assert_eq!(got.iter().filter(|m| **m == GUIMessage::QuitApplication).count(), 1);
    assert_eq!(got, vec![GUIMessage::QuitApplication, GUIMessage::ShowWindow]);
}

#[test]
fn activation_on_closed_channel_is_a_delivery_violation() {
    let (tray, rx) = bridge();
    drop(rx);
    assert_eq!(
        tray.activate(MenuAction::Open),
        Err(TrayError::DeliveryViolation(GUIMessage::ShowWindow))
    );
}

#[test]
fn activation_on_full_channel_is_a_delivery_violation() {
    let (tx, rx) = async_channel::bounded(1);
    let tray = SystrayInterface::new(tx);
    assert_eq!(tray.activate(MenuAction::Open), Ok(GUIMessage::ShowWindow));
    assert_eq!(
        tray.activate(MenuAction::Quit),
        Err(TrayError::DeliveryViolation(GUIMessage::QuitApplication))
    );
    assert_eq!(drain(&rx), vec![GUIMessage::ShowWindow]);
}

#[test]
fn delivery_outcome_maps_each_answer() {
    assert_eq!(
        delivery_outcome(Ok(GUIMessage::QuitApplication)),
        Ok(GUIMessage::QuitApplication)
    );
    assert_eq!(
        delivery_outcome(Err(GUIMessage::ShowWindow)),
        Err(TrayError::DeliveryViolation(GUIMessage::ShowWindow))
    );
}

#[test]
fn sandboxed_registration_neither_claims_nor_probes() {
    let o = registration_options(true);
    assert!(!o.claim_bus_name);
    assert!(!o.probe_host);
}

#[test]
fn plain_registration_probes_without_claiming() {
    let o = registration_options(false);
    assert!(!o.claim_bus_name);
    assert!(o.probe_host);
}

#[test]
fn unavailable_host_is_registration_failed() {
    let r: Result<u32, TrayError> = registration_outcome(Err(ksni::Error::WontShow));
    assert_eq!(r, Err(TrayError::RegistrationFailed));
}

#[test]
fn started_service_is_passed_through() {
    let r: Result<u32, TrayError> = registration_outcome(Ok(7));
    assert_eq!(r, Ok(7));
}

#[test]
fn enable_then_disable_returns_to_clean_state() {
    let s = TrayState::Unregistered;
    let active = s.enabled(true);
    assert_eq!(active, TrayState::Active);
    let back = active.disabled();
    assert_eq!(back, TrayState::Unregistered);
    assert_eq!(back.enabled(true), TrayState::Active);
    assert_eq!(TrayState::Unregistered.enabled(false), TrayState::Unregistered);
}
