//! The tray bridge: its identity, its menu, what an activation sends, how it
//! registers with the tray host, and its lifecycle.
use vstd::prelude::*;

use async_channel::Sender;

use crate::message::{action_event, event_for, GUIMessage, MenuAction};
use crate::outside::try_deliver;

verus! {

/// The stable identifier that the tray host knows the application by.
pub open spec fn tray_id() -> Seq<char> {
    seq!['s', 'o', 'n', 'g', 'r', 'e', 'c']
}

/// The themed icon name that the tray host resolves.
pub open spec fn tray_icon_name() -> Seq<char> {
    seq!['r', 'e', '.', 'f', 'o', 's', 's', 'p', 'l', 'a', 'n', 't', '.', 's', 'o', 'n', 'g', 'r', 'e', 'c']
}

/// The human-readable title of the tray icon.
pub open spec fn tray_title() -> Seq<char> {
    seq!['S', 'o', 'n', 'g', 'R', 'e', 'c']
}

/// Errors of the tray bridge.
#[derive(Clone, Copy, Debug, PartialEq, Eq, Structural)]
pub enum TrayError {
    /// The tray host is absent or refused the registration.
    RegistrationFailed,
    /// The event channel refused the event of an activation (full or closed).
    DeliveryViolation(GUIMessage),
}

/// One entry of the tray menu: the text shown and the action behind it.
pub struct MenuEntry {
    pub label: String,
    pub action: MenuAction,
}

/// The tray menu with the given labels: "open" first, then "quit".
pub open spec fn menu_model(open_label: Seq<char>, quit_label: Seq<char>) -> Seq<(Seq<char>, MenuAction)> {
    seq![(open_label, MenuAction::Open), (quit_label, MenuAction::Quit)]
}

/// The view of a built menu: each entry as its label and its action.
pub open spec fn menu_view(entries: Seq<MenuEntry>) -> Seq<(Seq<char>, MenuAction)> {
    entries.map_values(|e: MenuEntry| (e.label@, e.action))
}

/// Builds the two-entry menu from its labels, which the caller has already
/// translated for the current locale.
pub fn menu_entries(open_label: String, quit_label: String) -> (r: Vec<MenuEntry>)
    ensures
        menu_view(r@) == menu_model(open_label@, quit_label@),
{
    let r = vec![
        MenuEntry { label: open_label, action: MenuAction::Open },
        MenuEntry { label: quit_label, action: MenuAction::Quit },
    ];
    assert(menu_view(r@) =~= menu_model(open_label@, quit_label@));
    r
}

/// The tray bridge. It holds only the producing end of the application's
/// event channel.
pub struct SystrayInterface {
    pub gui_tx: Sender<GUIMessage>,
}

impl SystrayInterface {
    pub fn new(gui_tx: Sender<GUIMessage>) -> (r: Self)
        ensures
            r.gui_tx == gui_tx,
    {
        SystrayInterface { gui_tx }
    }

    pub fn id(&self) -> (r: String)
        ensures
            r@ == tray_id(),
    {
        let r = "songrec".to_string();
        proof {
            reveal_strlit("songrec");
        }
        assert(r@ =~= tray_id());
        r
    }

    pub fn icon_name(&self) -> (r: String)
        ensures
            r@ == tray_icon_name(),
    {
        let r = "re.fossplant.songrec".to_string();
        proof {
            reveal_strlit("re.fossplant.songrec");
        }
        assert(r@ =~= tray_icon_name());
        r
    }

    pub fn title(&self) -> (r: String)
        ensures
            r@ == tray_title(),
    {
        let r = "SongRec".to_string();
        proof {
            reveal_strlit("SongRec");
        }
        assert(r@ =~= tray_title());
        r
    }

    /// Activates a menu entry: tries, without waiting, to put the entry's
    /// event on the channel. On success it returns the event that the channel
    /// accepted; a refusal is reported as `DeliveryViolation` carrying the
    /// event that was handed over. Either way the event is the entry's own.
    pub fn activate(&self, action: MenuAction) -> (r: Result<GUIMessage, TrayError>)
        ensures
            exists|sent: Result<GUIMessage, GUIMessage>|
                sent_event(sent, action_event(action)) && r == delivery_outcome_spec(sent),
            r matches Ok(m) ==> m == action_event(action),
            r matches Err(e) ==> e == TrayError::DeliveryViolation(action_event(action)),
    {
        let sent = try_deliver(&self.gui_tx, event_for(action));
        delivery_outcome(sent)
    }
}

/// The channel's answer concerns `event`: it either accepted that event or
/// handed that same event back.
pub open spec fn sent_event(sent: Result<GUIMessage, GUIMessage>, event: GUIMessage) -> bool {
    match sent {
        Ok(m) => m == event,
        Err(m) => m == event,
    }
}

/// What an activation reports for each answer of the channel.
pub open spec fn delivery_outcome_spec(sent: Result<GUIMessage, GUIMessage>) -> Result<GUIMessage, TrayError> {
    match sent {
        Ok(m) => Ok(m),
        Err(m) => Err(TrayError::DeliveryViolation(m)),
    }
}

/// Turns the channel's answer to a send into the bridge's result.
pub fn delivery_outcome(sent: Result<GUIMessage, GUIMessage>) -> (r: Result<GUIMessage, TrayError>)
    ensures
        r == delivery_outcome_spec(sent),
{
    match sent {
        Ok(m) => Ok(m),
        Err(m) => Err(TrayError::DeliveryViolation(m)),
    }
}

/// How the bridge registers with the tray host.
#[derive(Clone, Copy, Debug, PartialEq, Eq, Structural)]
pub struct RegistrationOptions {
    /// Whether a well-known bus name is claimed.
    pub claim_bus_name: bool,
    /// Whether the availability of a tray host is probed (otherwise assumed).
    pub probe_host: bool,
}

/// Chooses the registration options. No bus name is ever claimed; inside a
/// sandboxed package the tray host is assumed present rather than probed.
pub fn registration_options(sandboxed: bool) -> (r: RegistrationOptions)
    ensures
        !r.claim_bus_name,
        r.probe_host == !sandboxed,
{
    RegistrationOptions { claim_bus_name: false, probe_host: !sandboxed }
}

/// Turns the result of starting the tray service into the bridge's result:
/// any failure of the service is `RegistrationFailed`.
pub fn registration_outcome<H>(started: Result<H, ksni::Error>) -> (r: Result<H, TrayError>)
    ensures
        started is Ok <==> r is Ok,
        started is Ok ==> r->Ok_0 == started->Ok_0,
        started is Err ==> r == Err::<H, TrayError>(TrayError::RegistrationFailed),
{
    match started {
        Ok(h) => Ok(h),
        Err(_) => Err(TrayError::RegistrationFailed),
    }
}

/// Where the bridge stands with the tray host: a model of the lifecycle
/// `Unregistered -> Active -> Unregistered` for a caller that keeps track of
/// it. The bridge itself holds no state, and neither it nor the service
/// runner in this crate drives this model.
#[derive(Clone, Copy, Debug, PartialEq, Eq, Structural)]
pub enum TrayState {
    Unregistered,
    Active,
}

/// The state after an attempt to enable from `state`: active only if it
/// succeeded from `Unregistered`.
pub open spec fn enable_step(state: TrayState, succeeded: bool) -> TrayState {
    if state == TrayState::Unregistered && succeeded {
        TrayState::Active
    } else {
        state
    }
}

/// The state after disabling: no registration is left.
pub open spec fn disable_step(state: TrayState) -> TrayState {
    TrayState::Unregistered
}

impl TrayState {
    /// The state after an attempt to enable from `Unregistered`.
    pub fn enabled(self, succeeded: bool) -> (r: TrayState)
        requires
            self == TrayState::Unregistered,
        ensures
            r == enable_step(self, succeeded),
    {
        if succeeded {
            TrayState::Active
        } else {
            TrayState::Unregistered
        }
    }

    /// The state after disabling an active registration.
    pub fn disabled(self) -> (r: TrayState)
        requires
            self == TrayState::Active,
        ensures
            r == disable_step(self),
    {
        TrayState::Unregistered
    }
}

} // verus!
