use external_dx11_overlay::frame::FrameDescriptor;
use external_dx11_overlay::input::{ClientRect, WM_KEYDOWN, WM_LBUTTONDOWN, WM_MOUSEMOVE};
use external_dx11_overlay::keybind::{Action, KeyCombo, KeybindTable};
use external_dx11_overlay::packet::{MouseEvent, MouseInputPacket};
use external_dx11_overlay::router::{InputRouter, Modifiers, RouterPhase, Routing};

const NO_MODS: Modifiers = Modifiers { ctrl: false, alt: false, shift: false };

fn active_router() -> InputRouter {
    let mut r = InputRouter::new();
    assert!(r.install(0xABCD));
    assert!(r.activate());
    r
}

fn companion() -> Option<FrameDescriptor> {
    Some(FrameDescriptor { active_index: 0, width: 1600, height: 1200, handle_a: 1, handle_b: 2, alive: true })
}

fn client() -> Option<ClientRect> {
    Some(ClientRect { left: 0, top: 0, right: 800, bottom: 600 })
}

#[test]
fn bound_key_is_handled_and_not_forwarded() {
    let mut table = KeybindTable::new();
    table.bind(KeyCombo { key: 0x44, ctrl: true, alt: false, shift: true }, Action::DumpDebugData);
    let r = active_router();
    let mods = Modifiers { ctrl: true, alt: false, shift: true };
    assert_eq!(r.route(&table, WM_KEYDOWN, 0x44, 0, mods, None, None), Routing::Handle(Action::DumpDebugData));
}

#[test]
fn unbound_key_is_forwarded() {
    let mut table = KeybindTable::new();
    table.bind(KeyCombo { key: 0x44, ctrl: true, alt: false, shift: true }, Action::DumpDebugData);
    let r = active_router();
    assert_eq!(r.route(&table, WM_KEYDOWN, 0x44, 0, NO_MODS, None, None), Routing::Forward);
    assert_eq!(r.route(&table, WM_KEYDOWN, 0x45, 0, Modifiers { ctrl: true, alt: false, shift: true }, None, None), Routing::Forward);
}

#[test]
fn click_is_sent_rescaled_and_forwarded() {
    let table = KeybindTable::new();
    let r = active_router();
    let lparam: isize = (300 << 16) | 400;
    assert_eq!(
        r.route(&table, WM_LBUTTONDOWN, 0, lparam, NO_MODS, companion(), client()),
        Routing::SendAndForward(MouseInputPacket { event: MouseEvent::LeftDown, x: 800, y: 600 })
    );
}

#[test]
fn pointer_is_only_forwarded_before_transport_runs() {
    let table = KeybindTable::new();
    let mut r = InputRouter::new();
    assert_eq!(r.route(&table, WM_MOUSEMOVE, 0, 5, NO_MODS, companion(), client()), Routing::Forward);
    r.install(1);
    assert_eq!(r.phase(), RouterPhase::Installed);
    assert_eq!(r.route(&table, WM_MOUSEMOVE, 0, 5, NO_MODS, companion(), client()), Routing::Forward);
}

#[test]
fn other_messages_are_forwarded() {
    let table = KeybindTable::new();
    let r = active_router();
    assert_eq!(r.route(&table, 0x0010, 0, 0, NO_MODS, None, None), Routing::Forward);
}

#[test]
fn router_installs_once_and_restores_captured_procedure() {
    let mut r = InputRouter::new();
    assert_eq!(r.forward_target(), None);
    assert!(!r.activate());
    assert!(r.install(0x1111));
    assert!(!r.install(0x2222));
    assert_eq!(r.forward_target(), Some(0x1111));
    assert!(r.activate());
    assert!(!r.activate());
    assert_eq!(r.phase(), RouterPhase::Active);
    assert_eq!(r.uninstall(), Some(0x1111));
    assert_eq!(r.phase(), RouterPhase::Uninstalled);
    assert_eq!(r.uninstall(), None);
}

#[test]
fn later_binding_replaces_earlier() {
    let mut table = KeybindTable::new();
    let k = KeyCombo { key: 0x31, ctrl: false, alt: true, shift: true };
    assert_eq!(table.lookup(k), None);
    table.bind(k, Action::ToggleMainWindow);
    table.bind(KeyCombo { key: 0x32, ctrl: false, alt: true, shift: true }, Action::ToggleRendering);
    assert_eq!(table.lookup(k), Some(Action::ToggleMainWindow));
    table.bind(k, Action::RestartCompanion);
    assert_eq!(table.lookup(k), Some(Action::RestartCompanion));
    assert_eq!(table.lookup(KeyCombo { key: 0x32, ctrl: false, alt: true, shift: true }), Some(Action::ToggleRendering));
}
