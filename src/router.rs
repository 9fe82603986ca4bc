//! The window-procedure side of input forwarding.
use vstd::prelude::*;
use crate::frame::FrameDescriptor;
use crate::hook::EntryPoint;
use crate::input::{
    companion_point, get_x_lparam, get_y_lparam, mouse_event, mouse_event_spec, rescale_point,
    ClientRect, WM_KEYDOWN,
};
use crate::keybind::{Action, KeyCombo, KeybindTable};
use crate::packet::MouseInputPacket;

verus! {

/// Where the router stands: replacing the window procedure and starting the
/// transport each move it one step on; only unloading goes back.
#[derive(Clone, Copy, Debug, PartialEq, Eq, Structural)]
pub enum RouterPhase {
    Uninstalled,
    Installed,
    Active,
}

/// The modifier keys held while a message was handled.
#[derive(Clone, Copy, Debug, PartialEq, Eq, Structural)]
pub struct Modifiers {
    pub ctrl: bool,
    pub alt: bool,
    pub shift: bool,
}

/// What becomes of one window message.
#[derive(Clone, Copy, Debug, PartialEq, Eq, Structural)]
pub enum Routing {
    /// Passed on to the original window procedure.
    Forward,
    /// Handed to the transport, then passed on to the original procedure.
    SendAndForward(MouseInputPacket),
    /// Handled here by a bound action, and not passed on.
    Handle(Action),
}

/// The window-procedure hook and its routing rules.
pub struct InputRouter {
    phase: RouterPhase,
    original: Option<EntryPoint>,
}

/// The combination that a key-down message stands for.
pub open spec fn combo_of(wparam: usize, m: Modifiers) -> KeyCombo {
    KeyCombo { key: wparam as u32, ctrl: m.ctrl, alt: m.alt, shift: m.shift }
}

impl InputRouter {
    pub closed spec fn phase_spec(&self) -> RouterPhase {
        self.phase
    }

    /// The window procedure captured at installation.
    pub closed spec fn captured(&self) -> Option<EntryPoint> {
        self.original
    }

    /// A procedure is captured exactly when the router is installed.
    pub closed spec fn wf(&self) -> bool {
        (self.phase == RouterPhase::Uninstalled) == (self.original is None)
    }

    /// What `route` decides for a message, given the router's phase.
    pub open spec fn routing_spec(
        &self,
        keybinds: KeybindTable,
        msg: u32,
        wparam: usize,
        lparam: isize,
        modifiers: Modifiers,
        frame: Option<FrameDescriptor>,
        client: Option<ClientRect>,
    ) -> Routing {
        if mouse_event_spec(msg) is Some {
            if self.phase_spec() == RouterPhase::Active {
                let p = companion_point(
                    lparam as u16 as i16 as i32,
                    ((lparam as u32) >> 16u32) as u16 as i16 as i32,
                    frame,
                    client,
                );
                Routing::SendAndForward(
                    MouseInputPacket { event: mouse_event_spec(msg)->0, x: p.0, y: p.1 },
                )
            } else {
                Routing::Forward
            }
        } else if msg == WM_KEYDOWN {
            match keybinds.binding(combo_of(wparam, modifiers)) {
                Some(a) => Routing::Handle(a),
                None => Routing::Forward,
            }
        } else {
            Routing::Forward
        }
    }

    /// A router that has not replaced the window procedure.
    pub fn new() -> (r: InputRouter)
        ensures
            r.wf(),
            r.phase_spec() == RouterPhase::Uninstalled,
            r.captured() is None,
    {
        InputRouter { phase: RouterPhase::Uninstalled, original: None }
    }

    /// Records that the window procedure was replaced, keeping `previous`.
    /// Only the first installation counts: later ones change nothing and
    /// return `false`.
    pub fn install(&mut self, previous: EntryPoint) -> (r: bool)
        requires
            old(self).wf(),
        ensures
            final(self).wf(),
            r == (old(self).phase_spec() == RouterPhase::Uninstalled),
            r == old(self).captured() is None,
            r ==> final(self).phase_spec() == RouterPhase::Installed && final(self).captured()
                == Some(previous),
            !r ==> final(self).phase_spec() == old(self).phase_spec() && final(self).captured()
                == old(self).captured(),
    {
        if self.original.is_some() {
            return false;
        }
        self.phase = RouterPhase::Installed;
        self.original = Some(previous);
        true
    }

    /// Records that the transport has started: from `Installed` to `Active`.
    pub fn activate(&mut self) -> (r: bool)
        requires
            old(self).wf(),
        ensures
            final(self).wf(),
            r == (old(self).phase_spec() == RouterPhase::Installed),
            final(self).phase_spec() == (if r {
                RouterPhase::Active
            } else {
                old(self).phase_spec()
            }),
            final(self).captured() == old(self).captured(),
    {
        if self.phase == RouterPhase::Installed {
            self.phase = RouterPhase::Active;
            true
        } else {
            false
        }
    }

    pub fn phase(&self) -> (r: RouterPhase)
        ensures
            r == self.phase_spec(),
    {
        self.phase
    }

    /// The procedure that forwarded messages go to; `None` means the
    /// system's default procedure.
    pub fn forward_target(&self) -> (r: Option<EntryPoint>)
        ensures
            r == self.captured(),
    {
        self.original
    }

    /// Removes the hook, handing back exactly the procedure to restore.
    pub fn uninstall(&mut self) -> (r: Option<EntryPoint>)
        requires
            old(self).wf(),
        ensures
            final(self).wf(),
            r == old(self).captured(),
            final(self).captured() is None,
            final(self).phase_spec() == RouterPhase::Uninstalled,
    {
        let r = self.original;
        self.original = None;
        self.phase = RouterPhase::Uninstalled;
        r
    }

    /// Decides what becomes of one window message. Pointer messages are sent
    /// to the companion, rescaled, once the transport runs, and passed on in
    /// any case; a key-down bound in `keybinds` is handled here and not passed
    /// on; everything else is passed on.
    pub fn route(
        &self,
        keybinds: &KeybindTable,
        msg: u32,
        wparam: usize,
        lparam: isize,
        modifiers: Modifiers,
        frame: Option<FrameDescriptor>,
        client: Option<ClientRect>,
    ) -> (r: Routing)
        ensures
            r == self.routing_spec(*keybinds, msg, wparam, lparam, modifiers, frame, client),
    {
        if let Some(event) = mouse_event(msg) {
            if self.phase == RouterPhase::Active {
                let (x, y) = rescale_point(get_x_lparam(lparam), get_y_lparam(lparam), frame, client);
                return Routing::SendAndForward(MouseInputPacket { event, x, y });
            }
            return Routing::Forward;
        }
        if msg == WM_KEYDOWN {
            let combo = KeyCombo {
                key: wparam as u32,
                ctrl: modifiers.ctrl,
                alt: modifiers.alt,
                shift: modifiers.shift,
            };
            return match keybinds.lookup(combo) {
                Some(a) => Routing::Handle(a),
                None => Routing::Forward,
            };
        }
        Routing::Forward
    }
}

/// Keybind dispatch: a key-down whose combination is bound is handled by its
/// action and not passed on to the original procedure; an unbound one is
/// passed on unchanged.
pub proof fn lemma_keybind_dispatch(
    router: InputRouter,
    keybinds: KeybindTable,
    wparam: usize,
    lparam: isize,
    modifiers: Modifiers,
    frame: Option<FrameDescriptor>,
    client: Option<ClientRect>,
)
    ensures
        ({
            let r = router.routing_spec(keybinds, WM_KEYDOWN, wparam, lparam, modifiers, frame, client);
            match keybinds.binding(combo_of(wparam, modifiers)) {
                Some(a) => r == Routing::Handle(a),
                None => r == Routing::Forward,
            }
        }),
{
}

} // verus!
