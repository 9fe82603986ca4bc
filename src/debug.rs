//! Switches for debugging features, and the add-on window's visibility.
use vstd::prelude::*;
use crate::compositor::{Compositor, Phase};
use crate::keybind::Action;

verus! {

/// Debugging features, each toggled by a keybind.
#[derive(Clone, Copy, Debug, PartialEq, Eq, Structural)]
pub struct DebugFeatures {
    /// The overlay is composited onto frames.
    pub rendering_enabled: bool,
    /// The companion's frames are processed.
    pub processing_enabled: bool,
    /// The debugging overlay is shown.
    pub debug_overlay_enabled: bool,
}

impl DebugFeatures {
    /// Rendering and processing on, the debugging overlay off.
    pub fn new() -> (r: DebugFeatures)
        ensures
            r.rendering_enabled,
            r.processing_enabled,
            !r.debug_overlay_enabled,
    {
        DebugFeatures { rendering_enabled: true, processing_enabled: true, debug_overlay_enabled: false }
    }

    /// Flips the feature that `action` toggles; returns whether it names one.
    pub fn toggle(&mut self, action: Action) -> (r: bool)
        ensures
            r == (action == Action::ToggleRendering || action == Action::ToggleProcessing || action
                == Action::ToggleDebugOverlay),
            final(self).rendering_enabled == (old(self).rendering_enabled != (action
                == Action::ToggleRendering)),
            final(self).processing_enabled == (old(self).processing_enabled != (action
                == Action::ToggleProcessing)),
            final(self).debug_overlay_enabled == (old(self).debug_overlay_enabled != (action
                == Action::ToggleDebugOverlay)),
    {
        match action {
            Action::ToggleRendering => {
                self.rendering_enabled = !self.rendering_enabled;
                true
            },
            Action::ToggleProcessing => {
                self.processing_enabled = !self.processing_enabled;
                true
            },
            Action::ToggleDebugOverlay => {
                self.debug_overlay_enabled = !self.debug_overlay_enabled;
                true
            },
            _ => false,
        }
    }
}

/// Opens the add-on's main window if it is closed, closes it otherwise.
pub fn toggle_window(is_open: &mut bool)
    ensures
        *final(is_open) == !*old(is_open),
{
    *is_open = !*is_open;
}

/// Reports the backbuffer dimensions that the overlay was last sized for and
/// drops the overlay's state, so that the next present call rebuilds it.
/// `None` when there was no overlay state.
pub fn dump_debug_data(compositor: &mut Compositor) -> (r: Option<(u32, u32)>)
    requires
        old(compositor).wf(),
        old(compositor).phase == Phase::Idle,
    ensures
        final(compositor).wf(),
        final(compositor).phase == Phase::Idle,
        final(compositor).overlay is None,
        r == (match old(compositor).overlay {
            Some(o) => Some((o.viewport.width, o.viewport.height)),
            None => None,
        }),
{
    let r = match compositor.overlay {
        Some(o) => Some((o.viewport.width, o.viewport.height)),
        None => None,
    };
    compositor.overlay = None;
    r
}

} // verus!
