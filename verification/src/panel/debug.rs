//! The debug overlay: a fixed-size surface in the top-right corner, drawn
//! only while the shared visibility flag is set.

use vstd::prelude::*;
use crate::state::KobelShellState;
use crate::surface::{
    Anchor, KeyboardInteractivity, Layer, Margin, Renderable, ShellCommand, SurfaceDescriptor,
    SurfaceId, SurfaceSize, shell_namespace,
};
use crate::KobelRootMessage;
use crate::panel::KobelPanelMessage;

verus! {

/// Side length of the square debug surface, in logical pixels.
pub const DEBUG_SURFACE_SIZE: u32 = 400;

/// Messages addressed to the debug overlay.
#[derive(Debug)]
pub enum KobelDebugMessage {
    Toggle,
    DebugBorderStyleToggled(bool),
}

/// The descriptor the debug surface is created with: a fixed square on the
/// overlay layer in the top-right corner, reserving no space and taking no
/// keyboard focus.
pub open spec fn debug_descriptor_matches(d: SurfaceDescriptor) -> bool {
    &&& d.namespace@ == "kobelwm"@
    &&& d.layer == Layer::Overlay
    &&& d.anchor == (Anchor { top: true, bottom: false, left: false, right: true })
    &&& d.size == (SurfaceSize { width: Some(DEBUG_SURFACE_SIZE), height: Some(DEBUG_SURFACE_SIZE) })
    &&& d.exclusive_zone == 0
    &&& d.margin == (Margin { top: 0, right: 10, bottom: 10, left: 10 })
    &&& d.keyboard_interactivity == KeyboardInteractivity::NoFocus
    &&& d.pointer_interactivity
}

/// The debug panel: nothing but its surface; both its visibility and the
/// debug-border flag live in the shared state.
#[derive(Debug)]
pub struct KobelDebug {
    pub id: SurfaceId,
}

impl KobelDebug {
    /// Create the debug panel and its surface-create command.
    pub fn new(state: &KobelShellState, id: SurfaceId) -> (r: (KobelDebug, Vec<ShellCommand>))
        ensures
            r.0.id == id,
            r.1@.len() == 1,
            r.1@[0] matches ShellCommand::CreateSurface(i, d) && i == id
                && debug_descriptor_matches(d),
    {
        let _ = state;
        let descriptor = SurfaceDescriptor {
            namespace: shell_namespace(),
            layer: Layer::Overlay,
            anchor: Anchor::top_right(),
            size: SurfaceSize {
                width: Some(DEBUG_SURFACE_SIZE),
                height: Some(DEBUG_SURFACE_SIZE),
            },
            exclusive_zone: 0,
            margin: Margin { top: 0, right: 10, bottom: 10, left: 10 },
            keyboard_interactivity: KeyboardInteractivity::NoFocus,
            pointer_interactivity: true,
        };
        let mut commands: Vec<ShellCommand> = Vec::new();
        commands.push(ShellCommand::CreateSurface(id, descriptor));
        (KobelDebug { id }, commands)
    }

    /// React to one event: `Toggle` flips the overlay's visibility flag,
    /// `DebugBorderStyleToggled` sets the border flag; everything else is
    /// ignored. No protocol traffic is ever issued.
    pub fn update(&mut self, state: &mut KobelShellState, message: &KobelRootMessage) -> (cmds:
        Vec<ShellCommand>)
        ensures
            *final(self) == *old(self),
            cmds@ == Seq::<ShellCommand>::empty(),
            match *message {
                KobelRootMessage::Panel(KobelPanelMessage::Debug(m)) => match m {
                    KobelDebugMessage::Toggle => *final(state) == (KobelShellState {
                        debug_panel_visible: !old(state).debug_panel_visible,
                        ..*old(state)
                    }),
                    KobelDebugMessage::DebugBorderStyleToggled(enabled) => *final(state)
                        == (KobelShellState { debug_border_style: enabled, ..*old(state) }),
                },
                _ => *final(state) == *old(state),
            },
    {
        match message {
            KobelRootMessage::Panel(KobelPanelMessage::Debug(m)) => match m {
                KobelDebugMessage::Toggle => {
                    let visible = self.is_visible(state);
                    state.debug_panel_visible = !visible;
                },
                KobelDebugMessage::DebugBorderStyleToggled(enabled) => {
                    state.debug_border_style = *enabled;
                },
            },
            _ => {},
        }
        Vec::new()
    }

    /// Whether the debug overlay is currently visible.
    pub fn is_visible(&self, state: &KobelShellState) -> (r: bool)
        ensures
            r == state.debug_panel_visible,
    {
        state.debug_panel_visible
    }

    /// What the debug overlay draws: its content while visible, nothing
    /// while hidden.
    pub fn view(&self, state: &KobelShellState) -> (r: Renderable)
        ensures
            r == if state.debug_panel_visible {
                Renderable::Debug
            } else {
                Renderable::Empty
            },
    {
        if state.debug_panel_visible {
            Renderable::Debug
        } else {
            Renderable::Empty
        }
    }
}

} // verus!
