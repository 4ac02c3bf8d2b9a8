//! The application dock: a surface spanning the bottom edge, reserving its
//! own height (plus margins) from the compositor.

use vstd::prelude::*;
use crate::state::KobelShellState;
use crate::surface::{
    Anchor, KeyboardInteractivity, Layer, Margin, Renderable, ShellCommand, SurfaceDescriptor,
    SurfaceId, SurfaceSize, shell_namespace,
};
use crate::KobelRootMessage;

verus! {

/// Default height of the dock surface, in logical pixels.
pub const DOCK_DEFAULT_HEIGHT: i32 = 84;

/// Default margin around the dock surface, in logical pixels.
pub const DOCK_DEFAULT_MARGIN: i32 = 8;

/// The dock handles no panel-addressed messages yet; the placeholder
/// variant keeps the message space inhabited and is ignored as a no-op.
#[derive(Debug)]
pub enum KobelDockMessage {
    Noop,
}

/// The descriptor the dock surface is created with: the overlay layer
/// across the bottom edge, a fixed height, and an exclusive zone covering
/// the height plus both vertical margins.
pub open spec fn dock_descriptor_matches(d: SurfaceDescriptor, s: KobelShellState) -> bool {
    &&& d.namespace@ == "kobelwm"@
    &&& d.layer == Layer::Overlay
    &&& d.anchor == (Anchor { top: false, bottom: true, left: true, right: true })
    &&& d.size == (SurfaceSize { width: None, height: Some(s.dock_height as u32) })
    &&& d.exclusive_zone == s.dock_height + 2 * s.dock_margin
    &&& d.margin == (Margin {
        top: s.dock_margin,
        right: s.dock_margin,
        bottom: s.dock_margin,
        left: s.dock_margin,
    })
    &&& d.keyboard_interactivity == KeyboardInteractivity::OnDemand
    &&& d.pointer_interactivity
}

/// The dock panel: nothing but its surface; its content is a pure function
/// of the shared state.
#[derive(Debug)]
pub struct KobelDock {
    pub id: SurfaceId,
}

impl KobelDock {
    /// Create the dock panel and its surface-create command.
    pub fn new(state: &KobelShellState, id: SurfaceId) -> (r: (KobelDock, Vec<ShellCommand>))
        requires
            state.wf(),
        ensures
            r.0.id == id,
            r.1@.len() == 1,
            r.1@[0] matches ShellCommand::CreateSurface(i, d) && i == id
                && dock_descriptor_matches(d, *state),
    {
        let descriptor = SurfaceDescriptor {
            namespace: shell_namespace(),
            layer: Layer::Overlay,
            anchor: Anchor::bottom_span(),
            size: SurfaceSize { width: None, height: Some(state.dock_height as u32) },
            exclusive_zone: state.dock_height + 2 * state.dock_margin,
            margin: Margin::uniform(state.dock_margin),
            keyboard_interactivity: KeyboardInteractivity::OnDemand,
            pointer_interactivity: true,
        };
        let mut commands: Vec<ShellCommand> = Vec::new();
        commands.push(ShellCommand::CreateSurface(id, descriptor));
        (KobelDock { id }, commands)
    }

    /// The dock reacts to no event and issues no protocol traffic.
    pub fn update(&mut self, message: &KobelRootMessage) -> (cmds: Vec<ShellCommand>)
        ensures
            *final(self) == *old(self),
            cmds@ == Seq::<ShellCommand>::empty(),
    {
        let _ = message;
        Vec::new()
    }

    /// The dock always draws its content.
    pub fn view(&self, state: &KobelShellState) -> (r: Renderable)
        ensures
            r == Renderable::Dock,
    {
        let _ = state;
        Renderable::Dock
    }
}

} // verus!
