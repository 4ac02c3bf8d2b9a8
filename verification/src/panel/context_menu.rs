//! The ephemeral context menu: a surface anchored top-left, placed at the
//! press point and sized to the caller-supplied content box. Only one may
//! exist at a time; the router tears the previous one down before creating
//! the next.

use vstd::prelude::*;
use crate::geometry::Rect;
use crate::state::KobelShellState;
use crate::surface::{
    Anchor, KeyboardInteractivity, Layer, Margin, Renderable, ShellCommand, SurfaceDescriptor,
    SurfaceId, SurfaceSize, shell_namespace,
};
use crate::KobelRootMessage;

verus! {

/// Messages addressed to the context menu.
#[derive(Debug)]
pub enum KobelContextMenuMessage {
    Toggle,
    DebugBorderStyleToggled(bool),
}

/// The descriptor a context-menu surface is created with: the overlay
/// layer anchored top-left, margin equal to the press point, size equal to
/// the content box, on-demand keyboard focus, reserving no space.
pub open spec fn context_menu_descriptor_matches(d: SurfaceDescriptor, rect: Rect) -> bool {
    &&& d.namespace@ == "kobelwm"@
    &&& d.layer == Layer::Overlay
    &&& d.anchor == (Anchor { top: true, bottom: false, left: true, right: false })
    &&& d.size == (SurfaceSize { width: Some(rect.width), height: Some(rect.height) })
    &&& d.exclusive_zone == -1
    &&& d.margin == (Margin { top: rect.y, right: 0, bottom: 0, left: rect.x })
    &&& d.keyboard_interactivity == KeyboardInteractivity::OnDemand
    &&& d.pointer_interactivity
}

/// The context-menu panel: nothing but its surface.
#[derive(Debug)]
pub struct KobelContextMenu {
    pub id: SurfaceId,
}

impl KobelContextMenu {
    /// Create a context menu at the given press rectangle and its
    /// surface-create command.
    pub fn new(state: &KobelShellState, rect: Rect, id: SurfaceId) -> (r: (
        KobelContextMenu,
        Vec<ShellCommand>,
    ))
        ensures
            r.0.id == id,
            r.1@.len() == 1,
            r.1@[0] matches ShellCommand::CreateSurface(i, d) && i == id
                && context_menu_descriptor_matches(d, rect),
    {
        let _ = state;
        let descriptor = SurfaceDescriptor {
            namespace: shell_namespace(),
            layer: Layer::Overlay,
            anchor: Anchor::top_left(),
            size: SurfaceSize { width: Some(rect.width), height: Some(rect.height) },
            exclusive_zone: -1,
            margin: Margin { top: rect.y, right: 0, bottom: 0, left: rect.x },
            keyboard_interactivity: KeyboardInteractivity::OnDemand,
            pointer_interactivity: true,
        };
        let mut commands: Vec<ShellCommand> = Vec::new();
        commands.push(ShellCommand::CreateSurface(id, descriptor));
        (KobelContextMenu { id }, commands)
    }

    /// The context menu reacts to no event and issues no protocol traffic.
    pub fn update(&mut self, message: &KobelRootMessage) -> (cmds: Vec<ShellCommand>)
        ensures
            *final(self) == *old(self),
            cmds@ == Seq::<ShellCommand>::empty(),
    {
        let _ = message;
        Vec::new()
    }

    /// The context menu always draws its item list.
    pub fn view(&self) -> (r: Renderable)
        ensures
            r == Renderable::ContextMenu,
    {
        Renderable::ContextMenu
    }
}

} // verus!
