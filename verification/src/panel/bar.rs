//! The status bar: a surface spanning the top edge, reserving its own
//! height (plus margins) from the compositor so maximized windows avoid it.

use vstd::prelude::*;
use crate::state::KobelShellState;
use crate::surface::{
    Anchor, KeyboardInteractivity, Layer, Margin, Renderable, ShellCommand, SurfaceDescriptor,
    SurfaceId, SurfaceSize, shell_namespace,
};
use crate::KobelRootMessage;

verus! {

/// Default height of the bar surface, in logical pixels.
pub const BAR_DEFAULT_HEIGHT: i32 = 36;

/// Default margin around the bar surface, in logical pixels.
pub const BAR_DEFAULT_MARGIN: i32 = 4;

/// The bar handles no panel-addressed messages yet; the placeholder variant
/// keeps the message space inhabited and is ignored as a no-op.
#[derive(Debug)]
pub enum KobelBarMessage {
    Noop,
}

/// The descriptor the bar surface is created with: the overlay layer across
/// the top edge, a fixed height, and an exclusive zone covering the height
/// plus both vertical margins.
pub open spec fn bar_descriptor_matches(d: SurfaceDescriptor, s: KobelShellState) -> bool {
    &&& d.namespace@ == "kobelwm"@
    &&& d.layer == Layer::Overlay
    &&& d.anchor == (Anchor { top: true, bottom: false, left: true, right: true })
    &&& d.size == (SurfaceSize { width: None, height: Some(s.bar_height as u32) })
    &&& d.exclusive_zone == s.bar_height + 2 * s.bar_margin
    &&& d.margin == (Margin {
        top: s.bar_margin,
        right: s.bar_margin,
        bottom: s.bar_margin,
        left: s.bar_margin,
    })
    &&& d.keyboard_interactivity == KeyboardInteractivity::OnDemand
    &&& d.pointer_interactivity
}

/// The bar panel: nothing but its surface; its content is a pure function
/// of the shared state.
#[derive(Debug)]
pub struct KobelBar {
    pub id: SurfaceId,
}

impl KobelBar {
    /// Create the bar panel and its surface-create command.
    pub fn new(state: &KobelShellState, id: SurfaceId) -> (r: (KobelBar, Vec<ShellCommand>))
        requires
            state.wf(),
        ensures
            r.0.id == id,
            r.1@.len() == 1,
            r.1@[0] matches ShellCommand::CreateSurface(i, d) && i == id
                && bar_descriptor_matches(d, *state),
    {
        let descriptor = SurfaceDescriptor {
            namespace: shell_namespace(),
            layer: Layer::Overlay,
            anchor: Anchor::top_span(),
            size: SurfaceSize { width: None, height: Some(state.bar_height as u32) },
            exclusive_zone: state.bar_height + 2 * state.bar_margin,
            margin: Margin::uniform(state.bar_margin),
            keyboard_interactivity: KeyboardInteractivity::OnDemand,
            pointer_interactivity: true,
        };
        let mut commands: Vec<ShellCommand> = Vec::new();
        commands.push(ShellCommand::CreateSurface(id, descriptor));
        (KobelBar { id }, commands)
    }

    /// The bar reacts to no event and issues no protocol traffic.
    pub fn update(&mut self, message: &KobelRootMessage) -> (cmds: Vec<ShellCommand>)
        ensures
            *final(self) == *old(self),
            cmds@ == Seq::<ShellCommand>::empty(),
    {
        let _ = message;
        Vec::new()
    }

    /// The bar always draws its content.
    pub fn view(&self, state: &KobelShellState) -> (r: Renderable)
        ensures
            r == Renderable::Bar,
    {
        let _ = state;
        Renderable::Bar
    }
}

} // verus!
