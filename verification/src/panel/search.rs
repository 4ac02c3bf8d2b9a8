//! The search overlay: a surface below the top edge whose geometry and
//! keyboard focus follow its visibility flag.
//!
//! Visibility drives three protocol-visible attributes at once: the width
//! (a quarter of the screen when visible, a one-pixel placeholder when
//! hidden, since several compositors reject zero-sized surfaces), the top
//! margin (a configured share of the screen height when visible), and the
//! keyboard-interactivity mode (exclusive focus only while visible, released
//! on hide so the rest of the shell stays responsive). The three mutations
//! are issued as one batched command set, and a toggle to the current value
//! is a no-op issuing no protocol traffic at all.

use vstd::prelude::*;
use vstd::arithmetic::mul::lemma_mul_upper_bound;
use crate::keys::{KEY_ESCAPE, KEY_SPACE};
use crate::state::KobelShellState;
use crate::surface::{
    Anchor, KeyboardInteractivity, Layer, Margin, Renderable, ShellCommand, SurfaceDescriptor,
    SurfaceId, SurfaceSize, shell_namespace,
};
use crate::KobelRootMessage;
use crate::panel::KobelPanelMessage;

verus! {

/// Default height of the search overlay, in logical pixels.
pub const SEARCH_DEFAULT_HEIGHT: i32 = 48;

/// Default top margin of the search overlay, as a percentage of screen
/// height.
pub const SEARCH_DEFAULT_MARGIN_PERCENT: u32 = 25;

/// Messages addressed to the search overlay.
#[derive(Debug)]
pub enum KobelSearchMessage {
    Toggle,
    QueryUpdated(String),
}

/// Width of the visible search surface: a quarter of the screen width.
pub open spec fn search_visible_width(s: KobelShellState) -> u32 {
    s.screen_size.width / 4
}

/// Top margin of the visible search surface: the configured percentage of
/// the screen height, saturated at the protocol's margin range.
pub open spec fn search_visible_margin(s: KobelShellState) -> i32 {
    let m = (s.screen_size.height as int) * (s.search_margin_percent as int) / 100;
    if m > i32::MAX {
        i32::MAX
    } else {
        m as i32
    }
}

/// The three protocol-visible attributes the visibility toggle mutates.
#[derive(Clone, Copy, Debug, PartialEq, Eq, Structural)]
pub struct SearchGeometry {
    pub width: u32,
    pub height: u32,
    pub margin: Margin,
    pub keyboard: KeyboardInteractivity,
}

/// The geometry the search surface is put into for a visibility value:
/// full width, configured margin and exclusive focus while visible; a
/// one-pixel placeholder without focus while hidden.
pub open spec fn search_geometry(s: KobelShellState, visible: bool) -> SearchGeometry {
    if visible {
        SearchGeometry {
            width: search_visible_width(s),
            height: s.search_height as u32,
            margin: Margin { top: search_visible_margin(s), right: 0, bottom: 0, left: 0 },
            keyboard: KeyboardInteractivity::Exclusive,
        }
    } else {
        SearchGeometry {
            width: 1,
            height: 1,
            margin: Margin { top: 0, right: 0, bottom: 0, left: 0 },
            keyboard: KeyboardInteractivity::NoFocus,
        }
    }
}

/// The batched command set for one visibility value: resize, re-margin and
/// re-arm keyboard interactivity, in this order, as one batch.
pub open spec fn search_bounds_commands(s: KobelShellState, id: SurfaceId, visible: bool) -> Seq<
    ShellCommand,
> {
    let g = search_geometry(s, visible);
    seq![
        ShellCommand::SetSize(id, g.width, g.height),
        ShellCommand::SetMargin(id, g.margin),
        ShellCommand::SetKeyboardInteractivity(id, g.keyboard),
    ]
}

/// The visibility value a message asks the search panel to take, if any:
/// Escape hides it, Control+Space and the Toggle message flip it.
pub open spec fn visibility_request(s: KobelShellState, m: KobelRootMessage) -> Option<bool> {
    match m {
        KobelRootMessage::KeysReleased { modifiers, keys } => {
            if keys@.contains(KEY_ESCAPE) {
                Option::Some(false)
            } else if keys@.contains(KEY_SPACE) && modifiers.control {
                Option::Some(!s.search_panel_visible)
            } else {
                Option::None
            }
        },
        KobelRootMessage::Panel(KobelPanelMessage::Search(KobelSearchMessage::Toggle)) => {
            Option::Some(!s.search_panel_visible)
        },
        _ => Option::None,
    }
}

/// The descriptor the search surface is created with: the top layer,
/// anchored to the top edge, sized and placed from the current screen
/// geometry, reserving no space and initially taking no keyboard focus.
pub open spec fn search_descriptor_matches(d: SurfaceDescriptor, s: KobelShellState) -> bool {
    &&& d.namespace@ == "kobelwm"@
    &&& d.layer == Layer::Top
    &&& d.anchor == (Anchor { top: true, bottom: false, left: false, right: false })
    &&& d.size == (SurfaceSize {
        width: Some(search_visible_width(s)),
        height: Some(s.search_height as u32),
    })
    &&& d.exclusive_zone == -1
    &&& d.margin == (Margin { top: search_visible_margin(s), right: 0, bottom: 0, left: 0 })
    &&& d.keyboard_interactivity == KeyboardInteractivity::NoFocus
    &&& d.pointer_interactivity
}

/// The search panel: its surface and the transient query text.
#[derive(Debug)]
pub struct KobelSearch {
    pub id: SurfaceId,
    pub query: String,
}

/// Compute the visible-state width of the search surface.
fn compute_visible_width(state: &KobelShellState) -> (w: u32)
    ensures
        w == search_visible_width(*state),
{
    state.screen_size.width / 4
}

/// Compute the visible-state top margin of the search surface.
fn compute_visible_margin(state: &KobelShellState) -> (m: i32)
    ensures
        m == search_visible_margin(*state),
{
    proof {
        lemma_mul_upper_bound(
            state.screen_size.height as int,
            u32::MAX as int,
            state.search_margin_percent as int,
            u32::MAX as int,
        );
    }
    let wide = (state.screen_size.height as u64) * (state.search_margin_percent as u64) / 100;
    if wide > i32::MAX as u64 {
        i32::MAX
    } else {
        wide as i32
    }
}

impl KobelSearch {
    /// Create the search panel with an empty query and its surface-create
    /// command.
    pub fn new(state: &KobelShellState, id: SurfaceId) -> (r: (KobelSearch, Vec<ShellCommand>))
        requires
            state.wf(),
        ensures
            r.0.id == id,
            r.0.query@ == Seq::<char>::empty(),
            r.1@.len() == 1,
            r.1@[0] matches ShellCommand::CreateSurface(i, d) && i == id
                && search_descriptor_matches(d, *state),
    {
        let width = compute_visible_width(state);
        let margin = compute_visible_margin(state);
        let descriptor = SurfaceDescriptor {
            namespace: shell_namespace(),
            layer: Layer::Top,
            anchor: Anchor::top_edge(),
            size: SurfaceSize { width: Some(width), height: Some(state.search_height as u32) },
            exclusive_zone: -1,
            margin: Margin { top: margin, right: 0, bottom: 0, left: 0 },
            keyboard_interactivity: KeyboardInteractivity::NoFocus,
            pointer_interactivity: true,
        };
        let mut commands: Vec<ShellCommand> = Vec::new();
        commands.push(ShellCommand::CreateSurface(id, descriptor));
        (KobelSearch { id, query: String::new() }, commands)
    }

    /// The batched command set putting the search surface into the geometry
    /// for `visible`: one resize, one re-margin, one keyboard re-arm.
    pub fn recompute_search_bounds(state: &KobelShellState, id: SurfaceId, visible: bool) -> (cmds:
        Vec<ShellCommand>)
        requires
            state.wf(),
        ensures
            cmds@ == search_bounds_commands(*state, id, visible),
    {
        let g_width: u32;
        let g_height: u32;
        let g_margin: i32;
        let g_keyboard: KeyboardInteractivity;
        if visible {
            g_width = compute_visible_width(state);
            g_height = state.search_height as u32;
            g_margin = compute_visible_margin(state);
            g_keyboard = KeyboardInteractivity::Exclusive;
        } else {
            g_width = 1;
            g_height = 1;
            g_margin = 0;
            g_keyboard = KeyboardInteractivity::NoFocus;
        }
        let mut cmds: Vec<ShellCommand> = Vec::new();
        cmds.push(ShellCommand::SetSize(id, g_width, g_height));
        cmds.push(
            ShellCommand::SetMargin(id, Margin { top: g_margin, right: 0, bottom: 0, left: 0 }),
        );
        cmds.push(ShellCommand::SetKeyboardInteractivity(id, g_keyboard));
        proof {
            assert(cmds@ =~= search_bounds_commands(*state, id, visible));
        }
        cmds
    }

    /// Set the visibility flag and issue the matching geometry batch.
    /// Requesting the value already set is a no-op: no state change and no
    /// protocol traffic.
    pub fn set_visible(&mut self, state: &mut KobelShellState, visible: bool) -> (cmds: Vec<
        ShellCommand,
    >)
        requires
            old(state).wf(),
        ensures
            *final(self) == *old(self),
            final(state).wf(),
            old(state).search_panel_visible == visible ==> {
                &&& *final(state) == *old(state)
                &&& cmds@ == Seq::<ShellCommand>::empty()
            },
            old(state).search_panel_visible != visible ==> {
                &&& *final(state) == (KobelShellState {
                    search_panel_visible: visible,
                    ..*old(state)
                })
                &&& cmds@ == search_bounds_commands(*old(state), old(self).id, visible)
            },
    {
        if self.is_visible(state) == visible {
            return Vec::new();
        }
        state.search_panel_visible = visible;
        Self::recompute_search_bounds(state, self.id, visible)
    }

    /// Whether the search overlay is currently visible.
    pub fn is_visible(&self, state: &KobelShellState) -> (r: bool)
        ensures
            r == state.search_panel_visible,
    {
        state.search_panel_visible
    }

    /// React to one event. Escape on release hides the overlay,
    /// Control+Space and the Toggle message flip it — each through
    /// [`KobelSearch::set_visible`], so a request for the current value
    /// issues nothing. A query update only replaces the transient query
    /// text. Everything else is ignored.
    pub fn update(&mut self, state: &mut KobelShellState, message: &KobelRootMessage) -> (cmds:
        Vec<ShellCommand>)
        requires
            old(state).wf(),
        ensures
            final(state).wf(),
            final(self).id == old(self).id,
            match visibility_request(*old(state), *message) {
                Option::Some(v) => {
                    &&& *final(self) == *old(self)
                    &&& if v == old(state).search_panel_visible {
                        &&& *final(state) == *old(state)
                        &&& cmds@ == Seq::<ShellCommand>::empty()
                    } else {
                        &&& *final(state) == (KobelShellState {
                            search_panel_visible: v,
                            ..*old(state)
                        })
                        &&& cmds@ == search_bounds_commands(*old(state), old(self).id, v)
                    }
                },
                Option::None => {
                    &&& *final(state) == *old(state)
                    &&& cmds@ == Seq::<ShellCommand>::empty()
                    &&& match *message {
                        KobelRootMessage::Panel(KobelPanelMessage::Search(
                            KobelSearchMessage::QueryUpdated(q),
                        )) => final(self).query@ == q@,
                        _ => *final(self) == *old(self),
                    }
                },
            },
    {
        match message {
            KobelRootMessage::KeysReleased { modifiers, keys } => {
                if crate::keys::contains_key(keys, KEY_ESCAPE) {
                    self.set_visible(state, false)
                } else if crate::keys::contains_key(keys, KEY_SPACE) && modifiers.control {
                    let visible = self.is_visible(state);
                    self.set_visible(state, !visible)
                } else {
                    Vec::new()
                }
            },
            KobelRootMessage::Panel(KobelPanelMessage::Search(m)) => match m {
                KobelSearchMessage::Toggle => {
                    let visible = self.is_visible(state);
                    self.set_visible(state, !visible)
                },
                KobelSearchMessage::QueryUpdated(q) => {
                    self.query = q.clone();
                    Vec::new()
                },
            },
            _ => Vec::new(),
        }
    }

    /// What the search panel draws: its query while visible, nothing while
    /// hidden.
    pub fn view(&self, state: &KobelShellState) -> (r: Renderable)
        ensures
            r == if state.search_panel_visible {
                Renderable::Search { query: self.query }
            } else {
                Renderable::Empty
            },
    {
        if state.search_panel_visible {
            Renderable::Search { query: self.query.clone() }
        } else {
            Renderable::Empty
        }
    }
}

/// One visibility batch pins all three protocol-visible attributes: applied
/// to any prior geometry, it lands exactly on the geometry for that
/// visibility value.
pub proof fn lemma_search_batch_sets_geometry(
    s: KobelShellState,
    id: SurfaceId,
    g: SearchGeometry,
    v: bool,
)
    ensures
        apply_search_commands(g, id, search_bounds_commands(s, id, v)) == search_geometry(s, v),
{
    reveal_with_fuel(apply_search_commands, 4);
}

/// Toggling the search visibility twice restores the surface's width,
/// height, top margin and keyboard interactivity to exactly the values they
/// had: from the geometry for a visibility value, applying the batch for
/// the opposite value and then the batch for the original value lands back
/// on that same geometry.
pub proof fn lemma_search_toggle_round_trip(
    s: KobelShellState,
    id: SurfaceId,
    g: SearchGeometry,
    v: bool,
)
    ensures
        apply_search_commands(
            apply_search_commands(
                apply_search_commands(g, id, search_bounds_commands(s, id, v)),
                id,
                search_bounds_commands(s, id, !v),
            ),
            id,
            search_bounds_commands(s, id, v),
        ) == apply_search_commands(g, id, search_bounds_commands(s, id, v)),
{
    reveal_with_fuel(apply_search_commands, 4);
}

/// The search surface's protocol-visible attributes after one command
/// addressed to it; commands for other surfaces leave it untouched.
pub open spec fn apply_search_command(g: SearchGeometry, id: SurfaceId, c: ShellCommand)
    -> SearchGeometry {
    match c {
        ShellCommand::SetSize(i, w, h) => {
            if i == id {
                SearchGeometry { width: w, height: h, ..g }
            } else {
                g
            }
        },
        ShellCommand::SetMargin(i, m) => {
            if i == id {
                SearchGeometry { margin: m, ..g }
            } else {
                g
            }
        },
        ShellCommand::SetKeyboardInteractivity(i, k) => {
            if i == id {
                SearchGeometry { keyboard: k, ..g }
            } else {
                g
            }
        },
        _ => g,
    }
}

/// The search surface's attributes after a batch of commands, applied in
/// order.
pub open spec fn apply_search_commands(g: SearchGeometry, id: SurfaceId, cmds: Seq<ShellCommand>)
    -> SearchGeometry
    decreases cmds.len(),
{
    if cmds.len() == 0 {
        g
    } else {
        apply_search_command(apply_search_commands(g, id, cmds.drop_last()), id, cmds.last())
    }
}

} // verus!
