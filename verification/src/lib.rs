//! Coordination core of a layered desktop shell.
//!
//! Several always-on-screen surfaces (wallpaper, bar, dock, search overlay,
//! debug overlay, context menu) share one runtime state and are driven by one
//! serialized message stream. This crate holds the coordination logic: the
//! shared state machine, the surface descriptors and geometry commands sent to
//! the compositor's layer-placement protocol, each panel's update rules, and
//! the router that dispatches every event to the state and to every panel in
//! a fixed order. Protocol transport, rendering and asset I/O live outside.

use vstd::prelude::*;

pub mod fps;
pub mod geometry;
pub mod keys;
pub mod panel;
pub mod state;
pub mod surface;

verus! {

use crate::fps::history_after_sample;
use crate::geometry::{Point, Rect, Size};
use crate::keys::{Modifiers, key_set};
use crate::panel::KobelPanelMessage;
use crate::panel::bar::{KobelBar, bar_descriptor_matches};
use crate::panel::context_menu::{KobelContextMenu, context_menu_descriptor_matches};
use crate::panel::debug::{KobelDebug, KobelDebugMessage, debug_descriptor_matches};
use crate::panel::dock::{KobelDock, dock_descriptor_matches};
use crate::panel::search::{
    KobelSearch, KobelSearchMessage, search_bounds_commands, search_descriptor_matches,
    visibility_request,
};
use crate::panel::wallpaper::{
    KobelWallpaper, KobelWallpaperMessage, handle_eq, opacity_at, wallpaper_descriptor_matches,
};
use crate::state::{KobelShellState, clock_eq, flags_eq, frame_delta, keyboard_eq, layout_eq};
use crate::surface::{Renderable, ShellCommand, SurfaceId};

/// One inbound event of the serialized message stream: clock ticks, input,
/// output geometry, panel-addressed messages, and coordinator requests.
/// Timestamps are in microseconds of wall-clock time.
#[derive(Debug)]
pub enum KobelRootMessage {
    Tick(u64),
    Noop,
    CursorMoved { position: Point },
    KeysPressed { modifiers: Modifiers, keys: Vec<u32> },
    KeysReleased { modifiers: Modifiers, keys: Vec<u32> },
    ScreenSizeChanged { size: Size },
    Panel(KobelPanelMessage),
    OpenContextMenu { width: u32, height: u32 },
}

/// The surface identifier following `n` in allocation order.
pub open spec fn next_id_value(n: u64) -> u64 {
    if n == u64::MAX {
        0
    } else {
        (n + 1) as u64
    }
}

/// The two wallpaper panels hold the same surface, raster and fade state.
pub open spec fn wallpaper_unchanged(a: KobelWallpaper, b: KobelWallpaper) -> bool {
    &&& b.id == a.id
    &&& b.wallpaper_opacity_milli == a.wallpaper_opacity_milli
    &&& handle_eq(b.wallpaper_handle, a.wallpaper_handle)
    &&& b.wallpaper_fade_start_micros == a.wallpaper_fade_start_micros
}

/// The two routers hold the same context menu (by surface) and allocator
/// position.
pub open spec fn menu_unchanged(a: App, b: App) -> bool {
    &&& match (a.context_menu, b.context_menu) {
        (Option::None, Option::None) => true,
        (Option::Some(x), Option::Some(y)) => x.id == y.id,
        _ => false,
    }
    &&& b.next_surface_id == a.next_surface_id
}

/// Every panel of `b` is the panel of `a`, untouched.
pub open spec fn panels_unchanged(a: App, b: App) -> bool {
    &&& b.bar == a.bar
    &&& b.dock == a.dock
    &&& b.debug == a.debug
    &&& b.search == a.search
    &&& wallpaper_unchanged(a.wallpaper, b.wallpaper)
    &&& menu_unchanged(a, b)
}

/// The dynamic state of `b` is the dynamic state of `a`, untouched (layout
/// constants are immutable anyway).
pub open spec fn state_unchanged(a: KobelShellState, b: KobelShellState) -> bool {
    &&& clock_eq(a, b)
    &&& flags_eq(a, b)
    &&& layout_eq(a, b)
    &&& keyboard_eq(a, b)
    &&& b.screen_size == a.screen_size
    &&& b.pointer_position == a.pointer_position
}

/// The command batch spawning a context menu: tear down the previous menu's
/// surface if one exists, then create the new surface at the press
/// rectangle.
pub open spec fn menu_spawn_matches(
    old_menu: Option<KobelContextMenu>,
    new_id: SurfaceId,
    rect: Rect,
    cmds: Seq<ShellCommand>,
) -> bool {
    match old_menu {
        Option::Some(m) => {
            &&& cmds.len() == 2
            &&& cmds[0] == ShellCommand::DestroySurface(m.id)
            &&& (cmds[1] matches ShellCommand::CreateSurface(i, d) && i == new_id
                && context_menu_descriptor_matches(d, rect))
        },
        Option::None => {
            &&& cmds.len() == 1
            &&& (cmds[0] matches ShellCommand::CreateSurface(i, d) && i == new_id
                && context_menu_descriptor_matches(d, rect))
        },
    }
}

/// The search panel's reaction to a message, as observed at the router: if
/// the message requests a visibility value, the flag follows it, with the
/// geometry batch exactly when the value changes and no traffic otherwise.
pub open spec fn search_reaction_holds(
    a: App,
    b: App,
    message: KobelRootMessage,
    cmds: Seq<ShellCommand>,
) -> bool {
    match visibility_request(a.state, message) {
        Option::Some(v) => {
            if v == a.state.search_panel_visible {
                &&& b.state.search_panel_visible == a.state.search_panel_visible
                &&& cmds == Seq::<ShellCommand>::empty()
            } else {
                &&& b.state.search_panel_visible == v
                &&& cmds == search_bounds_commands(a.state, a.search.id, v)
            }
        },
        Option::None => {
            &&& b.state.search_panel_visible == a.state.search_panel_visible
            &&& cmds == Seq::<ShellCommand>::empty()
        },
    }
}

/// The message router and coordinator: owns the shared state and every
/// panel, dispatches each inbound event to the state first and then to
/// every panel in a fixed order, collects their deferred commands, and
/// performs the coordinator-level reactions (spawning the context menu).
#[derive(Debug)]
pub struct App {
    pub state: KobelShellState,

    pub wallpaper: KobelWallpaper,
    pub bar: KobelBar,
    pub dock: KobelDock,
    pub debug: KobelDebug,
    pub search: KobelSearch,

    pub context_menu: Option<KobelContextMenu>,
    pub next_surface_id: u64,
}

/// What the router renders for a redraw request: the view of the panel
/// owning the surface, or the empty render when no panel owns it.
pub open spec fn view_spec(app: App, id: SurfaceId) -> Renderable {
    if id == app.wallpaper.id {
        Renderable::Wallpaper {
            has_image: app.wallpaper.wallpaper_handle is Some,
            opacity_milli: app.wallpaper.wallpaper_opacity_milli,
        }
    } else if id == app.bar.id {
        Renderable::Bar
    } else if id == app.dock.id {
        Renderable::Dock
    } else if id == app.debug.id {
        if app.state.debug_panel_visible {
            Renderable::Debug
        } else {
            Renderable::Empty
        }
    } else if id == app.search.id {
        if app.state.search_panel_visible {
            Renderable::Search { query: app.search.query }
        } else {
            Renderable::Empty
        }
    } else {
        match app.context_menu {
            Option::Some(m) => {
                if m.id == id {
                    Renderable::ContextMenu
                } else {
                    Renderable::Empty
                }
            },
            Option::None => Renderable::Empty,
        }
    }
}

/// Whether some panel currently owns the surface identifier.
pub open spec fn is_registered(app: App, id: SurfaceId) -> bool {
    ||| id == app.wallpaper.id
    ||| id == app.bar.id
    ||| id == app.dock.id
    ||| id == app.debug.id
    ||| id == app.search.id
    ||| (app.context_menu matches Option::Some(m) && m.id == id)
}

impl App {
    pub open spec fn wf(&self) -> bool {
        &&& self.state.wf()
        &&& self.wallpaper.wf()
    }

    /// Build the shell at wall-clock time `now_micros`: a fresh shared
    /// state and the five permanent panels, each with its surface-create
    /// command, plus the wallpaper's one startup load task. Surfaces are
    /// created for the wallpaper, bar, dock, debug overlay and search
    /// overlay, in this order.
    pub fn new(now_micros: u64) -> (r: (App, Vec<ShellCommand>))
        ensures
            r.0.wf(),
            r.0.state.now_micros == now_micros,
            r.0.state.fps@ == Seq::<u32>::empty(),
            r.0.state.keys_pressed@ == Seq::<u32>::empty(),
            !r.0.state.debug_panel_visible,
            !r.0.state.search_panel_visible,
            r.0.wallpaper.id == SurfaceId(1),
            r.0.wallpaper.wallpaper_opacity_milli == 0,
            r.0.wallpaper.wallpaper_handle is None,
            r.0.wallpaper.wallpaper_fade_start_micros is None,
            r.0.bar.id == SurfaceId(2),
            r.0.dock.id == SurfaceId(3),
            r.0.debug.id == SurfaceId(4),
            r.0.search.id == SurfaceId(5),
            r.0.search.query@ == Seq::<char>::empty(),
            r.0.context_menu is None,
            r.0.next_surface_id == 6,
            r.1@.len() == 6,
            r.1@[0] matches ShellCommand::CreateSurface(i, d) && i == SurfaceId(1)
                && wallpaper_descriptor_matches(d),
            r.1@[1] matches ShellCommand::LoadWallpaper(name) && name@
                == r.0.state.shell_wallpaper_name@,
            r.1@[2] matches ShellCommand::CreateSurface(i, d) && i == SurfaceId(2)
                && bar_descriptor_matches(d, r.0.state),
            r.1@[3] matches ShellCommand::CreateSurface(i, d) && i == SurfaceId(3)
                && dock_descriptor_matches(d, r.0.state),
            r.1@[4] matches ShellCommand::CreateSurface(i, d) && i == SurfaceId(4)
                && debug_descriptor_matches(d),
            r.1@[5] matches ShellCommand::CreateSurface(i, d) && i == SurfaceId(5)
                && search_descriptor_matches(d, r.0.state),
    {
        let state = KobelShellState::new(now_micros);

        let (wallpaper, mut wallpaper_cmds) = KobelWallpaper::new(&state, SurfaceId(1));
        let (bar, mut bar_cmds) = KobelBar::new(&state, SurfaceId(2));
        let (dock, mut dock_cmds) = KobelDock::new(&state, SurfaceId(3));
        let (debug, mut debug_cmds) = KobelDebug::new(&state, SurfaceId(4));
        let (search, mut search_cmds) = KobelSearch::new(&state, SurfaceId(5));

        let mut commands: Vec<ShellCommand> = Vec::new();
        commands.append(&mut wallpaper_cmds);
        commands.append(&mut bar_cmds);
        commands.append(&mut dock_cmds);
        commands.append(&mut debug_cmds);
        commands.append(&mut search_cmds);

        let app = App {
            state,
            wallpaper,
            bar,
            dock,
            debug,
            search,
            context_menu: None,
            next_surface_id: 6,
        };
        (app, commands)
    }

    /// The window title every surface of the shell reports.
    pub fn title(&self, id: SurfaceId) -> (r: String)
        ensures
            r@ == "kobelwm"@,
    {
        let _ = id;
        String::from_str("kobelwm")
    }

    /// Process one inbound event: the shared state first, then every panel
    /// in a fixed order, then the coordinator-level reaction. The returned
    /// batch holds every deferred command the panels and the coordinator
    /// decided, in dispatch order; for all but a search visibility change
    /// and a context-menu request it is empty.
    pub fn update(&mut self, message: KobelRootMessage) -> (cmds: Vec<ShellCommand>)
        requires
            old(self).wf(),
        ensures
            final(self).wf(),
            layout_eq(old(self).state, final(self).state),
            final(self).bar == old(self).bar,
            final(self).dock == old(self).dock,
            final(self).debug == old(self).debug,
            final(self).search.id == old(self).search.id,
            final(self).wallpaper.id == old(self).wallpaper.id,
            match message {
                KobelRootMessage::Tick(t) => {
                    &&& final(self).state.now_micros == t
                    &&& final(self).state.fps@ == history_after_sample(
                        old(self).state.fps@,
                        frame_delta(old(self).state.now_micros, t),
                    )
                    &&& final(self).state.screen_size == old(self).state.screen_size
                    &&& final(self).state.pointer_position == old(self).state.pointer_position
                    &&& keyboard_eq(old(self).state, final(self).state)
                    &&& flags_eq(old(self).state, final(self).state)
                    &&& final(self).wallpaper.wallpaper_opacity_milli == (match old(
                        self,
                    ).wallpaper.wallpaper_fade_start_micros {
                        Option::Some(start) => opacity_at(start, t),
                        Option::None => old(self).wallpaper.wallpaper_opacity_milli,
                    })
                    &&& handle_eq(
                        final(self).wallpaper.wallpaper_handle,
                        old(self).wallpaper.wallpaper_handle,
                    )
                    &&& final(self).wallpaper.wallpaper_fade_start_micros == old(
                        self,
                    ).wallpaper.wallpaper_fade_start_micros
                    &&& final(self).search == old(self).search
                    &&& menu_unchanged(*old(self), *final(self))
                    &&& cmds@ == Seq::<ShellCommand>::empty()
                },
                KobelRootMessage::CursorMoved { position } => {
                    &&& final(self).state.pointer_position == position
                    &&& clock_eq(old(self).state, final(self).state)
                    &&& final(self).state.screen_size == old(self).state.screen_size
                    &&& keyboard_eq(old(self).state, final(self).state)
                    &&& flags_eq(old(self).state, final(self).state)
                    &&& panels_unchanged(*old(self), *final(self))
                    &&& cmds@ == Seq::<ShellCommand>::empty()
                },
                KobelRootMessage::ScreenSizeChanged { size } => {
                    &&& final(self).state.screen_size == size
                    &&& clock_eq(old(self).state, final(self).state)
                    &&& final(self).state.pointer_position == old(self).state.pointer_position
                    &&& keyboard_eq(old(self).state, final(self).state)
                    &&& flags_eq(old(self).state, final(self).state)
                    &&& panels_unchanged(*old(self), *final(self))
                    &&& cmds@ == Seq::<ShellCommand>::empty()
                },
                KobelRootMessage::KeysPressed { modifiers, keys } => {
                    &&& final(self).state.pressed() == old(self).state.pressed().union(
                        key_set(keys@),
                    )
                    &&& final(self).state.modifiers_pressed == modifiers
                    &&& clock_eq(old(self).state, final(self).state)
                    &&& final(self).state.screen_size == old(self).state.screen_size
                    &&& final(self).state.pointer_position == old(self).state.pointer_position
                    &&& flags_eq(old(self).state, final(self).state)
                    &&& panels_unchanged(*old(self), *final(self))
                    &&& cmds@ == Seq::<ShellCommand>::empty()
                },
                KobelRootMessage::KeysReleased { modifiers, keys } => {
                    &&& final(self).state.pressed() == old(self).state.pressed().difference(
                        key_set(keys@),
                    )
                    &&& final(self).state.modifiers_pressed == modifiers
                    &&& clock_eq(old(self).state, final(self).state)
                    &&& final(self).state.screen_size == old(self).state.screen_size
                    &&& final(self).state.pointer_position == old(self).state.pointer_position
                    &&& final(self).state.debug_panel_visible == old(
                        self,
                    ).state.debug_panel_visible
                    &&& final(self).state.debug_border_style == old(self).state.debug_border_style
                    &&& search_reaction_holds(*old(self), *final(self), message, cmds@)
                    &&& final(self).search == old(self).search
                    &&& wallpaper_unchanged(old(self).wallpaper, final(self).wallpaper)
                    &&& menu_unchanged(*old(self), *final(self))
                },
                KobelRootMessage::Panel(pm) => match pm {
                    KobelPanelMessage::Wallpaper(wm) => {
                        &&& state_unchanged(old(self).state, final(self).state)
                        &&& (match wm {
                            KobelWallpaperMessage::WallpaperLoaded(img) => {
                                &&& handle_eq(
                                    final(self).wallpaper.wallpaper_handle,
                                    Option::Some(img),
                                )
                                &&& final(self).wallpaper.wallpaper_fade_start_micros == Some(
                                    old(self).state.now_micros,
                                )
                                &&& final(self).wallpaper.wallpaper_opacity_milli == old(
                                    self,
                                ).wallpaper.wallpaper_opacity_milli
                            },
                            KobelWallpaperMessage::WallpaperFailed => wallpaper_unchanged(
                                old(self).wallpaper,
                                final(self).wallpaper,
                            ),
                        })
                        &&& final(self).search == old(self).search
                        &&& menu_unchanged(*old(self), *final(self))
                        &&& cmds@ == Seq::<ShellCommand>::empty()
                    },
                    KobelPanelMessage::Debug(dm) => {
                        &&& clock_eq(old(self).state, final(self).state)
                        &&& keyboard_eq(old(self).state, final(self).state)
                        &&& final(self).state.screen_size == old(self).state.screen_size
                        &&& final(self).state.pointer_position == old(self).state.pointer_position
                        &&& final(self).state.search_panel_visible == old(
                            self,
                        ).state.search_panel_visible
                        &&& (match dm {
                            KobelDebugMessage::Toggle => {
                                &&& final(self).state.debug_panel_visible == !old(
                                    self,
                                ).state.debug_panel_visible
                                &&& final(self).state.debug_border_style == old(
                                    self,
                                ).state.debug_border_style
                            },
                            KobelDebugMessage::DebugBorderStyleToggled(enabled) => {
                                &&& final(self).state.debug_border_style == enabled
                                &&& final(self).state.debug_panel_visible == old(
                                    self,
                                ).state.debug_panel_visible
                            },
                        })
                        &&& panels_unchanged(*old(self), *final(self))
                        &&& cmds@ == Seq::<ShellCommand>::empty()
                    },
                    KobelPanelMessage::Search(sm) => match sm {
                        KobelSearchMessage::Toggle => {
                            &&& clock_eq(old(self).state, final(self).state)
                            &&& keyboard_eq(old(self).state, final(self).state)
                            &&& final(self).state.screen_size == old(self).state.screen_size
                            &&& final(self).state.pointer_position == old(
                                self,
                            ).state.pointer_position
                            &&& final(self).state.debug_panel_visible == old(
                                self,
                            ).state.debug_panel_visible
                            &&& final(self).state.debug_border_style == old(
                                self,
                            ).state.debug_border_style
                            &&& search_reaction_holds(*old(self), *final(self), message, cmds@)
                            &&& final(self).search == old(self).search
                            &&& wallpaper_unchanged(old(self).wallpaper, final(self).wallpaper)
                            &&& menu_unchanged(*old(self), *final(self))
                        },
                        KobelSearchMessage::QueryUpdated(q) => {
                            &&& state_unchanged(old(self).state, final(self).state)
                            &&& final(self).search.query@ == q@
                            &&& final(self).search.id == old(self).search.id
                            &&& wallpaper_unchanged(old(self).wallpaper, final(self).wallpaper)
                            &&& menu_unchanged(*old(self), *final(self))
                            &&& cmds@ == Seq::<ShellCommand>::empty()
                        },
                    },
                    _ => {
                        &&& state_unchanged(old(self).state, final(self).state)
                        &&& panels_unchanged(*old(self), *final(self))
                        &&& cmds@ == Seq::<ShellCommand>::empty()
                    },
                },
                KobelRootMessage::OpenContextMenu { width, height } => {
                    &&& state_unchanged(old(self).state, final(self).state)
                    &&& final(self).search == old(self).search
                    &&& wallpaper_unchanged(old(self).wallpaper, final(self).wallpaper)
                    &&& (final(self).context_menu matches Option::Some(m) && m.id == SurfaceId(
                        old(self).next_surface_id,
                    ))
                    &&& final(self).next_surface_id == next_id_value(old(self).next_surface_id)
                    &&& menu_spawn_matches(
                        old(self).context_menu,
                        SurfaceId(old(self).next_surface_id),
                        Rect {
                            x: old(self).state.pointer_position.x,
                            y: old(self).state.pointer_position.y,
                            width,
                            height,
                        },
                        cmds@,
                    )
                },
                KobelRootMessage::Noop => {
                    &&& state_unchanged(old(self).state, final(self).state)
                    &&& panels_unchanged(*old(self), *final(self))
                    &&& cmds@ == Seq::<ShellCommand>::empty()
                },
            },
    {
        let open_request: Option<(u32, u32)> = match &message {
            KobelRootMessage::OpenContextMenu { width, height } => Some((*width, *height)),
            _ => None,
        };

        self.state.update(&message);

        let mut out = self.bar.update(&message);
        let mut dock_cmds = self.dock.update(&message);
        let mut debug_cmds = self.debug.update(&mut self.state, &message);
        let mut search_cmds = self.search.update(&mut self.state, &message);
        let mut menu_cmds = match &mut self.context_menu {
            Some(menu) => menu.update(&message),
            None => Vec::new(),
        };
        let mut wallpaper_cmds = self.wallpaper.update(&self.state, message);

        out.append(&mut dock_cmds);
        out.append(&mut debug_cmds);
        out.append(&mut search_cmds);
        out.append(&mut menu_cmds);
        out.append(&mut wallpaper_cmds);

        if let Some((width, height)) = open_request {
            let rect = Rect {
                x: self.state.pointer_position.x,
                y: self.state.pointer_position.y,
                width,
                height,
            };
            if let Some(previous) = &self.context_menu {
                out.push(ShellCommand::DestroySurface(previous.id));
            }
            let id = SurfaceId(self.next_surface_id);
            self.next_surface_id = if self.next_surface_id == u64::MAX {
                0
            } else {
                self.next_surface_id + 1
            };
            let (menu, mut create_cmds) = KobelContextMenu::new(&self.state, rect, id);
            self.context_menu = Some(menu);
            out.append(&mut create_cmds);
        }

        out
    }

    /// Answer a redraw request: the owning panel's view, or the designated
    /// empty render — never a failure — when no panel owns the identifier.
    pub fn view(&self, id: SurfaceId) -> (r: Renderable)
        ensures
            r == view_spec(*self, id),
            !is_registered(*self, id) ==> r == Renderable::Empty,
    {
        if id == self.wallpaper.id {
            self.wallpaper.view()
        } else if id == self.bar.id {
            self.bar.view(&self.state)
        } else if id == self.dock.id {
            self.dock.view(&self.state)
        } else if id == self.debug.id {
            self.debug.view(&self.state)
        } else if id == self.search.id {
            self.search.view(&self.state)
        } else {
            match &self.context_menu {
                Some(menu) => {
                    if menu.id == id {
                        menu.view()
                    } else {
                        Renderable::Empty
                    }
                },
                None => Renderable::Empty,
            }
        }
    }
}

} // verus!
