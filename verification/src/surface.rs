//! The interface to the compositor's layer-placement protocol, as data.
//!
//! A panel never talks to the compositor directly: creating a surface or
//! mutating its geometry is expressed as a [`ShellCommand`] value returned
//! from an update, so the router can sequence and batch protocol traffic.
//! The host event loop performs the commands; this crate only decides them.

use vstd::prelude::*;

verus! {

/// Opaque identifier routing redraw requests to the panel that owns the
/// surface.
#[derive(Clone, Copy, Debug, PartialEq, Eq, Structural, Hash)]
pub struct SurfaceId(pub u64);

/// Stacking layer a surface is placed on.
#[derive(Clone, Copy, Debug, PartialEq, Eq, Structural)]
pub enum Layer {
    Background,
    Bottom,
    Top,
    Overlay,
}

/// The screen edges a surface is anchored to.
#[derive(Clone, Copy, Debug, PartialEq, Eq, Structural)]
pub struct Anchor {
    pub top: bool,
    pub bottom: bool,
    pub left: bool,
    pub right: bool,
}

impl Anchor {
    pub fn top_edge() -> (a: Anchor)
        ensures
            a == (Anchor { top: true, bottom: false, left: false, right: false }),
    {
        Anchor { top: true, bottom: false, left: false, right: false }
    }

    pub fn top_span() -> (a: Anchor)
        ensures
            a == (Anchor { top: true, bottom: false, left: true, right: true }),
    {
        Anchor { top: true, bottom: false, left: true, right: true }
    }

    pub fn bottom_span() -> (a: Anchor)
        ensures
            a == (Anchor { top: false, bottom: true, left: true, right: true }),
    {
        Anchor { top: false, bottom: true, left: true, right: true }
    }

    pub fn top_left() -> (a: Anchor)
        ensures
            a == (Anchor { top: true, bottom: false, left: true, right: false }),
    {
        Anchor { top: true, bottom: false, left: true, right: false }
    }

    pub fn top_right() -> (a: Anchor)
        ensures
            a == (Anchor { top: true, bottom: false, left: false, right: true }),
    {
        Anchor { top: true, bottom: false, left: false, right: true }
    }

    pub fn all_edges() -> (a: Anchor)
        ensures
            a == (Anchor { top: true, bottom: true, left: true, right: true }),
    {
        Anchor { top: true, bottom: true, left: true, right: true }
    }
}

/// Four-sided margin between a surface and its anchored edges, in logical
/// pixels.
#[derive(Clone, Copy, Debug, PartialEq, Eq, Structural)]
pub struct Margin {
    pub top: i32,
    pub right: i32,
    pub bottom: i32,
    pub left: i32,
}

impl Margin {
    pub fn zero() -> (m: Margin)
        ensures
            m == (Margin { top: 0, right: 0, bottom: 0, left: 0 }),
    {
        Margin { top: 0, right: 0, bottom: 0, left: 0 }
    }

    pub fn uniform(v: i32) -> (m: Margin)
        ensures
            m == (Margin { top: v, right: v, bottom: v, left: v }),
    {
        Margin { top: v, right: v, bottom: v, left: v }
    }
}

/// Whether a surface can take keyboard focus: never, on demand, or grabbing
/// focus away from every other surface.
#[derive(Clone, Copy, Debug, PartialEq, Eq, Structural)]
pub enum KeyboardInteractivity {
    NoFocus,
    OnDemand,
    Exclusive,
}

/// Requested surface extent; a `None` axis is compositor-determined.
#[derive(Clone, Copy, Debug, PartialEq, Eq, Structural)]
pub struct SurfaceSize {
    pub width: Option<u32>,
    pub height: Option<u32>,
}

/// Declarative description of a layer surface, fixed at panel construction
/// (the Search panel later mutates size, margin and keyboard interactivity
/// through geometry commands).
///
/// A `None` size axis means "compositor-determined"; an exclusive zone of
/// `-1` reserves no screen space.
#[derive(Clone, Debug, PartialEq, Eq)]
pub struct SurfaceDescriptor {
    pub namespace: String,
    pub layer: Layer,
    pub anchor: Anchor,
    pub size: SurfaceSize,
    pub exclusive_zone: i32,
    pub margin: Margin,
    pub keyboard_interactivity: KeyboardInteractivity,
    pub pointer_interactivity: bool,
}

/// A deferred protocol command decided by a panel or by the router.
///
/// `LoadWallpaper` is the one asynchronous startup task: the host resolves
/// the named asset, decodes it off the event thread and posts the outcome
/// back onto the message stream.
#[derive(Clone, Debug, PartialEq, Eq)]
pub enum ShellCommand {
    CreateSurface(SurfaceId, SurfaceDescriptor),
    DestroySurface(SurfaceId),
    SetSize(SurfaceId, u32, u32),
    SetMargin(SurfaceId, Margin),
    SetKeyboardInteractivity(SurfaceId, KeyboardInteractivity),
    LoadWallpaper(String),
}

/// What a panel draws for one redraw request. A hidden panel answers
/// `Empty` so its surface keeps existing but draws empty; the router
/// answers `Empty` for an identifier no panel owns.
#[derive(Clone, Debug, PartialEq, Eq)]
pub enum Renderable {
    Empty,
    Wallpaper { has_image: bool, opacity_milli: u32 },
    Bar,
    Dock,
    Debug,
    Search { query: String },
    ContextMenu,
}

/// The namespace every surface of this shell registers under.
pub fn shell_namespace() -> (s: String)
    ensures
        s@ == "kobelwm"@,
{
    String::from_str("kobelwm")
}

} // verus!
