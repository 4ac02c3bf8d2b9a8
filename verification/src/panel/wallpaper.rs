//! The wallpaper: a background surface across the whole screen, filled by a
//! decoded image that fades in over a fixed duration.
//!
//! Construction issues the surface-create command and schedules the one
//! asynchronous startup task of the shell: the host resolves the named
//! asset, reads it, decodes it through [`decode_wallpaper`] off the event
//! thread, and posts [`KobelWallpaperMessage::WallpaperLoaded`] or
//! [`KobelWallpaperMessage::WallpaperFailed`] back onto the message stream.

use vstd::prelude::*;
use vstd::arithmetic::div_mod::lemma_div_is_ordered;
use crate::state::KobelShellState;
use crate::surface::{
    Anchor, KeyboardInteractivity, Layer, Margin, Renderable, ShellCommand, SurfaceDescriptor,
    SurfaceId, SurfaceSize, shell_namespace,
};
use crate::KobelRootMessage;
use crate::panel::KobelPanelMessage;

verus! {

/// How long the wallpaper fades in once decoded, in microseconds.
pub const FADE_DURATION_MICROS: u64 = 1_500_000;

/// Full opacity, in thousandths.
pub const OPACITY_FULL_MILLI: u32 = 1000;

/// A decoded RGBA8 raster: four bytes per pixel, row-major.
#[derive(Debug, PartialEq, Eq)]
pub struct ImageData {
    pub width: u32,
    pub height: u32,
    pub pixels: Vec<u8>,
}

impl ImageData {
    /// The buffer holds exactly one four-byte sample per pixel.
    pub open spec fn wf(&self) -> bool {
        self.pixels@.len() == 4 * self.width * self.height
    }
}

/// Why no wallpaper could be produced. A missing asset and a failed decode
/// both degrade to rendering nothing; neither is fatal.
#[derive(Debug, Clone, Copy, PartialEq, Eq, Structural)]
pub enum WallpaperError {
    AssetNotFound,
    DecodeFailure,
}

/// Outcome of the asynchronous wallpaper load, posted back onto the message
/// stream.
#[derive(Debug)]
pub enum KobelWallpaperMessage {
    WallpaperLoaded(ImageData),
    WallpaperFailed,
}

/// What decoding an image byte stream to RGBA8 yields: `None` when the
/// decoder rejects the bytes, otherwise the width, height and raster bytes.
/// Decoding is a pure function of the input bytes, so whether it succeeds
/// and what it produces are both carried by this one name; its value is not
/// spelled out here.
pub uninterp spec fn decoded_rgba(bytes: Seq<u8>) -> Option<(u32, u32, Seq<u8>)>;

/// Declares `image::ImageError`, the error the decoder reports, so that it
/// can cross the trusted boundary; it is opaque here and mapped to
/// [`WallpaperError::DecodeFailure`] right away.
#[verifier::external_type_specification]
#[verifier::external_body]
pub struct ExImageError(image::ImageError);

/// Relies on `image::load_from_memory` guessing the format and decoding the
/// byte stream, and on `DynamicImage::to_rgba8` converting the result to an
/// RGBA8 buffer whose raster holds exactly four bytes per pixel. The outcome
/// depends on the input bytes alone, given that no process-global decoding
/// or format-detection hooks are registered — nothing in this crate or its
/// host registers any.
#[verifier::external_body]
fn decode_rgba(bytes: &Vec<u8>) -> (r: Result<(u32, u32, Vec<u8>), image::ImageError>)
    ensures
        r is Ok <==> decoded_rgba(bytes@) is Some,
        r matches Ok(img) ==> {
            &&& decoded_rgba(bytes@) == Some((img.0, img.1, img.2@))
            &&& img.2@.len() == 4 * img.0 * img.1
        },
{
    match image::load_from_memory(bytes.as_slice()) {
        Ok(decoded) => {
            let rgba = decoded.to_rgba8();
            let (width, height) = rgba.dimensions();
            Ok((width, height, rgba.into_raw()))
        },
        Err(e) => Err(e),
    }
}

/// Decode an image byte stream into a well-formed RGBA8 raster: `Ok` with
/// exactly the decoded width, height and pixels whenever the decoder accepts
/// the bytes, and [`WallpaperError::DecodeFailure`] exactly when it rejects
/// them.
pub fn decode_wallpaper(bytes: &Vec<u8>) -> (r: Result<ImageData, WallpaperError>)
    ensures
        r is Ok <==> decoded_rgba(bytes@) is Some,
        r matches Ok(img) ==> {
            &&& img.wf()
            &&& decoded_rgba(bytes@) == Some((img.width, img.height, img.pixels@))
        },
        r is Err ==> r == Err::<ImageData, WallpaperError>(WallpaperError::DecodeFailure),
{
    match decode_rgba(bytes) {
        Ok((width, height, pixels)) => Ok(ImageData { width, height, pixels }),
        Err(_) => Err(WallpaperError::DecodeFailure),
    }
}

/// The wallpaper's opacity in thousandths at wall-clock time `now`, given
/// the fade started at `start`: the elapsed share of the fade duration,
/// clamped to full opacity, and full once the duration has passed.
pub open spec fn opacity_at(start: u64, now: u64) -> u32 {
    let elapsed = if now >= start {
        now - start
    } else {
        0
    };
    if elapsed >= FADE_DURATION_MICROS {
        OPACITY_FULL_MILLI
    } else {
        ((elapsed * 1000) / (FADE_DURATION_MICROS as int)) as u32
    }
}

/// Opacities are never above full.
pub proof fn lemma_opacity_bounded(start: u64, now: u64)
    ensures
        opacity_at(start, now) <= OPACITY_FULL_MILLI,
{
    let elapsed: int = if now >= start {
        now - start
    } else {
        0
    };
    if elapsed < FADE_DURATION_MICROS {
        lemma_div_is_ordered(elapsed * 1000, 1_499_999_000, FADE_DURATION_MICROS as int);
    }
}

/// After a successful load the wallpaper's opacity is monotonically
/// non-decreasing over ticks, and is exactly full once the elapsed time has
/// reached the fade duration.
pub proof fn lemma_fade_monotone(start: u64, t1: u64, t2: u64)
    requires
        t1 <= t2,
    ensures
        opacity_at(start, t1) <= opacity_at(start, t2),
        opacity_at(start, t2) <= OPACITY_FULL_MILLI,
        t2 >= start && t2 - start >= FADE_DURATION_MICROS ==> opacity_at(start, t2)
            == OPACITY_FULL_MILLI,
{
    lemma_opacity_bounded(start, t1);
    lemma_opacity_bounded(start, t2);
    let e1: int = if t1 >= start {
        t1 - start
    } else {
        0
    };
    let e2: int = if t2 >= start {
        t2 - start
    } else {
        0
    };
    if e1 < FADE_DURATION_MICROS && e2 < FADE_DURATION_MICROS {
        lemma_div_is_ordered(e1 * 1000, e2 * 1000, FADE_DURATION_MICROS as int);
    }
}

/// The descriptor the wallpaper surface is created with: the background
/// layer, anchored to all four edges with compositor-determined size,
/// reserving no space and taking no keyboard focus.
pub open spec fn wallpaper_descriptor_matches(d: SurfaceDescriptor) -> bool {
    &&& d.namespace@ == "kobelwm"@
    &&& d.layer == Layer::Background
    &&& d.anchor == (Anchor { top: true, bottom: true, left: true, right: true })
    &&& d.size == (SurfaceSize { width: None, height: None })
    &&& d.exclusive_zone == -1
    &&& d.margin == (Margin { top: 0, right: 0, bottom: 0, left: 0 })
    &&& d.keyboard_interactivity == KeyboardInteractivity::NoFocus
    &&& d.pointer_interactivity
}

/// Two optional image handles hold the same raster.
pub open spec fn handle_eq(a: Option<ImageData>, b: Option<ImageData>) -> bool {
    match (a, b) {
        (Option::None, Option::None) => true,
        (Option::Some(x), Option::Some(y)) => {
            &&& x.width == y.width
            &&& x.height == y.height
            &&& x.pixels@ == y.pixels@
        },
        _ => false,
    }
}

/// The wallpaper panel: its surface, the decoded image once it arrived, and
/// the fade animation state.
#[derive(Debug)]
pub struct KobelWallpaper {
    pub id: SurfaceId,
    /// Current fade opacity in thousandths; `0` until a decode succeeds.
    pub wallpaper_opacity_milli: u32,
    /// The decoded raster, `None` until a decode succeeds.
    pub wallpaper_handle: Option<ImageData>,
    /// Wall-clock time the fade started, set when the decode result arrived.
    pub wallpaper_fade_start_micros: Option<u64>,
}

impl KobelWallpaper {
    pub open spec fn wf(&self) -> bool {
        self.wallpaper_opacity_milli <= OPACITY_FULL_MILLI
    }

    /// Create the wallpaper panel: one surface-create command and the one
    /// startup task, loading the asset named by the shared state.
    pub fn new(state: &KobelShellState, id: SurfaceId) -> (r: (KobelWallpaper, Vec<ShellCommand>))
        ensures
            r.0.wf(),
            r.0.id == id,
            r.0.wallpaper_opacity_milli == 0,
            r.0.wallpaper_handle is None,
            r.0.wallpaper_fade_start_micros is None,
            r.1@.len() == 2,
            r.1@[0] matches ShellCommand::CreateSurface(i, d) && i == id
                && wallpaper_descriptor_matches(d),
            r.1@[1] matches ShellCommand::LoadWallpaper(name) && name@
                == state.shell_wallpaper_name@,
    {
        let descriptor = SurfaceDescriptor {
            namespace: shell_namespace(),
            layer: Layer::Background,
            anchor: Anchor::all_edges(),
            size: SurfaceSize { width: None, height: None },
            exclusive_zone: -1,
            margin: Margin::zero(),
            keyboard_interactivity: KeyboardInteractivity::NoFocus,
            pointer_interactivity: true,
        };
        let mut commands: Vec<ShellCommand> = Vec::new();
        commands.push(ShellCommand::CreateSurface(id, descriptor));
        commands.push(ShellCommand::LoadWallpaper(state.shell_wallpaper_name.clone()));
        let panel = KobelWallpaper {
            id,
            wallpaper_opacity_milli: 0,
            wallpaper_handle: None,
            wallpaper_fade_start_micros: None,
        };
        (panel, commands)
    }

    /// React to one event. A successful decode stores the raster and starts
    /// the fade at the current clock; a failed decode changes nothing, so
    /// opacity stays `0` and the handle stays `None`. Each tick recomputes
    /// the opacity from the elapsed time once a fade has started. No event
    /// produces protocol traffic.
    pub fn update(&mut self, state: &KobelShellState, message: KobelRootMessage) -> (cmds: Vec<
        ShellCommand,
    >)
        requires
            old(self).wf(),
        ensures
            final(self).wf(),
            final(self).id == old(self).id,
            cmds@ == Seq::<ShellCommand>::empty(),
            match message {
                KobelRootMessage::Panel(KobelPanelMessage::Wallpaper(m)) => match m {
                    KobelWallpaperMessage::WallpaperLoaded(img) => {
                        &&& handle_eq(final(self).wallpaper_handle, Option::Some(img))
                        &&& final(self).wallpaper_fade_start_micros == Some(state.now_micros)
                        &&& final(self).wallpaper_opacity_milli == old(
                            self,
                        ).wallpaper_opacity_milli
                    },
                    KobelWallpaperMessage::WallpaperFailed => {
                        &&& handle_eq(final(self).wallpaper_handle, old(self).wallpaper_handle)
                        &&& final(self).wallpaper_fade_start_micros == old(
                            self,
                        ).wallpaper_fade_start_micros
                        &&& final(self).wallpaper_opacity_milli == old(
                            self,
                        ).wallpaper_opacity_milli
                    },
                },
                KobelRootMessage::Tick(t) => {
                    &&& final(self).wallpaper_opacity_milli == (match old(
                        self,
                    ).wallpaper_fade_start_micros {
                        Option::Some(start) => opacity_at(start, t),
                        Option::None => old(self).wallpaper_opacity_milli,
                    })
                    &&& handle_eq(final(self).wallpaper_handle, old(self).wallpaper_handle)
                    &&& final(self).wallpaper_fade_start_micros == old(
                        self,
                    ).wallpaper_fade_start_micros
                },
                _ => {
                    &&& handle_eq(final(self).wallpaper_handle, old(self).wallpaper_handle)
                    &&& final(self).wallpaper_fade_start_micros == old(
                        self,
                    ).wallpaper_fade_start_micros
                    &&& final(self).wallpaper_opacity_milli == old(self).wallpaper_opacity_milli
                },
            },
    {
        match message {
            KobelRootMessage::Panel(KobelPanelMessage::Wallpaper(m)) => match m {
                KobelWallpaperMessage::WallpaperLoaded(img) => {
                    self.wallpaper_handle = Some(img);
                    self.wallpaper_fade_start_micros = Some(state.now_micros);
                },
                KobelWallpaperMessage::WallpaperFailed => {},
            },
            KobelRootMessage::Tick(t) => {
                if let Some(start) = self.wallpaper_fade_start_micros {
                    let elapsed: u64 = if t >= start {
                        t - start
                    } else {
                        0
                    };
                    if elapsed >= FADE_DURATION_MICROS {
                        self.wallpaper_opacity_milli = OPACITY_FULL_MILLI;
                    } else {
                        proof {
                            lemma_opacity_bounded(start, t);
                        }
                        self.wallpaper_opacity_milli = ((elapsed * 1000) / FADE_DURATION_MICROS)
                            as u32;
                    }
                }
            },
            _ => {},
        }
        Vec::new()
    }

    /// What the wallpaper draws: its raster at the current fade opacity, or
    /// nothing but the background while no image has arrived.
    pub fn view(&self) -> (r: Renderable)
        ensures
            r == (Renderable::Wallpaper {
                has_image: self.wallpaper_handle is Some,
                opacity_milli: self.wallpaper_opacity_milli,
            }),
    {
        Renderable::Wallpaper {
            has_image: self.wallpaper_handle.is_some(),
            opacity_milli: self.wallpaper_opacity_milli,
        }
    }
}

} // verus!
