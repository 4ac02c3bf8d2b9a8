//! The shared runtime state: one structure read by every panel on every tick
//! and written only while the router processes an event.
//!
//! `update` is pure with respect to its inputs: the same prior state and the
//! same event always produce the same new state. It runs exactly once per
//! inbound event, before any panel is notified, and cannot fail.

use vstd::prelude::*;
use crate::fps::{FpsCounter, history_after_sample};
use crate::geometry::{Point, Size};
use crate::keys::{Modifiers, key_set, no_duplicates, press_key, release_key};
use crate::panel::bar::{BAR_DEFAULT_HEIGHT, BAR_DEFAULT_MARGIN};
use crate::panel::dock::{DOCK_DEFAULT_HEIGHT, DOCK_DEFAULT_MARGIN};
use crate::panel::search::{SEARCH_DEFAULT_HEIGHT, SEARCH_DEFAULT_MARGIN_PERCENT};
use crate::KobelRootMessage;

verus! {

/// Upper bound on the layout constants, far above any real panel size but
/// small enough that every derived geometry computation stays in range.
pub const MAX_LAYOUT_PIXELS: i32 = 16384;

/// Shared runtime state. Layout constants are immutable after construction;
/// the dynamic fields are written only through [`KobelShellState::update`]
/// or by the owning panel's message handler.
#[derive(Debug)]
pub struct KobelShellState {
    /// Wall clock of the latest tick, in microseconds; non-decreasing as
    /// long as the host clock is.
    pub now_micros: u64,
    /// Frame-duration history feeding the derived frame rate.
    pub fps: FpsCounter,

    /// Last reported screen size; overwritten on each output event.
    pub screen_size: Size,
    /// Last reported pointer position; overwritten on each pointer event.
    pub pointer_position: Point,

    /// Modifiers reported with the latest keyboard event.
    pub modifiers_pressed: Modifiers,
    /// Currently pressed keys, duplicate-free; press and release keep set
    /// semantics.
    pub keys_pressed: Vec<u32>,

    /// Whether the debug overlay draws its content.
    pub debug_panel_visible: bool,
    /// Whether debug borders are drawn around widgets.
    pub debug_border_style: bool,
    /// Whether the search overlay is visible; owned by the Search panel's
    /// handler.
    pub search_panel_visible: bool,

    /// Name of the wallpaper asset the host resolves and decodes.
    pub shell_wallpaper_name: String,

    pub bar_height: i32,
    pub bar_margin: i32,
    pub dock_height: i32,
    pub dock_margin: i32,
    pub search_height: i32,
    /// Top margin of the search overlay, as a percentage of screen height.
    pub search_margin_percent: u32,
}

/// The two states agree on every immutable layout constant.
pub open spec fn layout_eq(a: KobelShellState, b: KobelShellState) -> bool {
    &&& a.shell_wallpaper_name@ == b.shell_wallpaper_name@
    &&& a.bar_height == b.bar_height
    &&& a.bar_margin == b.bar_margin
    &&& a.dock_height == b.dock_height
    &&& a.dock_margin == b.dock_margin
    &&& a.search_height == b.search_height
    &&& a.search_margin_percent == b.search_margin_percent
}

/// The two states agree on every visibility flag.
pub open spec fn flags_eq(a: KobelShellState, b: KobelShellState) -> bool {
    &&& a.debug_panel_visible == b.debug_panel_visible
    &&& a.debug_border_style == b.debug_border_style
    &&& a.search_panel_visible == b.search_panel_visible
}

/// The two states agree on the clock and the frame history.
pub open spec fn clock_eq(a: KobelShellState, b: KobelShellState) -> bool {
    &&& a.now_micros == b.now_micros
    &&& a.fps@ == b.fps@
}

/// The two states agree on the keyboard fields.
pub open spec fn keyboard_eq(a: KobelShellState, b: KobelShellState) -> bool {
    &&& a.modifiers_pressed == b.modifiers_pressed
    &&& a.keys_pressed@ == b.keys_pressed@
}

/// The two states agree on everything but the keyboard fields.
pub open spec fn non_keyboard_eq(a: KobelShellState, b: KobelShellState) -> bool {
    &&& layout_eq(a, b)
    &&& flags_eq(a, b)
    &&& clock_eq(a, b)
    &&& a.screen_size == b.screen_size
    &&& a.pointer_position == b.pointer_position
}

/// The frame-duration sample derived from two consecutive tick timestamps:
/// their distance in microseconds, `0` under a clock jump backwards,
/// saturated at `u32::MAX`.
pub open spec fn frame_delta(prev: u64, now: u64) -> u32 {
    if now < prev {
        0u32
    } else if now - prev > u32::MAX {
        u32::MAX
    } else {
        (now - prev) as u32
    }
}

impl KobelShellState {
    /// Validity of the state: a bounded frame history, a duplicate-free
    /// pressed-key vector, and layout constants in range.
    pub open spec fn wf(&self) -> bool {
        &&& self.fps.wf()
        &&& no_duplicates(self.keys_pressed@)
        &&& 0 <= self.bar_height <= MAX_LAYOUT_PIXELS
        &&& 0 <= self.bar_margin <= MAX_LAYOUT_PIXELS
        &&& 0 <= self.dock_height <= MAX_LAYOUT_PIXELS
        &&& 0 <= self.dock_margin <= MAX_LAYOUT_PIXELS
        &&& 0 <= self.search_height <= MAX_LAYOUT_PIXELS
        &&& self.search_margin_percent <= 100
    }

    /// The set of currently pressed keys.
    pub open spec fn pressed(&self) -> Set<u32> {
        key_set(self.keys_pressed@)
    }

    /// A fresh state at wall-clock time `now_micros`: empty histories,
    /// everything hidden, and the default layout constants.
    pub fn new(now_micros: u64) -> (s: KobelShellState)
        ensures
            s.wf(),
            s.now_micros == now_micros,
            s.fps@ == Seq::<u32>::empty(),
            s.screen_size == (Size { width: 0, height: 0 }),
            s.pointer_position == (Point { x: 0, y: 0 }),
            s.modifiers_pressed == (Modifiers { shift: false, control: false, alt: false, logo: false }),
            s.keys_pressed@ == Seq::<u32>::empty(),
            !s.debug_panel_visible,
            !s.debug_border_style,
            !s.search_panel_visible,
            s.shell_wallpaper_name@ == "wallpaper_light.jpg"@,
            s.bar_height == BAR_DEFAULT_HEIGHT,
            s.bar_margin == BAR_DEFAULT_MARGIN,
            s.dock_height == DOCK_DEFAULT_HEIGHT,
            s.dock_margin == DOCK_DEFAULT_MARGIN,
            s.search_height == SEARCH_DEFAULT_HEIGHT,
            s.search_margin_percent == SEARCH_DEFAULT_MARGIN_PERCENT,
    {
        let s = KobelShellState {
            now_micros,
            fps: FpsCounter::new(),
            screen_size: Size::zero(),
            pointer_position: Point::origin(),
            modifiers_pressed: Modifiers::released(),
            keys_pressed: Vec::new(),
            debug_panel_visible: false,
            debug_border_style: false,
            search_panel_visible: false,
            shell_wallpaper_name: String::from_str("wallpaper_light.jpg"),
            bar_height: BAR_DEFAULT_HEIGHT,
            bar_margin: BAR_DEFAULT_MARGIN,
            dock_height: DOCK_DEFAULT_HEIGHT,
            dock_margin: DOCK_DEFAULT_MARGIN,
            search_height: SEARCH_DEFAULT_HEIGHT,
            search_margin_percent: SEARCH_DEFAULT_MARGIN_PERCENT,
        };
        proof {
            assert(s.keys_pressed@ =~= Seq::<u32>::empty());
        }
        s
    }

    /// Apply one inbound event to the dynamic fields. On a tick the clock
    /// advances and the distance to the previous tick enters the frame
    /// history; input and output events overwrite their last-known values;
    /// key presses and releases keep set semantics; every other event
    /// leaves the state unchanged. Visibility flags and layout constants
    /// are never touched here.
    pub fn update(&mut self, message: &KobelRootMessage)
        requires
            old(self).wf(),
        ensures
            final(self).wf(),
            layout_eq(*old(self), *final(self)),
            flags_eq(*old(self), *final(self)),
            match *message {
                KobelRootMessage::Tick(t) => {
                    &&& final(self).now_micros == t
                    &&& final(self).fps@ == history_after_sample(
                        old(self).fps@,
                        frame_delta(old(self).now_micros, t),
                    )
                    &&& final(self).screen_size == old(self).screen_size
                    &&& final(self).pointer_position == old(self).pointer_position
                    &&& keyboard_eq(*old(self), *final(self))
                },
                KobelRootMessage::CursorMoved { position } => {
                    &&& final(self).pointer_position == position
                    &&& clock_eq(*old(self), *final(self))
                    &&& final(self).screen_size == old(self).screen_size
                    &&& keyboard_eq(*old(self), *final(self))
                },
                KobelRootMessage::ScreenSizeChanged { size } => {
                    &&& final(self).screen_size == size
                    &&& clock_eq(*old(self), *final(self))
                    &&& final(self).pointer_position == old(self).pointer_position
                    &&& keyboard_eq(*old(self), *final(self))
                },
                KobelRootMessage::KeysPressed { modifiers, keys } => {
                    &&& final(self).pressed() == old(self).pressed().union(key_set(keys@))
                    &&& final(self).modifiers_pressed == modifiers
                    &&& clock_eq(*old(self), *final(self))
                    &&& final(self).screen_size == old(self).screen_size
                    &&& final(self).pointer_position == old(self).pointer_position
                },
                KobelRootMessage::KeysReleased { modifiers, keys } => {
                    &&& final(self).pressed() == old(self).pressed().difference(key_set(keys@))
                    &&& final(self).modifiers_pressed == modifiers
                    &&& clock_eq(*old(self), *final(self))
                    &&& final(self).screen_size == old(self).screen_size
                    &&& final(self).pointer_position == old(self).pointer_position
                },
                _ => {
                    &&& clock_eq(*old(self), *final(self))
                    &&& final(self).screen_size == old(self).screen_size
                    &&& final(self).pointer_position == old(self).pointer_position
                    &&& keyboard_eq(*old(self), *final(self))
                },
            },
    {
        match message {
            KobelRootMessage::Tick(t) => {
                let t = *t;
                let prev = self.now_micros;
                let wide: u64 = if t >= prev {
                    t - prev
                } else {
                    0
                };
                let dt: u32 = if wide > u32::MAX as u64 {
                    u32::MAX
                } else {
                    wide as u32
                };
                self.fps.tick(dt);
                self.now_micros = t;
            },
            KobelRootMessage::CursorMoved { position } => {
                self.pointer_position = *position;
            },
            KobelRootMessage::ScreenSizeChanged { size } => {
                self.screen_size = *size;
            },
            KobelRootMessage::KeysPressed { modifiers, keys } => {
                let ghost s0 = *self;
                let ghost pressed0 = self.pressed();
                let n = keys.len();
                let mut i: usize = 0;
                while i < n
                    invariant
                        n == keys@.len(),
                        i <= n,
                        non_keyboard_eq(s0, *self),
                        self.modifiers_pressed == s0.modifiers_pressed,
                        no_duplicates(self.keys_pressed@),
                        key_set(self.keys_pressed@) == pressed0.union(
                            key_set(keys@.subrange(0, i as int)),
                        ),
                    decreases n - i,
                {
                    let ghost prefix = keys@.subrange(0, i as int);
                    proof {
                        assert(keys@.subrange(0, i + 1).drop_last() =~= prefix);
                    }
                    press_key(&mut self.keys_pressed, keys[i]);
                    proof {
                        assert(pressed0.union(key_set(prefix)).insert(keys@[i as int]) =~= pressed0.union(
                            key_set(keys@.subrange(0, i + 1)),
                        ));
                    }
                    i = i + 1;
                }
                proof {
                    assert(keys@.subrange(0, n as int) =~= keys@);
                }
                self.modifiers_pressed = *modifiers;
            },
            KobelRootMessage::KeysReleased { modifiers, keys } => {
                let ghost s0 = *self;
                let ghost pressed0 = self.pressed();
                let n = keys.len();
                let mut i: usize = 0;
                while i < n
                    invariant
                        n == keys@.len(),
                        i <= n,
                        non_keyboard_eq(s0, *self),
                        self.modifiers_pressed == s0.modifiers_pressed,
                        no_duplicates(self.keys_pressed@),
                        key_set(self.keys_pressed@) == pressed0.difference(
                            key_set(keys@.subrange(0, i as int)),
                        ),
                    decreases n - i,
                {
                    let ghost prefix = keys@.subrange(0, i as int);
                    proof {
                        assert(keys@.subrange(0, i + 1).drop_last() =~= prefix);
                    }
                    release_key(&mut self.keys_pressed, keys[i]);
                    proof {
                        assert(pressed0.difference(key_set(prefix)).remove(keys@[i as int])
                            =~= pressed0.difference(key_set(keys@.subrange(0, i + 1))));
                    }
                    i = i + 1;
                }
                proof {
                    assert(keys@.subrange(0, n as int) =~= keys@);
                }
                self.modifiers_pressed = *modifiers;
            },
            _ => {},
        }
    }
}

} // verus!
