//! The panels of the shell and the panel-addressed message space.

use vstd::prelude::*;

pub mod bar;
pub mod dock;
pub mod wallpaper;
pub mod debug;
pub mod context_menu;
pub mod search;

verus! {

/// A message addressed to one panel; every panel still sees every message
/// and ignores the ones that are not for it.
#[derive(Debug)]
pub enum KobelPanelMessage {
    Bar(bar::KobelBarMessage),
    Dock(dock::KobelDockMessage),
    Wallpaper(wallpaper::KobelWallpaperMessage),
    Debug(debug::KobelDebugMessage),
    ContextMenu(context_menu::KobelContextMenuMessage),
    Search(search::KobelSearchMessage),
}

} // verus!
