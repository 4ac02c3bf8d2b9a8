use std::io::Cursor;

use kobel::panel::wallpaper::{
    decode_wallpaper, ImageData, KobelWallpaperMessage, WallpaperError, OPACITY_FULL_MILLI,
};
use kobel::panel::KobelPanelMessage;
use kobel::surface::{Renderable, SurfaceId};
use kobel::{App, KobelRootMessage};

fn loaded(img: ImageData) -> KobelRootMessage {
    KobelRootMessage::Panel(KobelPanelMessage::Wallpaper(
        KobelWallpaperMessage::WallpaperLoaded(img),
    ))
}

fn failed() -> KobelRootMessage {
    KobelRootMessage::Panel(KobelPanelMessage::Wallpaper(KobelWallpaperMessage::WallpaperFailed))
}

fn tiny_image() -> ImageData {
    ImageData { width: 1, height: 1, pixels: vec![1, 2, 3, 255] }
}

#[test]
fn decode_recovers_dimensions_and_pixels_from_png_bytes() {
    // Encode a 2x1 RGBA raster to PNG, then decode it through the library.
    let raster: Vec<u8> = vec![10, 20, 30, 255, 40, 50, 60, 255];
    let buffer = image::RgbaImage::from_raw(2, 1, raster.clone()).unwrap();
    let mut png_bytes: Vec<u8> = Vec::new();
    image::DynamicImage::ImageRgba8(buffer)
        .write_to(&mut Cursor::new(&mut png_bytes), image::ImageFormat::Png)
        .unwrap();

    let decoded = decode_wallpaper(&png_bytes).unwrap();
    assert_eq!(decoded.width, 2);
    assert_eq!(decoded.height, 1);
    assert_eq!(decoded.pixels, raster);
    // The decoder really transformed its input.
    assert_ne!(decoded.pixels, png_bytes);
}

#[test]
fn decode_rejects_malformed_bytes_with_decode_failure() {
    let garbage: Vec<u8> = vec![0, 1, 2, 3, 4, 5, 6, 7];
    assert_eq!(decode_wallpaper(&garbage), Err(WallpaperError::DecodeFailure));
    let empty: Vec<u8> = Vec::new();
    assert_eq!(decode_wallpaper(&empty), Err(WallpaperError::DecodeFailure));
}

#[test]
fn opacity_fades_in_monotonically_and_pins_at_full() {
    let (mut app, _) = App::new(0);
    // The decode resolves at t = 1 s.
    let _ = app.update(KobelRootMessage::Tick(1_000_000));
    let _ = app.update(loaded(tiny_image()));
    assert!(app.wallpaper.wallpaper_handle.is_some());

    let mut last = app.wallpaper.wallpaper_opacity_milli;
    assert_eq!(last, 0);
    for step in 1..=20u64 {
        // 100 ms per tick: the 1.5 s fade completes at step 15.
        let _ = app.update(KobelRootMessage::Tick(1_000_000 + step * 100_000));
        let opacity = app.wallpaper.wallpaper_opacity_milli;
        assert!(opacity >= last);
        last = opacity;
    }
    assert_eq!(last, OPACITY_FULL_MILLI);

    // Exactly at the fade duration the opacity is exactly full.
    let (mut app2, _) = App::new(0);
    let _ = app2.update(KobelRootMessage::Tick(1_000_000));
    let _ = app2.update(loaded(tiny_image()));
    let _ = app2.update(KobelRootMessage::Tick(1_000_000 + 1_500_000));
    assert_eq!(app2.wallpaper.wallpaper_opacity_milli, OPACITY_FULL_MILLI);
    // Halfway through, the linear easing yields exactly half.
    let _ = app2.update(KobelRootMessage::Tick(1_000_000 + 750_000));
    // The clock is non-decreasing in real runs; this synthetic rewind only
    // checks the pure opacity curve.
    assert_eq!(app2.wallpaper.wallpaper_opacity_milli, 500);
}

#[test]
fn decode_failure_leaves_opacity_zero_and_handle_none() {
    let (mut app, _) = App::new(0);
    let _ = app.update(KobelRootMessage::Tick(1_000_000));
    let cmds = app.update(failed());
    assert!(cmds.is_empty());
    assert!(app.wallpaper.wallpaper_handle.is_none());
    assert_eq!(app.wallpaper.wallpaper_opacity_milli, 0);

    // Ticks after the failure still leave the fade untouched.
    let _ = app.update(KobelRootMessage::Tick(2_000_000));
    assert_eq!(app.wallpaper.wallpaper_opacity_milli, 0);
    assert_eq!(
        app.view(SurfaceId(1)),
        Renderable::Wallpaper { has_image: false, opacity_milli: 0 }
    );
}
