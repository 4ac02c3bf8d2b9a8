use kobel::geometry::{Point, Size};
use kobel::keys::{Modifiers, KEY_ESCAPE, KEY_SPACE};
use kobel::panel::search::{KobelSearch, KobelSearchMessage};
use kobel::panel::KobelPanelMessage;
use kobel::surface::{KeyboardInteractivity, Margin, Renderable, ShellCommand, SurfaceId};
use kobel::{App, KobelRootMessage};

fn released() -> Modifiers {
    Modifiers { shift: false, control: false, alt: false, logo: false }
}

fn toggle_search() -> KobelRootMessage {
    KobelRootMessage::Panel(KobelPanelMessage::Search(KobelSearchMessage::Toggle))
}

fn set_screen(app: &mut App, width: u32, height: u32) {
    let cmds = app.update(KobelRootMessage::ScreenSizeChanged {
        size: Size { width, height },
    });
    assert!(cmds.is_empty());
}

#[test]
fn startup_creates_five_surfaces_and_one_load_task() {
    let (app, cmds) = App::new(0);
    assert_eq!(cmds.len(), 6);
    assert!(matches!(cmds[0], ShellCommand::CreateSurface(SurfaceId(1), _)));
    assert!(matches!(cmds[1], ShellCommand::LoadWallpaper(_)));
    assert!(matches!(cmds[2], ShellCommand::CreateSurface(SurfaceId(2), _)));
    assert!(matches!(cmds[3], ShellCommand::CreateSurface(SurfaceId(3), _)));
    assert!(matches!(cmds[4], ShellCommand::CreateSurface(SurfaceId(4), _)));
    assert!(matches!(cmds[5], ShellCommand::CreateSurface(SurfaceId(5), _)));
    if let ShellCommand::LoadWallpaper(name) = &cmds[1] {
        assert_eq!(name, "wallpaper_light.jpg");
    }
    assert_eq!(app.title(SurfaceId(1)), "kobelwm");
}

#[test]
fn search_toggle_issues_one_batched_geometry_set() {
    let (mut app, _) = App::new(0);
    set_screen(&mut app, 2560, 1440);

    let cmds = app.update(toggle_search());
    assert!(app.state.search_panel_visible);
    assert_eq!(
        cmds,
        vec![
            ShellCommand::SetSize(SurfaceId(5), 640, 48),
            ShellCommand::SetMargin(
                SurfaceId(5),
                Margin { top: 360, right: 0, bottom: 0, left: 0 }
            ),
            ShellCommand::SetKeyboardInteractivity(
                SurfaceId(5),
                KeyboardInteractivity::Exclusive
            ),
        ]
    );
}

#[test]
fn search_toggle_twice_restores_geometry_and_interactivity() {
    let (mut app, _) = App::new(0);
    set_screen(&mut app, 2560, 1440);

    let hidden_batch = vec![
        ShellCommand::SetSize(SurfaceId(5), 1, 1),
        ShellCommand::SetMargin(SurfaceId(5), Margin { top: 0, right: 0, bottom: 0, left: 0 }),
        ShellCommand::SetKeyboardInteractivity(SurfaceId(5), KeyboardInteractivity::NoFocus),
    ];

    let shown = app.update(toggle_search());
    assert!(app.state.search_panel_visible);
    let hidden = app.update(toggle_search());
    assert!(!app.state.search_panel_visible);

    // The second toggle re-issues exactly the hidden-state width, margin and
    // keyboard interactivity, so all three protocol-visible attributes are
    // back to their original values.
    assert_eq!(hidden, hidden_batch);
    assert_ne!(shown, hidden);

    // And a full on-off-on cycle lands on the same visible geometry again.
    let shown_again = app.update(toggle_search());
    assert_eq!(shown, shown_again);
}

#[test]
fn search_visibility_request_for_current_value_is_a_noop() {
    let (mut app, _) = App::new(0);
    set_screen(&mut app, 1920, 1080);

    // Hidden, and Escape requests hidden: zero geometry-mutation commands.
    assert!(!app.state.search_panel_visible);
    let cmds = app.update(KobelRootMessage::KeysReleased {
        modifiers: released(),
        keys: vec![KEY_ESCAPE],
    });
    assert!(cmds.is_empty());
    assert!(!app.state.search_panel_visible);
}

#[test]
fn control_space_toggles_and_escape_hides() {
    let (mut app, _) = App::new(0);
    set_screen(&mut app, 1920, 1080);
    let ctrl = Modifiers { shift: false, control: true, alt: false, logo: false };

    let cmds = app.update(KobelRootMessage::KeysReleased {
        modifiers: ctrl,
        keys: vec![KEY_SPACE],
    });
    assert!(app.state.search_panel_visible);
    assert_eq!(cmds.len(), 3);

    // Space without control is not a toggle.
    let cmds = app.update(KobelRootMessage::KeysReleased {
        modifiers: released(),
        keys: vec![KEY_SPACE],
    });
    assert!(app.state.search_panel_visible);
    assert!(cmds.is_empty());

    let cmds = app.update(KobelRootMessage::KeysReleased {
        modifiers: released(),
        keys: vec![KEY_ESCAPE],
    });
    assert!(!app.state.search_panel_visible);
    assert_eq!(cmds.len(), 3);
}

#[test]
fn search_query_updates_render_and_issue_nothing() {
    let (mut app, _) = App::new(0);
    let cmds = app.update(KobelRootMessage::Panel(KobelPanelMessage::Search(
        KobelSearchMessage::QueryUpdated(String::from("files")),
    )));
    assert!(cmds.is_empty());
    assert_eq!(app.search.query, "files");

    // Hidden: the search surface draws nothing despite the query.
    assert_eq!(app.view(SurfaceId(5)), Renderable::Empty);
    let _ = app.update(toggle_search());
    assert_eq!(app.view(SurfaceId(5)), Renderable::Search { query: String::from("files") });
}

#[test]
fn unknown_surface_id_renders_empty_without_error() {
    let (app, _) = App::new(0);
    assert_eq!(app.view(SurfaceId(99)), Renderable::Empty);
    assert_eq!(app.view(SurfaceId(0)), Renderable::Empty);
    // Registered surfaces still render.
    assert_eq!(app.view(SurfaceId(2)), Renderable::Bar);
    assert_eq!(app.view(SurfaceId(3)), Renderable::Dock);
}

#[test]
fn debug_overlay_follows_its_visibility_flag() {
    let (mut app, _) = App::new(0);
    assert_eq!(app.view(SurfaceId(4)), Renderable::Empty);

    let cmds = app.update(KobelRootMessage::Panel(KobelPanelMessage::Debug(
        kobel::panel::debug::KobelDebugMessage::Toggle,
    )));
    assert!(cmds.is_empty());
    assert!(app.state.debug_panel_visible);
    assert_eq!(app.view(SurfaceId(4)), Renderable::Debug);

    let _ = app.update(KobelRootMessage::Panel(KobelPanelMessage::Debug(
        kobel::panel::debug::KobelDebugMessage::DebugBorderStyleToggled(true),
    )));
    assert!(app.state.debug_border_style);
}

#[test]
fn context_menu_spawns_at_press_point_and_replaces_previous() {
    let (mut app, _) = App::new(0);
    let _ = app.update(KobelRootMessage::CursorMoved { position: Point { x: 300, y: 200 } });

    let cmds = app.update(KobelRootMessage::OpenContextMenu { width: 250, height: 187 });
    assert_eq!(cmds.len(), 1);
    match &cmds[0] {
        ShellCommand::CreateSurface(SurfaceId(6), d) => {
            assert_eq!(d.size.width, Some(250));
            assert_eq!(d.size.height, Some(187));
            assert_eq!(d.margin.top, 200);
            assert_eq!(d.margin.left, 300);
            assert_eq!(d.keyboard_interactivity, KeyboardInteractivity::OnDemand);
            assert_eq!(d.exclusive_zone, -1);
        },
        other => panic!("expected a surface-create command, got {:?}", other),
    }
    assert_eq!(app.view(SurfaceId(6)), Renderable::ContextMenu);

    // A second request tears the first menu down before creating the next.
    let cmds = app.update(KobelRootMessage::OpenContextMenu { width: 100, height: 80 });
    assert_eq!(cmds.len(), 2);
    assert_eq!(cmds[0], ShellCommand::DestroySurface(SurfaceId(6)));
    assert!(matches!(cmds[1], ShellCommand::CreateSurface(SurfaceId(7), _)));
    assert_eq!(app.view(SurfaceId(6)), Renderable::Empty);
    assert_eq!(app.view(SurfaceId(7)), Renderable::ContextMenu);
}

#[test]
fn search_margin_saturates_on_extreme_screen_height() {
    let mut state = kobel::state::KobelShellState::new(0);
    state.screen_size = Size { width: 4, height: u32::MAX };
    state.search_margin_percent = 100;
    let cmds = KobelSearch::recompute_search_bounds(&state, SurfaceId(5), true);
    assert_eq!(
        cmds[1],
        ShellCommand::SetMargin(
            SurfaceId(5),
            Margin { top: i32::MAX, right: 0, bottom: 0, left: 0 }
        )
    );
    // An unsaturated configuration computes the exact fraction.
    state.search_margin_percent = 25;
    state.screen_size = Size { width: 4, height: 1000 };
    let cmds = KobelSearch::recompute_search_bounds(&state, SurfaceId(5), true);
    assert_eq!(cmds[0], ShellCommand::SetSize(SurfaceId(5), 1, 48));
    assert_eq!(
        cmds[1],
        ShellCommand::SetMargin(SurfaceId(5), Margin { top: 250, right: 0, bottom: 0, left: 0 })
    );
}
