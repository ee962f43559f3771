use music_player::db::{migration_plan, track_columns, MigrationPlan, SCHEMA_VERSION};
use music_player::desktop::{
    startup_scope, ScopeGrant,
    media_key_event, should_hide_on_close, tray_action, tray_menu, MediaEvent, MediaKey, TrayAction,
    TrayMenuEntry,
};
use music_player::models::Playlist;

#[test]
fn tray_items_map_to_actions() {
    assert_eq!(tray_action("play-pause"), TrayAction::Emit(MediaEvent::PlayPause));
    assert_eq!(tray_action("next"), TrayAction::Emit(MediaEvent::Next));
    assert_eq!(tray_action("prev"), TrayAction::Emit(MediaEvent::Previous));
    assert_eq!(tray_action("show"), TrayAction::ShowWindow);
    assert_eq!(tray_action("quit"), TrayAction::Quit);
    assert_eq!(tray_action("Quit"), TrayAction::Ignore);
    assert_eq!(tray_action(""), TrayAction::Ignore);
}

#[test]
fn tray_menu_layout() {
    let menu = tray_menu();
    assert_eq!(menu.len(), 7);
    assert_eq!(menu[0], TrayMenuEntry::Item { id: "play-pause", label: "Play / Pause" });
    assert_eq!(menu[3], TrayMenuEntry::Separator);
    assert_eq!(menu[6], TrayMenuEntry::Item { id: "quit", label: "Quit" });
    for entry in menu {
        if let TrayMenuEntry::Item { id, .. } = entry {
            assert_ne!(tray_action(id), TrayAction::Ignore);
        }
    }
}

#[test]
fn event_names() {
    assert_eq!(MediaEvent::PlayPause.name(), "media:play-pause");
    assert_eq!(MediaEvent::Next.name(), "media:next");
    assert_eq!(MediaEvent::Previous.name(), "media:prev");
}

#[test]
fn media_keys_send_events_when_pressed() {
    assert_eq!(media_key_event(MediaKey::PlayPause, true), Some(MediaEvent::PlayPause));
    assert_eq!(media_key_event(MediaKey::Next, true), Some(MediaEvent::Next));
    assert_eq!(media_key_event(MediaKey::Previous, true), Some(MediaEvent::Previous));
    assert_eq!(media_key_event(MediaKey::Next, false), None);
    assert_eq!(MediaKey::PlayPause.shortcut_name(), "MediaPlayPause");
    assert_eq!(MediaKey::Next.shortcut_name(), "MediaTrackNext");
    assert_eq!(MediaKey::Previous.shortcut_name(), "MediaTrackPrevious");
}

#[test]
fn tray_and_keys_agree() {
    assert_eq!(
        tray_action("next"),
        TrayAction::Emit(media_key_event(MediaKey::Next, true).unwrap())
    );
}

#[test]
fn close_to_tray_decision() {
    assert!(should_hide_on_close(None, true));
    assert!(should_hide_on_close(Some(true), true));
    assert!(!should_hide_on_close(Some(false), true));
    assert!(!should_hide_on_close(None, false));
    assert!(!should_hide_on_close(Some(true), false));
}

#[test]
fn fresh_database_gets_the_schema_once() {
    let first = migration_plan(0);
    assert_eq!(
        first,
        MigrationPlan { apply_initial_schema: true, new_user_version: Some(SCHEMA_VERSION) }
    );
    let again = migration_plan(first.new_user_version.unwrap());
    assert_eq!(again, MigrationPlan { apply_initial_schema: false, new_user_version: None });
    assert!(migration_plan(-2).apply_initial_schema);
    assert!(!migration_plan(7).apply_initial_schema);
}

#[test]
fn track_column_lists() {
    assert_eq!(
        track_columns(""),
        "id, path, title, artist, album, duration_secs, track_no, cover_path"
    );
    assert_eq!(
        track_columns("t."),
        "t.id, t.path, t.title, t.artist, t.album, t.duration_secs, t.track_no, t.cover_path"
    );
}

#[test]
fn created_playlist_is_empty() {
    let p = Playlist::created(4, "Road trip".to_string());
    assert_eq!(p, Playlist { id: 4, name: "Road trip".to_string(), track_count: 0 });
}

#[test]
fn startup_scope_regrants_folders_and_covers() {
    let folders = vec!["/music".to_string(), "/more music".to_string()];
    let grants = startup_scope(&folders, "/data/covers".to_string());
    assert_eq!(
        grants,
        vec![
            ScopeGrant { dir: "/music".to_string(), recursive: true },
            ScopeGrant { dir: "/more music".to_string(), recursive: true },
            ScopeGrant { dir: "/data/covers".to_string(), recursive: false },
        ]
    );
    assert_eq!(startup_scope(&Vec::new(), "c".to_string()).len(), 1);
}
