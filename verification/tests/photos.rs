use vrchat_photo_manager::paths::{FsPath, PathComponent};
use vrchat_photo_manager::photos::{
    cache_dir, configured_folder_targets, extension, index_file, is_photo, normalize_steam_folder,
    owner_from_path, prune_missing_local_photos, reconcile_local_under_root, scan_entry,
    screenshot_folder, steam_screenshot_folders, thumbnail_file, thumbnail_stem, userdata_folder, watch_configured_folder,
    watch_event_action, is_photo_extension_text, EntryAction, FolderScan, LocalRow, PhotoLink, WatchAction,
    WatchEventKind, WatchRegistry,
};

fn path(text: &str) -> FsPath {
    let mut components = Vec::new();
    if text.starts_with('/') {
        components.push(PathComponent::RootDir);
    }
    for part in text.split('/').filter(|p| !p.is_empty()) {
        components.push(match part {
            "." => PathComponent::CurDir,
            ".." => PathComponent::ParentDir,
            name => PathComponent::Normal(name.to_string()),
        });
    }
    FsPath { components }
}

#[test]
fn recognizes_supported_extensions_case_insensitively() {
    assert!(is_photo(&path("photo.PNG")));
    assert!(is_photo(&path("photo.webp")));
    assert!(!is_photo(&path("photo.txt")));
}

#[test]
fn extension_follows_the_last_dot_of_the_name() {
    assert_eq!(extension(&path("a/b.tar.JPG")), Some("JPG".to_string()));
    assert_eq!(extension(&path("a/.png")), None);
    assert_eq!(extension(&path("a/photo")), None);
    assert_eq!(extension(&path("a/photo.")), Some(String::new()));
    assert_eq!(extension(&path("/")), None);
    assert!(is_photo(&path("x/y.JpEg")));
    assert!(!is_photo(&path("x/.jpg")));
    assert!(!is_photo(&path("x/photo.png/..")));
}

#[test]
fn photos_in_usr_folders_belong_to_that_user() {
    assert_eq!(
        owner_from_path(&path("/pics/usr_abc/shot.png")),
        Some("usr_abc".to_string())
    );
    assert_eq!(owner_from_path(&path("/pics/other/shot.png")), None);
    assert_eq!(owner_from_path(&path("shot.png")), None);
    assert_eq!(owner_from_path(&path("/")), None);
}

#[test]
fn normalizes_deep_steam_paths_to_install_root() {
    let root = path("/tmp/steam");
    let deep = path("/tmp/steam/userdata/111/760/remote/438100");
    assert_eq!(normalize_steam_folder(&root, true), root);
    assert_eq!(normalize_steam_folder(&path("/tmp/steam/userdata"), false), root);
    assert_eq!(normalize_steam_folder(&deep, false), root);
    assert_eq!(normalize_steam_folder(&path("/tmp/photos"), false), path("/tmp/photos"));
}

#[test]
fn finds_the_userdata_folder() {
    assert_eq!(
        userdata_folder(&path("/s/userdata"), false),
        Some(path("/s/userdata"))
    );
    assert_eq!(userdata_folder(&path("/s"), true), Some(path("/s/userdata")));
    assert_eq!(
        userdata_folder(&path("/s/userdata/1/760"), false),
        Some(path("/s/userdata"))
    );
    assert_eq!(userdata_folder(&path("/s"), false), None);
}

#[test]
fn screenshot_folder_of_a_steam_user() {
    assert_eq!(
        screenshot_folder(&path("/s/userdata/111")),
        path("/s/userdata/111/760/remote/438100/screenshots")
    );
}

#[test]
fn screenshot_folders_are_scanned_without_subfolders() {
    let steam = vec![path("/a/screenshots"), path("/b/screenshots")];
    let targets = configured_folder_targets(&path("/s"), "screenshot", &steam);
    assert_eq!(targets.len(), 2);
    assert!(targets.iter().all(|t| !t.recursive && t.kind == "screenshot"));
    assert_eq!(targets[1].path, path("/b/screenshots"));
    let album = configured_folder_targets(&path("/pics"), "album", &steam);
    assert_eq!(album.len(), 1);
    assert!(album[0].recursive);
    assert_eq!(album[0].path, path("/pics"));
}

#[test]
fn a_folder_is_watched_once() {
    let mut registry = WatchRegistry::new();
    let steam = vec![path("/a"), path("/b"), path("/a")];
    let first = watch_configured_folder(&mut registry, &path("/s"), "screenshot", &steam);
    assert_eq!(first.len(), 2);
    let second = watch_configured_folder(&mut registry, &path("/s"), "screenshot", &steam);
    assert!(second.is_empty());
    assert!(registry.contains(&path("/b")));
    assert!(!registry.contains(&path("/s")));
    let album = watch_configured_folder(&mut registry, &path("/a"), "album", &Vec::new());
    assert!(album.is_empty());
}

#[test]
fn scan_descends_only_when_recursive() {
    assert!(matches!(scan_entry(&path("/s/thumbnails"), true, false), EntryAction::Skip));
    assert!(matches!(scan_entry(&path("/s/sub"), true, true), EntryAction::Descend));
    assert!(matches!(scan_entry(&path("/s/a.png"), false, false), EntryAction::Index));
    assert!(matches!(scan_entry(&path("/s/a.txt"), false, true), EntryAction::Skip));
}

#[test]
fn stale_rows_under_the_root_are_dropped() {
    let root = path("/s/screenshots");
    let rows = vec![
        LocalRow { id: 1, path: path("/s/screenshots/keep.png"), local_path: "/s/screenshots/keep.png".into() },
        LocalRow {
            id: 2,
            path: path("/s/screenshots/thumbnails/old.png"),
            local_path: "/s/screenshots/thumbnails/old.png".into(),
        },
        LocalRow { id: 3, path: path("/s/screenshots/missing.png"), local_path: "/s/screenshots/missing.png".into() },
        LocalRow { id: 4, path: path("/elsewhere/x.png"), local_path: "/elsewhere/x.png".into() },
    ];
    let seen = vec!["/s/screenshots/keep.png".to_string()];
    assert_eq!(reconcile_local_under_root(&rows, &root, &seen), vec![2, 3]);
    assert_eq!(prune_missing_local_photos(&vec![(1, true), (4, false), (7, false)]), vec![4, 7]);
}

#[test]
fn thumbnails_are_named_after_the_photo_path() {
    assert_eq!(thumbnail_stem("C:\\Pics/a:b.png"), "C__Pics_a_b.png");
    let cache = cache_dir(Some(path("/data")));
    assert_eq!(cache, path("/data/vrchat-photo-manager/thumbnails"));
    assert_eq!(cache_dir(None), FsPath {
        components: vec![
            PathComponent::CurDir,
            PathComponent::Normal("vrchat-photo-manager".into()),
            PathComponent::Normal("thumbnails".into()),
        ],
    });
    let thumb = thumbnail_file(&cache, "/p/usr_1/a.png");
    assert_eq!(thumb, path("/data/vrchat-photo-manager/thumbnails/_p_usr_1_a.png.jpg"));
}

#[test]
fn indexing_fills_owner_and_name() {
    let record = index_file(
        &path("/p/usr_1/a.png"),
        "/p/usr_1/a.png".into(),
        "album".into(),
        Some("t.jpg".into()),
        None,
        false,
    );
    assert_eq!(record.user_id, Some("usr_1".to_string()));
    assert_eq!(record.file_name, "a.png");
    assert_eq!(record.link, None);
    let nameless = index_file(&path("/"), "/".into(), "album".into(), None, None, true);
    assert_eq!(nameless.file_name, "photo");
    assert_eq!(nameless.user_id, None);
    assert_eq!(nameless.link, None);
}

#[test]
fn photo_in_a_known_players_folder_is_linked_to_that_player() {
    let record = index_file(&path("/p/usr_1/a.png"), "/p/usr_1/a.png".into(), "album".into(), None, None, true);
    assert_eq!(
        record.link,
        Some(PhotoLink { user_id: "usr_1".into(), source: "folder".into(), confirmed: true })
    );
    let outside = index_file(&path("/p/other/a.png"), "/p/other/a.png".into(), "album".into(), None, None, true);
    assert_eq!(outside.user_id, None);
    assert_eq!(outside.link, None);
}

#[test]
fn users_without_a_screenshot_folder_are_skipped_and_none_repeats() {
    let configured = path("/s");
    let users = vec![
        (path("/s/userdata/1"), true, true),
        (path("/s/userdata/file.txt"), false, false),
        (path("/s/userdata/2"), true, false),
        (path("/s/userdata/3"), true, true),
    ];
    assert_eq!(
        steam_screenshot_folders(&configured, true, Some(users)),
        vec![
            path("/s/userdata/1/760/remote/438100/screenshots"),
            path("/s/userdata/3/760/remote/438100/screenshots"),
        ]
    );
    assert!(steam_screenshot_folders(&configured, true, Some(Vec::new())).is_empty());
}

#[test]
fn photo_extensions_compare_lower_cased() {
    assert!(is_photo(&path("/p/photo.PNG")));
    assert!(is_photo(&path("/p/photo.JpEg")));
    assert!(!is_photo(&path("/p/photo.GIF")));
    assert!(is_photo_extension_text("webp"));
    assert!(!is_photo_extension_text("WEBP"));
    assert!(!is_photo_extension_text(""));
}

#[test]
fn watcher_indexes_photos_and_forgets_removed_paths() {
    let photo = path("/p/a.png");
    assert!(matches!(watch_event_action(&WatchEventKind::Create, &photo, true), WatchAction::Index));
    assert!(matches!(watch_event_action(&WatchEventKind::Modify, &photo, false), WatchAction::Ignore));
    assert!(matches!(
        watch_event_action(&WatchEventKind::Create, &path("/p/a.txt"), true),
        WatchAction::Ignore
    ));
    assert!(matches!(watch_event_action(&WatchEventKind::Remove, &photo, false), WatchAction::Delete));
    assert!(matches!(watch_event_action(&WatchEventKind::Other, &photo, true), WatchAction::Ignore));
}

#[test]
fn discovers_vrchat_screenshots_for_every_steam_user() {
    let configured = normalize_steam_folder(&path("/tmp/r/userdata"), false);
    assert_eq!(configured, path("/tmp/r"));
    let userdata = userdata_folder(&configured, true).unwrap();
    let users: Vec<(FsPath, bool, bool)> = ["111", "222"]
        .iter()
        .map(|user| {
            let dir = path(&format!("/tmp/r/userdata/{user}"));
            assert_eq!(dir.components[..4], userdata.components[..]);
            (dir, true, true)
        })
        .collect();
    let folders = steam_screenshot_folders(&configured, true, Some(users));
    assert_eq!(folders.len(), 2);
    assert_eq!(folders[0], path("/tmp/r/userdata/111/760/remote/438100/screenshots"));
    assert_eq!(folders[1], path("/tmp/r/userdata/222/760/remote/438100/screenshots"));
}

#[test]
fn discovers_vrchat_screenshots_from_steam_root() {
    let root = path("/tmp/r");
    let configured = normalize_steam_folder(&root, true);
    let userdata = userdata_folder(&configured, true).unwrap();
    let screenshots = path("/tmp/r/userdata/111/760/remote/438100/screenshots");
    let users = vec![
        (path("/tmp/r/userdata/111"), true, true),
        (path("/tmp/r/userdata/222"), true, false),
    ];
    assert_eq!(userdata, path("/tmp/r/userdata"));
    assert_eq!(screenshot_folder(&path("/tmp/r/userdata/111")), screenshots);
    assert_eq!(steam_screenshot_folders(&configured, true, Some(users)), vec![screenshots]);
}

#[test]
fn without_userdata_the_folder_itself_is_used() {
    let plain = path("/shots");
    assert_eq!(userdata_folder(&plain, false), None);
    assert_eq!(steam_screenshot_folders(&plain, true, None), vec![path("/shots")]);
    assert!(steam_screenshot_folders(&plain, false, None).is_empty());
}

#[test]
fn non_recursive_scan_skips_thumbnail_subfolders() {
    let root = path("/s/userdata/111/760/remote/438100/screenshots");
    let mut walk = FolderScan::new(path("/s/userdata/111/760/remote/438100/screenshots"), false);
    assert_eq!(walk.next_folder(), Some(path("/s/userdata/111/760/remote/438100/screenshots")));
    let thumbnails = path("/s/userdata/111/760/remote/438100/screenshots/thumbnails");
    assert!(matches!(walk.visit(thumbnails, true), EntryAction::Skip));
    assert!(matches!(
        walk.visit(path("/s/userdata/111/760/remote/438100/screenshots/shot.png"), false),
        EntryAction::Index
    ));
    assert_eq!(walk.next_folder(), None);
}

#[test]
fn recursive_scan_lists_sub_folders_last_found_first() {
    let mut walk = FolderScan::new(path("/a"), true);
    assert_eq!(walk.next_folder(), Some(path("/a")));
    assert!(matches!(walk.visit(path("/a/x"), true), EntryAction::Descend));
    assert!(matches!(walk.visit(path("/a/y"), true), EntryAction::Descend));
    assert_eq!(walk.next_folder(), Some(path("/a/y")));
    assert_eq!(walk.next_folder(), Some(path("/a/x")));
    assert_eq!(walk.next_folder(), None);
}
