use playlist_tui::action::Action;
use playlist_tui::app::{App, Effect};
use playlist_tui::keys::{Binding, Key, KeyCode};
use playlist_tui::manager::{is_archive_extension, is_archive_suffix, DirEntry, Manager};
use playlist_tui::mode::Mode;
use playlist_tui::process::{
    spawn_failed, start_line, unzip_plan, zip_plan, OperationKind, OutputStream, StreamEvent,
};
use playlist_tui::spotify::{DownloadRequest, PlaylistEntry, Spotify};
use playlist_tui::text::{join, strip_spaces};

fn key(code: KeyCode) -> Key {
    Key::plain(code)
}

fn list_bindings() -> Vec<Binding> {
    let mut b = Vec::new();
    for mode in [Mode::Downloader, Mode::Manager] {
        b.push(Binding { mode, keys: vec![key(KeyCode::Down)], action: Action::MoveDown });
        b.push(Binding { mode, keys: vec![key(KeyCode::Up)], action: Action::MoveUp });
    }
    b
}

fn playlists(n: usize) -> Vec<PlaylistEntry> {
    (0..n)
        .map(|i| PlaylistEntry { id: format!("4x5Yq{}", i), name: format!("My Mix {}", i) })
        .collect()
}

/// Sends every key action through the dispatcher, as the loop does.
fn press(app: &mut App, code: KeyCode) -> Vec<(Action, Option<Effect>)> {
    let actions = app.handle_key(key(code));
    actions
        .into_iter()
        .map(|a| {
            let e = app.dispatch(&a);
            (a, e)
        })
        .collect()
}

fn app_with(n: usize) -> App {
    let mut app = App::new(playlists(n), String::new(), list_bindings());
    app.dispatch(&Action::SelectFolder("/music".to_string()));
    app
}

#[test]
fn select_third_playlist() {
    let mut app = app_with(3);
    assert_eq!(app.mode, Mode::Home);
    app.dispatch(&Action::EnterDownloader);
    assert_eq!(app.mode, Mode::Downloader);
    assert_eq!(app.home.index, 0);
    press(&mut app, KeyCode::Down);
    press(&mut app, KeyCode::Down);
    assert_eq!((app.home.index, app.home.offset), (2, 0));
    let out = press(&mut app, KeyCode::Enter);
    assert_eq!(out.len(), 1);
    assert_eq!(out[0].0, Action::SelectPlaylist(2));
    assert_eq!(app.mode, Mode::Downloading);
    match &out[0].1 {
        Some(Effect::Fetch(q)) => {
            assert_eq!(q.url, "https://open.spotify.com/playlist/4x5Yq2");
            assert_eq!(q.target, "/music/MyMix2");
        }
        other => panic!("unexpected effect {:?}", other),
    }
}

#[test]
fn streamed_output_then_waiting() {
    let mut app = app_with(3);
    app.dispatch(&Action::EnterDownloader);
    press(&mut app, KeyCode::Down);
    press(&mut app, KeyCode::Down);
    press(&mut app, KeyCode::Enter);
    assert_eq!(app.mode, Mode::Downloading);

    let mut stream = OutputStream::new(OperationKind::Download);
    let mut bus = vec![stream.start()];
    bus.extend(stream.step(StreamEvent::Line("Fetching…".to_string())));
    bus.extend(stream.step(StreamEvent::Line("Done".to_string())));
    bus.extend(stream.step(StreamEvent::Closed));
    bus.extend(stream.step(StreamEvent::Closed));
    assert_eq!(
        bus,
        vec![
            Action::Downloading("Download started...".to_string()),
            Action::Downloading("Fetching…".to_string()),
            Action::Downloading("Done".to_string()),
            Action::Downloading("Download finished!".to_string()),
            Action::DownloadFinished,
        ]
    );
    for a in &bus {
        app.dispatch(a);
    }
    assert_eq!(app.mode, Mode::Waiting);
    assert_eq!(app.download.output.len(), 4);
    assert_eq!(app.download.output[1], "Fetching…");

    press(&mut app, KeyCode::Enter);
    assert_eq!(app.mode, Mode::Home);
    assert!(app.download.output.is_empty());
}

#[test]
fn read_error_ends_output_early() {
    let mut stream = OutputStream::new(OperationKind::Sync);
    let mut bus = stream.step(StreamEvent::Line("a".to_string()));
    bus.extend(stream.step(StreamEvent::ReadError));
    bus.extend(stream.step(StreamEvent::Line("late".to_string())));
    assert_eq!(
        bus,
        vec![
            Action::Downloading("a".to_string()),
            Action::Downloading("Syncing finished!".to_string()),
            Action::DownloadFinished,
        ]
    );
    assert!(stream.finished);
}

#[test]
fn typed_folder_is_selected() {
    let mut app = App::new(playlists(1), String::new(), list_bindings());
    assert_eq!(app.mode, Mode::Input);
    for c in ['m', 'u', 's', 'i', 'c'] {
        assert!(press(&mut app, KeyCode::Char(c)).is_empty());
    }
    let out = press(&mut app, KeyCode::Enter);
    assert_eq!(out.len(), 1);
    assert_eq!(out[0].0, Action::SelectFolder("music".to_string()));
    assert_eq!(app.mode, Mode::Home);
    assert_eq!(app.home.key_input, "");
    assert_eq!(app.manager.dir, "music");
    assert_eq!(app.spotify.dir, "music");
}

#[test]
fn resize_keeps_cursor_visible() {
    let mut app = app_with(10);
    app.dispatch(&Action::EnterDownloader);
    for _ in 0..7 {
        app.dispatch(&Action::MoveDown);
    }
    assert_eq!(app.home.index, 7);
    let e = app.dispatch(&Action::Resize(80, 24));
    assert!(matches!(e, Some(Effect::Resize(80, 24))));
    let h = &app.home;
    assert_eq!(h.viewport, 20);
    assert_eq!(h.index, 7);
    assert!(h.offset <= h.index && h.index <= h.offset + h.viewport - 1);
    app.dispatch(&Action::Resize(80, 6));
    let h = &app.home;
    assert_eq!((h.viewport, h.offset), (2, 6));
}

#[test]
fn back_home_twice_from_home_changes_nothing() {
    let mut app = app_with(2);
    app.dispatch(&Action::Downloading("stray".to_string()));
    app.dispatch(&Action::MoveDown);
    app.dispatch(&Action::BackHome);
    assert_eq!(app.mode, Mode::Home);
    assert!(app.download.output.is_empty());
    assert_eq!(app.home.index, 1);
    app.dispatch(&Action::BackHome);
    assert_eq!(app.mode, Mode::Home);
    assert!(app.download.output.is_empty());
    assert_eq!(app.home.index, 1);
}

#[test]
fn mode_changes_need_their_source_screen() {
    let mut app = app_with(2);
    app.dispatch(&Action::DownloadFinished);
    assert_eq!(app.mode, Mode::Home);
    assert!(app.dispatch(&Action::SelectPlaylist(0)).is_none());
    assert_eq!(app.mode, Mode::Home);
    app.dispatch(&Action::EnterDownloader);
    assert!(app.dispatch(&Action::SelectPlaylist(5)).is_none());
    assert_eq!(app.mode, Mode::Downloader);
    app.dispatch(&Action::EnterEditing);
    assert_eq!(app.mode, Mode::Input);
    app.dispatch(&Action::QuitEditing);
    assert_eq!(app.mode, Mode::Downloader);
}

#[test]
fn lifecycle_flags() {
    let mut app = app_with(0);
    app.dispatch(&Action::Suspend);
    assert!(app.should_suspend);
    app.dispatch(&Action::Resume);
    assert!(!app.should_suspend);
    assert!(matches!(app.dispatch(&Action::Render), Some(Effect::Draw)));
    app.handle_key(key(KeyCode::Char('z')));
    app.dispatch(&Action::Tick);
    assert!(app.keys.buffer.is_empty());
    app.dispatch(&Action::Quit);
    assert!(app.should_quit);
}

#[test]
fn manager_lists_folders_and_archives() {
    let mut app = app_with(0);
    let e = app.dispatch(&Action::EnterManager);
    assert_eq!(app.mode, Mode::Manager);
    match e {
        Some(Effect::ScanDir(d)) => assert_eq!(d, "/music"),
        other => panic!("unexpected effect {:?}", other),
    }
    let scan = vec![
        DirEntry { name: "Rock".to_string(), is_dir: true, extension: None },
        DirEntry { name: "notes.txt".to_string(), is_dir: false, extension: Some("txt".to_string()) },
        DirEntry { name: "Jazz.ZIP".to_string(), is_dir: false, extension: Some("ZIP".to_string()) },
        DirEntry { name: "README".to_string(), is_dir: false, extension: None },
        DirEntry { name: "old.7z".to_string(), is_dir: false, extension: Some("7z".to_string()) },
    ];
    let found = app.manager.scan_dir(&scan);
    assert_eq!(
        found,
        Action::GetDirs(vec!["Rock".to_string(), "Jazz.ZIP".to_string(), "old.7z".to_string()])
    );
    app.dispatch(&found);
    assert_eq!(app.home.display_list_len, 3);
    app.dispatch(&Action::MoveDown);
    let e = app.dispatch(&Action::SelectActivePlaylist(app.home.index));
    assert_eq!(app.mode, Mode::Downloading);
    match e {
        Some(Effect::Run(op)) => {
            assert_eq!(op.kind, OperationKind::Unzip);
            assert_eq!(op.command.program, "unzip");
            assert_eq!(op.command.args, vec!["Jazz.ZIP"]);
            assert_eq!(op.command.dir, "/music");
            let c = op.cleanup.expect("cleanup");
            assert_eq!(c.program, "rm");
            assert_eq!(c.args, vec!["Jazz.ZIP"]);
        }
        other => panic!("unexpected effect {:?}", other),
    }
}

#[test]
fn manager_packs_folders() {
    let mut m = Manager::new();
    m.update(&Action::SelectFolder("/m".to_string()));
    m.scan_dir(&vec![DirEntry { name: "Rock".to_string(), is_dir: true, extension: None }]);
    let op = m.select_playlist(0).expect("entry");
    assert_eq!(op.kind, OperationKind::Zip);
    assert_eq!(op.command.args, vec!["-rm", "Rock.zip", "Rock"]);
    assert_eq!(op.command.dir, "/m");
    assert!(op.cleanup.is_none());
    assert!(m.select_playlist(1).is_none());
}

#[test]
fn archive_extensions() {
    assert!(is_archive_extension("ZiP"));
    assert!(is_archive_extension("TAR"));
    assert!(!is_archive_extension("mp3"));
    assert!(is_archive_suffix("rar"));
    assert!(!is_archive_suffix("RAR"));
}

#[test]
fn plans_and_messages() {
    let z = zip_plan("/d", "a b");
    assert_eq!(z.command.args, vec!["-rm", "a b.zip", "a b"]);
    let u = unzip_plan("/d", "x.zip");
    assert_eq!(u.command.args, vec!["x.zip"]);
    assert_eq!(start_line(OperationKind::Unzip), "Unzipping playlist");
    assert_eq!(
        spawn_failed(OperationKind::Zip, "not found"),
        vec![
            Action::Downloading("Failed to zip playlist: not found".to_string()),
            Action::Error("Failed to zip playlist: not found".to_string()),
        ]
    );
}

#[test]
fn download_request_picks_sync_or_download() {
    let q = DownloadRequest { url: "https://u".to_string(), target: "/m/Mix".to_string() };
    let s = q.operation(true);
    assert_eq!(s.kind, OperationKind::Sync);
    assert_eq!(s.command.program, "spotdl");
    assert_eq!(s.command.args, vec!["sync", "save.spotdl"]);
    assert_eq!(s.command.dir, "/m/Mix");
    let d = q.operation(false);
    assert_eq!(d.kind, OperationKind::Download);
    assert_eq!(
        d.command.args,
        vec!["sync", "https://u", "--save-file", "save.spotdl", "--simple-tui"]
    );
    assert_eq!(
        q.created(),
        Action::Downloading("Directory /m/Mix created successfully!".to_string())
    );
    assert_eq!(
        q.creation_failed("denied"),
        Action::Downloading("Error creating directory: denied".to_string())
    );
}

#[test]
fn playlist_lookups() {
    let mut s = Spotify::new(vec![
        PlaylistEntry { id: "abc123XYZ".to_string(), name: "Road Trip".to_string() },
        PlaylistEntry { id: "bad-id!".to_string(), name: "Broken".to_string() },
    ]);
    assert_eq!(s.get_playlist_url(0), Some("https://open.spotify.com/playlist/abc123XYZ".to_string()));
    assert_eq!(s.get_playlist_url(1), None);
    assert_eq!(s.get_playlist_name(1), "Broken");
    s.update(&Action::SelectFolder("/x".to_string()));
    let q = s.select_playlist(0).expect("valid");
    assert_eq!(q.target, "/x/RoadTrip");
    assert!(s.select_playlist(1).is_none());
    assert!(s.select_playlist(2).is_none());
}

#[test]
fn text_helpers() {
    assert_eq!(strip_spaces(" a b  c "), "abc");
    assert_eq!(strip_spaces(""), "");
    assert_eq!(join("ab", "cd"), "abcd");
}

#[test]
fn folder_failures_keep_the_screen() {
    let mut app = app_with(1);
    app.dispatch(&Action::EnterDownloader);
    let e = app.dispatch(&Action::SelectPlaylist(0));
    assert_eq!(app.mode, Mode::Downloading);
    let q = match e {
        Some(Effect::Fetch(q)) => q,
        other => panic!("unexpected effect {:?}", other),
    };
    app.dispatch(&q.creation_failed("denied"));
    assert_eq!(app.mode, Mode::Downloading);
    assert_eq!(app.download.output, vec!["Error creating directory: denied"]);
    for a in spawn_failed(OperationKind::Download, "no spotdl") {
        app.dispatch(&a);
    }
    assert_eq!(app.mode, Mode::Downloading);
    assert_eq!(app.download.output[1], "Error downloading playlist: no spotdl");
}

#[test]
fn unreadable_folder_is_reported() {
    let mut app = app_with(0);
    app.dispatch(&Action::EnterManager);
    let line = app.manager.scan_failed("No such file or directory");
    assert_eq!(
        line,
        Action::Downloading("Failed to read /music: No such file or directory".to_string())
    );
    app.dispatch(&line);
    assert_eq!(app.mode, Mode::Manager);
    assert_eq!(app.download.output.len(), 1);
}

#[test]
fn dir_list_ignored_outside_manager() {
    let mut app = app_with(2);
    app.dispatch(&Action::EnterDownloader);
    app.dispatch(&Action::GetDirs(vec!["a".to_string()]));
    assert_eq!(app.home.display_list_len, 2);
    assert!(app.home.dirs.is_empty());
}

#[test]
fn back_home_twice_from_waiting() {
    let mut app = app_with(3);
    app.dispatch(&Action::EnterDownloader);
    app.dispatch(&Action::MoveDown);
    app.dispatch(&Action::SelectPlaylist(1));
    app.dispatch(&Action::Downloading("x".to_string()));
    app.dispatch(&Action::DownloadFinished);
    assert_eq!(app.mode, Mode::Waiting);
    app.dispatch(&Action::BackHome);
    assert_eq!((app.mode, app.home.index, app.home.offset, app.home.display_list_len), (Mode::Home, 0, 0, 4));
    assert!(app.download.output.is_empty());
    app.dispatch(&Action::BackHome);
    assert_eq!((app.mode, app.home.index, app.home.offset, app.home.display_list_len), (Mode::Home, 0, 0, 4));
    assert!(app.download.output.is_empty());
}
