use playlist_tui::action::Action;
use playlist_tui::download::Download;
use playlist_tui::home::{viewport_for_height, Home, DEFAULT_VIEWPORT};
use playlist_tui::keys::{Key, KeyCode};
use playlist_tui::mode::Mode;
use playlist_tui::spotify::PlaylistEntry;

fn entries(n: usize) -> Vec<PlaylistEntry> {
    (0..n)
        .map(|i| PlaylistEntry { id: format!("id{}", i), name: format!("List {}", i) })
        .collect()
}

fn cursor_ok(h: &Home) -> bool {
    h.offset <= h.index
        && h.index <= h.offset + h.viewport - 1
        && (h.display_list_len == 0 || h.index < h.display_list_len)
}

#[test]
fn cursor_stays_visible_while_moving() {
    let mut h = Home::new(entries(10), String::new());
    h.enter_downloader();
    assert_eq!(h.display_list_len, 10);
    for _ in 0..12 {
        h.move_down();
        assert!(cursor_ok(&h));
    }
    assert_eq!((h.index, h.offset), (9, 4));
    h.move_up();
    assert_eq!((h.index, h.offset), (8, 3));
    for _ in 0..12 {
        h.move_up();
        assert!(cursor_ok(&h));
    }
    assert_eq!((h.index, h.offset), (0, 0));
}

#[test]
fn scrolling_starts_past_the_viewport() {
    let mut h = Home::new(entries(10), String::new());
    h.enter_downloader();
    for _ in 0..5 {
        h.move_down();
    }
    assert_eq!((h.index, h.offset), (5, 0));
    h.move_down();
    assert_eq!((h.index, h.offset), (6, 1));
}

#[test]
fn move_down_on_last_row_is_noop() {
    let mut h = Home::new(entries(3), String::new());
    h.enter_downloader();
    h.move_down();
    h.move_down();
    assert_eq!((h.index, h.offset), (2, 0));
    h.move_down();
    assert_eq!((h.index, h.offset), (2, 0));
}

#[test]
fn move_up_on_first_row_is_noop() {
    let mut h = Home::new(entries(3), String::new());
    h.move_up();
    assert_eq!((h.index, h.offset), (0, 0));
}

#[test]
fn empty_list_does_not_move() {
    let mut h = Home::new(entries(0), String::new());
    h.enter_downloader();
    assert_eq!(h.display_list_len, 0);
    h.move_down();
    h.move_up();
    assert_eq!((h.index, h.offset), (0, 0));
}

#[test]
fn main_menu_keys() {
    let mut h = Home::new(entries(1), String::new());
    h.enter_home();
    let enter = Key::plain(KeyCode::Enter);
    assert_eq!(h.handle_key_events(Mode::Home, enter), Some(Action::EnterDownloader));
    h.move_down();
    assert_eq!(h.handle_key_events(Mode::Home, enter), Some(Action::EnterManager));
    h.move_down();
    assert_eq!(h.handle_key_events(Mode::Home, enter), None);
    h.move_down();
    assert_eq!(h.handle_key_events(Mode::Home, enter), Some(Action::Quit));
    assert_eq!(h.handle_key_events(Mode::Home, Key::plain(KeyCode::Up)), Some(Action::MoveUp));
    assert_eq!(h.handle_key_events(Mode::Waiting, enter), Some(Action::BackHome));
    assert_eq!(h.handle_key_events(Mode::Manager, enter), Some(Action::SelectActivePlaylist(3)));
    assert_eq!(h.handle_key_events(Mode::Idle, enter), None);
}

#[test]
fn prompt_edits_path() {
    let mut h = Home::new(entries(0), "/home/me".to_string());
    assert_eq!(h.handle_key_events(Mode::Input, Key::plain(KeyCode::Char('/'))), None);
    assert_eq!(h.handle_key_events(Mode::Input, Key::plain(KeyCode::Char('x'))), None);
    assert_eq!(h.key_input, "/home/me/x");
    assert_eq!(h.handle_key_events(Mode::Input, Key::plain(KeyCode::Backspace)), None);
    assert_eq!(h.key_input, "/home/me/");
    assert_eq!(h.handle_key_events(Mode::Input, Key::plain(KeyCode::Esc)), Some(Action::QuitEditing));
    // characters typed outside the prompt are not recorded
    assert_eq!(h.handle_key_events(Mode::Home, Key::plain(KeyCode::Char('y'))), None);
    assert_eq!(h.key_input, "/home/me/");
}

#[test]
fn backspace_on_empty_prompt() {
    let mut h = Home::new(entries(0), String::new());
    assert_eq!(h.handle_key_events(Mode::Input, Key::plain(KeyCode::Backspace)), None);
    assert_eq!(h.key_input, "");
}

#[test]
fn viewport_follows_terminal_height() {
    assert_eq!(viewport_for_height(24), 20);
    assert_eq!(viewport_for_height(6), 2);
    assert_eq!(viewport_for_height(5), 1);
    assert_eq!(viewport_for_height(0), 1);
    assert_eq!(DEFAULT_VIEWPORT, 6);
}

#[test]
fn reflow_keeps_cursor_visible() {
    let mut h = Home::new(entries(10), String::new());
    h.enter_downloader();
    for _ in 0..7 {
        h.move_down();
    }
    assert_eq!((h.index, h.offset), (7, 2));
    h.reflow(4);
    assert_eq!((h.index, h.offset, h.viewport), (7, 4, 4));
    h.reflow(20);
    assert_eq!((h.index, h.offset, h.viewport), (7, 4, 20));
    assert!(cursor_ok(&h));
}

#[test]
fn home_update_follows_actions() {
    let mut h = Home::new(entries(2), "/h".to_string());
    h.update(Mode::Manager, &Action::GetDirs(vec!["a".to_string(), "b.zip".to_string(), "c".to_string()]));
    assert_eq!(h.display_list_len, 3);
    assert_eq!(h.dirs, vec!["a".to_string(), "b.zip".to_string(), "c".to_string()]);
    h.update(Mode::Manager, &Action::MoveDown);
    assert_eq!(h.index, 1);
    h.update(Mode::Manager, &Action::EnterDownloader);
    assert_eq!((h.index, h.display_list_len), (0, 2));
    h.key_input = "typed".to_string();
    h.update(Mode::Home, &Action::QuitEditing);
    assert_eq!(h.key_input, "typed");
    h.update(Mode::Input, &Action::QuitEditing);
    assert_eq!(h.key_input, "/h");
    h.update(Mode::Input, &Action::SelectFolder("/h".to_string()));
    assert_eq!(h.key_input, "");
    assert_eq!(h.display_list_len, 4);
}

#[test]
fn output_viewer_collects_and_resets() {
    let mut d = Download::new();
    d.update(&Action::Downloading("one".to_string()));
    d.update(&Action::Downloading("two".to_string()));
    d.update(&Action::Downloading("three".to_string()));
    d.update(&Action::Tick);
    assert_eq!(d.output, vec!["one", "two", "three"]);
    assert_eq!(d.visible_lines(2), vec!["two", "three"]);
    assert_eq!(d.visible_lines(5), vec!["one", "two", "three"]);
    assert!(d.visible_lines(0).is_empty());
    d.update(&Action::BackHome);
    assert!(d.output.is_empty());
}

#[test]
fn main_menu_labels() {
    let h = Home::new(entries(2), "/h".to_string());
    assert_eq!(h.menus, vec!["Download Playlist", "Manage Downloads", "Settings", "Quit"]);
    assert_eq!((h.display_list_len, h.index, h.offset), (4, 0, 0));
    assert!(h.dirs.is_empty());
    assert_eq!(h.playlists.len(), 2);
}
