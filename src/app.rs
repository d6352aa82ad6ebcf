use vstd::prelude::*;

use crate::action::{same_action, Action};
use crate::download::Download;
use crate::home::Home;
use crate::keys::{resolve, Binding, Key, KeyCode, KeyResolver};
use crate::manager::Manager;
use crate::mode::Mode;
use crate::process::{is_unzip_op, is_zip_op, Operation};
use crate::spotify::{
    playlist_folder, playlist_url, valid_playlist_id, DownloadRequest, PlaylistEntry, Spotify,
};

verus! {

/// The outside work that handling an action asks for.
#[derive(Debug, Clone)]
pub enum Effect {
    /// Redraw the screen.
    Draw,
    /// Resize the terminal to the given width and height, then redraw.
    Resize(u16, u16),
    /// Scan the folder and hand its entries to `Manager::scan_dir`.
    ScanDir(String),
    /// Make sure the folder of the request exists, then run
    /// `DownloadRequest::operation`.
    Fetch(DownloadRequest),
    /// Run the operation, streaming its output.
    Run(Operation),
}

/// The dispatch loop's state: the active screen and every component.
pub struct App {
    pub mode: Mode,
    /// The screen that the folder prompt returns to when it is dismissed.
    pub return_mode: Mode,
    pub should_quit: bool,
    pub should_suspend: bool,
    pub home: Home,
    pub download: Download,
    pub manager: Manager,
    pub spotify: Spotify,
    pub keys: KeyResolver,
}

impl App {
    /// The selection cursor of the main screen is in place, the main screen
    /// and the picker hold the same playlists, and whenever the playlist
    /// picker is shown, or the folder prompt will return to it, the cursor
    /// runs over the playlists.
    pub open spec fn wf(&self) -> bool {
        &&& self.home.wf()
        &&& self.home.playlists@.len() == self.spotify.playlists@.len()
        &&& (self.mode == Mode::Downloader || (self.mode == Mode::Input && self.return_mode
            == Mode::Downloader)) ==> self.home.display_list_len == self.home.playlists@.len()
    }

    /// Whether selecting playlist `idx` can start a download.
    pub open spec fn playlist_selectable(self, idx: usize) -> bool {
        &&& self.mode == Mode::Downloader
        &&& idx < self.spotify.playlists@.len()
        &&& valid_playlist_id(self.spotify.playlists@[idx as int].id@)
    }

    /// Whether selecting entry `idx` of the manager can start an operation.
    pub open spec fn entry_selectable(self, idx: usize) -> bool {
        self.mode == Mode::Manager && idx < self.manager.playlists@.len()
    }

    /// The active screen after `action`.
    pub open spec fn next_mode(self, action: Action) -> Mode {
        match action {
            Action::EnterDownloader => Mode::Downloader,
            Action::EnterManager => Mode::Manager,
            Action::EnterEditing => Mode::Input,
            Action::SelectFolder(_) => if self.mode == Mode::Input {
                Mode::Home
            } else {
                self.mode
            },
            Action::QuitEditing => if self.mode == Mode::Input {
                self.return_mode
            } else {
                self.mode
            },
            Action::SelectPlaylist(i) => if self.playlist_selectable(i) {
                Mode::Downloading
            } else {
                self.mode
            },
            Action::SelectActivePlaylist(i) => if self.entry_selectable(i) {
                Mode::Downloading
            } else {
                self.mode
            },
            Action::DownloadFinished => if self.mode == Mode::Downloading {
                Mode::Waiting
            } else {
                self.mode
            },
            Action::BackHome => if self.mode == Mode::Waiting {
                Mode::Home
            } else {
                self.mode
            },
            _ => self.mode,
        }
    }

    /// The screen the folder prompt returns to, after `action`.
    pub open spec fn next_return_mode(self, action: Action) -> Mode {
        match action {
            Action::EnterEditing => if self.mode == Mode::Input {
                self.return_mode
            } else {
                self.mode
            },
            _ => self.return_mode,
        }
    }

    /// How the whole state moves on `action`.
    pub open spec fn stepped(pre: App, action: Action, post: App) -> bool {
        &&& post.mode == pre.next_mode(action)
        &&& post.return_mode == pre.next_return_mode(action)
        &&& post.should_quit == (pre.should_quit || action == Action::Quit)
        &&& post.should_suspend == match action {
            Action::Suspend => true,
            Action::Resume => false,
            _ => pre.should_suspend,
        }
        &&& Home::updated(pre.home, pre.mode, action, post.home)
        &&& Download::updated(pre.download, action, post.download)
        &&& Manager::updated(pre.manager, action, post.manager)
        &&& Spotify::updated(pre.spotify, action, post.spotify)
        &&& post.keys.bindings == pre.keys.bindings
        &&& if action == Action::Tick {
            post.keys.buffer@.len() == 0
        } else {
            post.keys == pre.keys
        }
    }

    /// The outside work that `action` asks for.
    pub open spec fn effect_of(pre: App, action: Action, effect: Option<Effect>) -> bool {
        match action {
            Action::Render => effect == Some(Effect::Draw),
            Action::Resize(w, h) => effect == Some(Effect::Resize(w, h)),
            Action::EnterManager => effect matches Some(Effect::ScanDir(d)) && d@ == pre.manager.dir@,
            Action::SelectPlaylist(i) => if pre.playlist_selectable(i) {
                effect matches Some(Effect::Fetch(q)) && q.url@ == playlist_url(
                    pre.spotify.playlists@[i as int].id@,
                ) && q.target@ == playlist_folder(
                    pre.spotify.dir@,
                    pre.spotify.playlists@[i as int].name@,
                )
            } else {
                effect is None
            },
            Action::SelectActivePlaylist(i) => if pre.entry_selectable(i) {
                effect matches Some(Effect::Run(op)) && if pre.manager.playlists@[i as int].is_dir {
                    is_zip_op(op, pre.manager.dir@, pre.manager.playlists@[i as int].name@)
                } else {
                    is_unzip_op(op, pre.manager.dir@, pre.manager.playlists@[i as int].name@)
                }
            } else {
                effect is None
            },
            _ => effect is None,
        }
    }

    /// The state at start-up: the folder prompt open over the main menu.
    pub fn new(playlists: Vec<PlaylistEntry>, home_dir: String, bindings: Vec<Binding>) -> (r: App)
        ensures
            r.wf(),
            r.mode == Mode::Input,
            r.return_mode == Mode::Home,
            !r.should_quit,
            !r.should_suspend,
            r.home.index == 0,
            r.home.offset == 0,
            r.home.display_list_len == 4,
            r.home.key_input == home_dir,
            r.home.home_dir == home_dir,
            r.home.playlists@.len() == playlists@.len(),
            r.spotify.playlists == playlists,
            r.spotify.dir@.len() == 0,
            r.manager.dir@.len() == 0,
            r.manager.playlists@.len() == 0,
            r.download.output@.len() == 0,
            r.keys.bindings == bindings,
            r.keys.buffer@.len() == 0,
    {
        let home = Home::new(playlists.clone(), home_dir);
        App {
            mode: Mode::Input,
            return_mode: Mode::Home,
            should_quit: false,
            should_suspend: false,
            home,
            download: Download::new(),
            manager: Manager::new(),
            spotify: Spotify::new(playlists),
            keys: KeyResolver::new(bindings),
        }
    }

    /// Handles one action taken from the bus: moves the active screen, lets
    /// every component react, and returns the outside work to do.
    pub fn dispatch(&mut self, action: &Action) -> (r: Option<Effect>)
        requires
            old(self).wf(),
        ensures
            final(self).wf(),
            App::stepped(*old(self), *action, *final(self)),
            App::effect_of(*old(self), *action, r),
    {
        let mode = self.mode;
        let mut effect: Option<Effect> = None;
        match action {
            Action::Tick => self.keys.tick(),
            Action::Render => effect = Some(Effect::Draw),
            Action::Resize(w, h) => effect = Some(Effect::Resize(*w, *h)),
            Action::Quit => self.should_quit = true,
            Action::Suspend => self.should_suspend = true,
            Action::Resume => self.should_suspend = false,
            Action::EnterDownloader => {
                let n = self.home.playlists.len();
                assert(n == self.home.playlists@.len());
                self.mode = Mode::Downloader;
            },
            Action::EnterManager => {
                self.mode = Mode::Manager;
                effect = Some(Effect::ScanDir(self.manager.dir.clone()));
            },
            Action::EnterEditing => {
                if mode != Mode::Input {
                    self.return_mode = mode;
                }
                self.mode = Mode::Input;
            },
            Action::SelectFolder(_) => {
                if mode == Mode::Input {
                    self.mode = Mode::Home;
                }
            },
            Action::QuitEditing => {
                if mode == Mode::Input {
                    self.mode = self.return_mode;
                }
            },
            Action::SelectPlaylist(i) => {
                if mode == Mode::Downloader {
                    match self.spotify.select_playlist(*i) {
                        Some(q) => {
                            self.mode = Mode::Downloading;
                            effect = Some(Effect::Fetch(q));
                        },
                        None => {},
                    }
                }
            },
            Action::SelectActivePlaylist(i) => {
                if mode == Mode::Manager {
                    match self.manager.select_playlist(*i) {
                        Some(op) => {
                            self.mode = Mode::Downloading;
                            effect = Some(Effect::Run(op));
                        },
                        None => {},
                    }
                }
            },
            Action::DownloadFinished => {
                if mode == Mode::Downloading {
                    self.mode = Mode::Waiting;
                }
            },
            Action::BackHome => {
                if mode == Mode::Waiting {
                    self.mode = Mode::Home;
                }
            },
            _ => {},
        }
        self.home.update(mode, action);
        self.download.update(action);
        self.manager.update(action);
        self.spotify.update(action);
        effect
    }

    /// Handles one key press: first the binding table of the active screen,
    /// then the main screen's own keys. Returns the actions to send, in order.
    pub fn handle_key(&mut self, key: Key) -> (r: Vec<Action>)
        ensures
            final(self).keys.bindings == old(self).keys.bindings,
            final(self).keys.buffer@ == resolve(
                old(self).keys.bindings@,
                old(self).mode,
                old(self).keys.buffer@,
                key,
            ).1,
            final(self).home.key_input@ == old(self).home.typed(old(self).mode, key),
            (Home { key_input: old(self).home.key_input, ..final(self).home }) == old(self).home,
            (App { keys: old(self).keys, home: old(self).home, ..*final(self) }) == *old(self),
            match (
                resolve(old(self).keys.bindings@, old(self).mode, old(self).keys.buffer@, key).0,
                old(self).home.key_action(old(self).mode, key),
            ) {
                (Some(a), Some(b)) => r@.len() == 2 && same_action(r@[0], a) && r@[1] == b,
                (Some(a), None) => r@.len() == 1 && same_action(r@[0], a),
                (None, Some(b)) => r@ == seq![b],
                (None, None) => r@.len() == 0,
            },
    {
        let mut r: Vec<Action> = Vec::new();
        match self.keys.handle_key(self.mode, key) {
            Some(a) => r.push(a),
            None => {},
        }
        match self.home.handle_key_events(self.mode, key) {
            Some(b) => r.push(b),
            None => {},
        }
        r
    }
}

/// Going back home twice, from the main screen or from the finished output
/// viewer, changes nothing the second time: the screen is the main one and
/// the output viewer is empty after each.
pub proof fn back_home_twice(s0: App, s1: App, s2: App)
    requires
        s0.wf(),
        s0.mode == Mode::Home || s0.mode == Mode::Waiting,
        App::stepped(s0, Action::BackHome, s1),
        App::stepped(s1, Action::BackHome, s2),
    ensures
        s1.mode == Mode::Home,
        s2.mode == Mode::Home,
        s1.download.output@.len() == 0,
        s2.download.output@ == s1.download.output@,
        (App { download: s1.download, ..s2 }) == s1,
{
    assert(s2.download.output@ =~= s1.download.output@);
}

/// On the playlist picker, Enter asks for the playlist under the cursor,
/// which is one of the playlists; handling that request opens the output
/// viewer when the playlist's id is well formed.
pub proof fn enter_selects_playlist(s0: App, key: Key, s1: App)
    requires
        s0.wf(),
        s0.mode == Mode::Downloader,
        s0.spotify.playlists@.len() > 0,
        key.code == KeyCode::Enter,
        valid_playlist_id(s0.spotify.playlists@[s0.home.index as int].id@),
        App::stepped(s0, Action::SelectPlaylist(s0.home.index), s1),
    ensures
        s0.home.key_action(s0.mode, key) == Some(Action::SelectPlaylist(s0.home.index)),
        s0.home.index < s0.spotify.playlists@.len(),
        s1.mode == Mode::Downloading,
{
}

} // verus!
