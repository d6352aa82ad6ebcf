use vstd::prelude::*;

use crate::action::{copy_strings, Action};
use crate::keys::{Key, KeyCode};
use crate::mode::Mode;
use crate::process::texts;
use crate::spotify::PlaylistEntry;
use crate::text::{pop_char, push_char};

verus! {

/// Number of list rows visible at once until the terminal reports its size.
pub const DEFAULT_VIEWPORT: usize = 6;

/// Rows of a terminal that the list cannot use: a title row, a status row and
/// the two borders of the list.
pub const RESERVED_ROWS: u16 = 4;

/// Number of list rows visible in a terminal `height` rows high, at least one.
pub open spec fn viewport_for(height: u16) -> usize {
    if height > RESERVED_ROWS + 1 {
        (height - RESERVED_ROWS) as usize
    } else {
        1
    }
}

/// The list rows that fit in a terminal `height` rows high.
pub fn viewport_for_height(height: u16) -> (r: usize)
    ensures
        r == viewport_for(height),
        r >= 1,
{
    if height > RESERVED_ROWS + 1 {
        (height - RESERVED_ROWS) as usize
    } else {
        1
    }
}

/// The main screen: the menu, the playlist and archive pickers, and the
/// folder prompt. It owns the selection cursor over whichever list is shown.
pub struct Home {
    /// Position of the cursor in the list shown.
    pub index: usize,
    /// First list row that is visible.
    pub offset: usize,
    /// Number of rows visible at once.
    pub viewport: usize,
    /// Length of the list shown.
    pub display_list_len: usize,
    pub menus: Vec<String>,
    pub playlists: Vec<PlaylistEntry>,
    pub dirs: Vec<String>,
    /// The folder path typed so far.
    pub key_input: String,
    /// What the folder prompt starts from.
    pub home_dir: String,
}

impl Home {
    /// The cursor lies in the list and in the visible window.
    pub open spec fn wf(&self) -> bool {
        &&& self.viewport >= 1
        &&& self.offset <= self.index
        &&& self.index < self.offset + self.viewport
        &&& (self.display_list_len == 0 ==> self.index == 0)
        &&& (self.display_list_len > 0 ==> self.index < self.display_list_len)
    }

    /// The cursor one row further down, the window following it; unchanged
    /// on the last row.
    pub open spec fn moved_down(self) -> Home {
        if self.index + 1 < self.display_list_len {
            let index = (self.index + 1) as usize;
            let offset = if index - self.offset >= self.viewport {
                (self.offset + 1) as usize
            } else {
                self.offset
            };
            Home { index, offset, ..self }
        } else {
            self
        }
    }

    /// The cursor one row further up, the window moving up with it while it
    /// can; unchanged on the first row.
    pub open spec fn moved_up(self) -> Home {
        if self.index > 0 {
            let offset = if self.offset > 0 {
                (self.offset - 1) as usize
            } else {
                self.offset
            };
            Home { index: (self.index - 1) as usize, offset, ..self }
        } else {
            self
        }
    }

    /// The cursor at the top of a list of `len` rows.
    pub open spec fn reset_to(self, len: usize) -> Home {
        Home { index: 0, offset: 0, display_list_len: len, ..self }
    }

    /// The window resized to `viewport` rows, scrolled just enough to keep
    /// the cursor visible.
    pub open spec fn reflowed(self, viewport: usize) -> Home {
        let offset = if self.index - self.offset >= viewport {
            (self.index + 1 - viewport) as usize
        } else {
            self.offset
        };
        Home { viewport, offset, ..self }
    }

    /// The main menu, with the folder prompt starting from `home_dir`.
    pub fn new(playlists: Vec<PlaylistEntry>, home_dir: String) -> (r: Home)
        ensures
            r.wf(),
            r.index == 0,
            r.offset == 0,
            r.viewport == DEFAULT_VIEWPORT,
            r.display_list_len == 4,
            texts(r.menus@) == seq![
                "Download Playlist"@,
                "Manage Downloads"@,
                "Settings"@,
                "Quit"@,
            ],
            r.playlists == playlists,
            r.dirs@.len() == 0,
            r.key_input == home_dir,
            r.home_dir == home_dir,
    {
        let mut menus: Vec<String> = Vec::new();
        menus.push("Download Playlist".to_owned());
        menus.push("Manage Downloads".to_owned());
        menus.push("Settings".to_owned());
        menus.push("Quit".to_owned());
        assert(texts(menus@) =~= seq![
            "Download Playlist"@,
            "Manage Downloads"@,
            "Settings"@,
            "Quit"@,
        ]);
        let len = menus.len();
        Home {
            index: 0,
            offset: 0,
            viewport: DEFAULT_VIEWPORT,
            display_list_len: len,
            menus,
            playlists,
            dirs: Vec::new(),
            key_input: home_dir.clone(),
            home_dir,
        }
    }

    /// Moves the selection cursor up.
    pub fn move_up(&mut self)
        requires
            old(self).wf(),
        ensures
            final(self).wf(),
            *final(self) == old(self).moved_up(),
    {
        if self.index > 0 {
            self.index = self.index - 1;
            if self.offset > 0 {
                self.offset = self.offset - 1;
            }
        }
    }

    /// Moves the selection cursor down.
    pub fn move_down(&mut self)
        requires
            old(self).wf(),
        ensures
            final(self).wf(),
            *final(self) == old(self).moved_down(),
    {
        if self.display_list_len > 0 && self.index < self.display_list_len - 1 {
            self.index = self.index + 1;
            if self.index - self.offset > self.viewport - 1 {
                self.offset = self.offset + 1;
            }
        }
    }

    /// Shows the playlists, cursor at the top.
    pub fn enter_downloader(&mut self)
        ensures
            old(self).wf() ==> final(self).wf(),
            *final(self) == old(self).reset_to(old(self).playlists@.len() as usize),
    {
        self.index = 0;
        self.offset = 0;
        self.display_list_len = self.playlists.len();
    }

    /// Shows the archive entries `dirs`, cursor at the top.
    pub fn enter_manager(&mut self, dirs: Vec<String>)
        requires
            old(self).wf(),
        ensures
            final(self).wf(),
            final(self).dirs == dirs,
            (Home { dirs: old(self).dirs, ..*final(self) }) == old(self).reset_to(dirs@.len() as usize),
    {
        self.index = 0;
        self.offset = 0;
        self.dirs = dirs;
        self.display_list_len = self.dirs.len();
    }

    /// Shows the menu, cursor at the top.
    pub fn enter_home(&mut self)
        requires
            old(self).wf(),
        ensures
            final(self).wf(),
            *final(self) == old(self).reset_to(old(self).menus@.len() as usize),
    {
        self.index = 0;
        self.offset = 0;
        self.display_list_len = self.menus.len();
    }

    /// Shows `viewport` rows at once, keeping the cursor visible.
    pub fn reflow(&mut self, viewport: usize)
        requires
            old(self).wf(),
            viewport >= 1,
        ensures
            final(self).wf(),
            *final(self) == old(self).reflowed(viewport),
    {
        if self.index - self.offset >= viewport {
            self.offset = self.index + 1 - viewport;
        }
        self.viewport = viewport;
    }

    /// What a key press on this screen asks for, in `mode`.
    pub open spec fn key_action(self, mode: Mode, key: Key) -> Option<Action> {
        match mode {
            Mode::Input => match key.code {
                KeyCode::Esc => Some(Action::QuitEditing),
                KeyCode::Enter => Some(Action::SelectFolder(self.key_input)),
                _ => None,
            },
            Mode::Home => match key.code {
                KeyCode::Up => Some(Action::MoveUp),
                KeyCode::Down => Some(Action::MoveDown),
                KeyCode::Enter => if self.index == 0 {
                    Some(Action::EnterDownloader)
                } else if self.index == 1 {
                    Some(Action::EnterManager)
                } else if self.index == 3 {
                    Some(Action::Quit)
                } else {
                    None
                },
                _ => None,
            },
            Mode::Downloader => match key.code {
                KeyCode::Enter => Some(Action::SelectPlaylist(self.index)),
                _ => None,
            },
            Mode::Manager => match key.code {
                KeyCode::Enter => Some(Action::SelectActivePlaylist(self.index)),
                _ => None,
            },
            Mode::Waiting => match key.code {
                KeyCode::Enter => Some(Action::BackHome),
                _ => None,
            },
            _ => None,
        }
    }

    /// The folder path after a key press in `mode`: in the prompt a
    /// character is appended and backspace removes the last one.
    pub open spec fn typed(self, mode: Mode, key: Key) -> Seq<char> {
        if mode == Mode::Input {
            match key.code {
                KeyCode::Char(c) => self.key_input@.push(c),
                KeyCode::Backspace => if self.key_input@.len() > 0 {
                    self.key_input@.drop_last()
                } else {
                    self.key_input@
                },
                _ => self.key_input@,
            }
        } else {
            self.key_input@
        }
    }

    /// Translates a key press in `mode` into at most one action, editing the
    /// folder path while the prompt is open.
    pub fn handle_key_events(&mut self, mode: Mode, key: Key) -> (r: Option<Action>)
        ensures
            r == old(self).key_action(mode, key),
            final(self).key_input@ == old(self).typed(mode, key),
            (Home { key_input: old(self).key_input, ..*final(self) }) == *old(self),
    {
        match mode {
            Mode::Input => match key.code {
                KeyCode::Char(c) => {
                    push_char(&mut self.key_input, c);
                    None
                },
                KeyCode::Esc => Some(Action::QuitEditing),
                KeyCode::Backspace => {
                    let _ = pop_char(&mut self.key_input);
                    None
                },
                KeyCode::Enter => Some(Action::SelectFolder(self.key_input.clone())),
                _ => None,
            },
            Mode::Home => match key.code {
                KeyCode::Up => Some(Action::MoveUp),
                KeyCode::Down => Some(Action::MoveDown),
                KeyCode::Enter => if self.index == 0 {
                    Some(Action::EnterDownloader)
                } else if self.index == 1 {
                    Some(Action::EnterManager)
                } else if self.index == 3 {
                    Some(Action::Quit)
                } else {
                    None
                },
                _ => None,
            },
            Mode::Downloader => match key.code {
                KeyCode::Enter => Some(Action::SelectPlaylist(self.index)),
                _ => None,
            },
            Mode::Manager => match key.code {
                KeyCode::Enter => Some(Action::SelectActivePlaylist(self.index)),
                _ => None,
            },
            Mode::Waiting => match key.code {
                KeyCode::Enter => Some(Action::BackHome),
                _ => None,
            },
            _ => None,
        }
    }

    /// How this screen reacts to `action`, received while the active screen
    /// is `mode`.
    pub open spec fn updated(pre: Home, mode: Mode, action: Action, post: Home) -> bool {
        match action {
            Action::MoveUp => post == pre.moved_up(),
            Action::MoveDown => post == pre.moved_down(),
            Action::EnterDownloader => post == pre.reset_to(pre.playlists@.len() as usize),
            Action::EnterManager => post == pre.reset_to(pre.dirs@.len() as usize),
            Action::GetDirs(names) => if mode == Mode::Manager {
                &&& post.dirs@ == names@
                &&& (Home { dirs: pre.dirs, ..post }) == pre.reset_to(names@.len() as usize)
            } else {
                post == pre
            },
            Action::SelectFolder(_) => if mode == Mode::Input {
                &&& post.key_input@.len() == 0
                &&& (Home { key_input: pre.key_input, ..post }) == pre.reset_to(
                    pre.menus@.len() as usize,
                )
            } else {
                post == pre
            },
            Action::QuitEditing => if mode == Mode::Input {
                post == (Home { key_input: pre.home_dir, ..pre })
            } else {
                post == pre
            },
            Action::BackHome => if mode == Mode::Waiting {
                post == pre.reset_to(pre.menus@.len() as usize)
            } else {
                post == pre
            },
            Action::Resize(_, h) => post == pre.reflowed(viewport_for(h)),
            _ => post == pre,
        }
    }

    /// Applies `action`, received while the active screen is `mode`.
    pub fn update(&mut self, mode: Mode, action: &Action)
        requires
            old(self).wf(),
        ensures
            final(self).wf(),
            Home::updated(*old(self), mode, *action, *final(self)),
    {
        match action {
            Action::MoveUp => self.move_up(),
            Action::MoveDown => self.move_down(),
            Action::EnterDownloader => self.enter_downloader(),
            Action::EnterManager => {
                self.index = 0;
                self.offset = 0;
                self.display_list_len = self.dirs.len();
            },
            Action::GetDirs(names) => {
                if mode == Mode::Manager {
                    self.enter_manager(copy_strings(names));
                }
            },
            Action::SelectFolder(_) => {
                if mode == Mode::Input {
                    self.key_input = String::new();
                    self.enter_home();
                }
            },
            Action::QuitEditing => {
                if mode == Mode::Input {
                    self.key_input = self.home_dir.clone();
                }
            },
            Action::BackHome => {
                if mode == Mode::Waiting {
                    self.enter_home();
                }
            },
            Action::Resize(_, h) => {
                let v = viewport_for_height(*h);
                self.reflow(v);
            },
            _ => {},
        }
    }
}

} // verus!
