use vstd::prelude::*;

use rspotify::model::PlaylistId;
use rspotify::prelude::Id;

use crate::action::Action;
use crate::process::{download_plan, is_download_op, is_sync_op, sync_plan, Operation};
use crate::text::{join, strip_spaces, without_spaces};

verus! {

/// A playlist of the remote catalog: its id and its display name.
#[derive(Debug, Clone)]
pub struct PlaylistEntry {
    pub id: String,
    pub name: String,
}

/// A character is an ASCII letter or digit.
pub open spec fn ascii_alphanumeric(c: char) -> bool {
    ('0' <= c && c <= '9') || ('a' <= c && c <= 'z') || ('A' <= c && c <= 'Z')
}

/// A playlist id is made of ASCII letters and digits only.
pub open spec fn valid_playlist_id(id: Seq<char>) -> bool {
    forall|i: int| 0 <= i < id.len() ==> ascii_alphanumeric(#[trigger] id[i])
}

/// The address at which a playlist can be opened in a browser.
pub open spec fn playlist_url(id: Seq<char>) -> Seq<char> {
    "https://open.spotify.com/playlist/"@ + id
}

/// Relies on rspotify's `PlaylistId::from_id`, which accepts exactly the ids
/// made of ASCII letters and digits, and on its `Id::url`, which renders
/// `https://open.spotify.com/playlist/` followed by the id.
#[verifier::external_body]
fn url_of_playlist(id: &str) -> (r: Option<String>)
    ensures
        r is Some <==> valid_playlist_id(id@),
        r matches Some(u) ==> u@ == playlist_url(id@),
{
    match PlaylistId::from_id(id) {
        Ok(p) => Some(p.url()),
        Err(_) => None,
    }
}

/// The folder a playlist named `name` is kept in, under `dir`.
pub open spec fn playlist_folder(dir: Seq<char>, name: Seq<char>) -> Seq<char> {
    dir + "/"@ + without_spaces(name)
}

/// A request to fetch a playlist into a folder: the playlist's address and
/// the folder.
#[derive(Debug, Clone)]
pub struct DownloadRequest {
    pub url: String,
    pub target: String,
}

impl DownloadRequest {
    /// The operation to run once it is known whether the folder exists: an
    /// existing folder is brought up to date, a new one is filled.
    pub fn operation(&self, exists: bool) -> (r: Operation)
        ensures
            exists ==> is_sync_op(r, self.target@),
            !exists ==> is_download_op(r, self.url@, self.target@),
    {
        if exists {
            sync_plan(self.target.as_str())
        } else {
            download_plan(self.url.as_str(), self.target.as_str())
        }
    }

    /// The line that reports that the folder was made.
    pub fn created(&self) -> (r: Action)
        ensures
            r matches Action::Downloading(m) && m@ == "Directory "@ + self.target@
                + " created successfully!"@,
    {
        let a = join("Directory ", self.target.as_str());
        Action::Downloading(join(a.as_str(), " created successfully!"))
    }

    /// The line that reports a failure to make the folder for `reason`. The
    /// operation is not started and the active screen stays as it is.
    pub fn creation_failed(&self, reason: &str) -> (r: Action)
        ensures
            r matches Action::Downloading(m) && m@ == "Error creating directory: "@ + reason@,
    {
        Action::Downloading(join("Error creating directory: ", reason))
    }
}

/// The playlist picker's back end: the user's playlists and the folder they
/// are kept under.
pub struct Spotify {
    pub playlists: Vec<PlaylistEntry>,
    pub dir: String,
}

impl Spotify {
    /// A picker over `playlists`, with no folder chosen.
    pub fn new(playlists: Vec<PlaylistEntry>) -> (r: Spotify)
        ensures
            r.playlists == playlists,
            r.dir@.len() == 0,
    {
        Spotify { playlists, dir: String::new() }
    }

    /// The address of playlist `idx`, when its id is well formed.
    pub fn get_playlist_url(&self, idx: usize) -> (r: Option<String>)
        requires
            idx < self.playlists@.len(),
        ensures
            r is Some <==> valid_playlist_id(self.playlists@[idx as int].id@),
            r matches Some(u) ==> u@ == playlist_url(self.playlists@[idx as int].id@),
    {
        url_of_playlist(self.playlists[idx].id.as_str())
    }

    /// The name of playlist `idx`.
    pub fn get_playlist_name(&self, idx: usize) -> (r: String)
        requires
            idx < self.playlists@.len(),
        ensures
            r == self.playlists@[idx as int].name,
    {
        self.playlists[idx].name.clone()
    }

    /// The request that fetches playlist `idx` into its folder under the
    /// chosen folder. None when there is no such playlist or its id is not
    /// well formed.
    pub fn select_playlist(&self, idx: usize) -> (r: Option<DownloadRequest>)
        ensures
            r is Some <==> idx < self.playlists@.len() && valid_playlist_id(
                self.playlists@[idx as int].id@,
            ),
            r matches Some(q) ==> q.url@ == playlist_url(self.playlists@[idx as int].id@)
                && q.target@ == playlist_folder(self.dir@, self.playlists@[idx as int].name@),
    {
        if idx >= self.playlists.len() {
            return None;
        }
        match self.get_playlist_url(idx) {
            Some(url) => {
                let name = strip_spaces(self.playlists[idx].name.as_str());
                let base = join(self.dir.as_str(), "/");
                let target = join(base.as_str(), name.as_str());
                Some(DownloadRequest { url, target })
            },
            None => None,
        }
    }

    /// How the picker reacts to `action`: a chosen folder is remembered.
    pub open spec fn updated(pre: Spotify, action: Action, post: Spotify) -> bool {
        match action {
            Action::SelectFolder(d) => post == (Spotify { dir: d, ..pre }),
            _ => post == pre,
        }
    }

    /// Applies `action`.
    pub fn update(&mut self, action: &Action)
        ensures
            Spotify::updated(*old(self), *action, *final(self)),
    {
        match action {
            Action::SelectFolder(d) => self.dir = d.clone(),
            _ => {},
        }
    }
}

} // verus!
