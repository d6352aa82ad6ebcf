use vstd::prelude::*;

use crate::action::Action;
use crate::process::{is_unzip_op, is_zip_op, unzip_plan, zip_plan, Operation};
use crate::text::join;

verus! {

/// One entry of a scanned folder: its file name, whether it is a folder, and
/// the extension of its name, if it has one.
#[derive(Debug, Clone)]
pub struct DirEntry {
    pub name: String,
    pub is_dir: bool,
    pub extension: Option<String>,
}

/// What `str::to_lowercase` returns for a string.
pub uninterp spec fn lower_of(s: Seq<char>) -> Seq<char>;

/// Relies on `str::to_lowercase`: the lowercase form of a string, which
/// depends on its characters alone.
#[verifier::external_body]
fn lowercase(s: &str) -> (r: String)
    ensures
        r@ == lower_of(s@),
{
    s.to_lowercase()
}

/// The extensions, in lowercase, of the archives that can be managed.
pub open spec fn archive_suffix(lowered: Seq<char>) -> bool {
    lowered == "zip"@ || lowered == "rar"@ || lowered == "tar"@ || lowered == "7z"@
}

/// Whether an extension already in lowercase names a managed archive.
pub fn is_archive_suffix(lowered: &str) -> (r: bool)
    ensures
        r == archive_suffix(lowered@),
{
    let l = lowered.to_owned();
    l == "zip".to_owned() || l == "rar".to_owned() || l == "tar".to_owned() || l
        == "7z".to_owned()
}

/// Whether an extension names a managed archive, whatever its case.
pub fn is_archive_extension(ext: &str) -> (r: bool)
    ensures
        r == archive_suffix(lower_of(ext@)),
{
    let lowered = lowercase(ext);
    is_archive_suffix(lowered.as_str())
}

/// A scanned entry is listed when it is a folder or an archive.
pub open spec fn listed(e: DirEntry) -> bool {
    e.is_dir || (e.extension matches Some(x) && archive_suffix(lower_of(x@)))
}

/// The listed entries of a scan, in order.
pub open spec fn listed_entries(s: Seq<DirEntry>) -> Seq<DirEntry>
    decreases s.len(),
{
    if s.len() == 0 {
        Seq::empty()
    } else if listed(s.last()) {
        listed_entries(s.drop_last()).push(s.last())
    } else {
        listed_entries(s.drop_last())
    }
}

/// The names of some entries.
pub open spec fn names_of(s: Seq<DirEntry>) -> Seq<String> {
    s.map_values(|e: DirEntry| e.name)
}

/// A copy of an entry.
fn copy_entry(e: &DirEntry) -> (r: DirEntry)
    ensures
        r == *e,
{
    let extension = match &e.extension {
        Some(x) => Some(x.clone()),
        None => None,
    };
    DirEntry { name: e.name.clone(), is_dir: e.is_dir, extension }
}

/// The archive manager: the chosen folder and the folders and archives found
/// in it.
pub struct Manager {
    pub playlists: Vec<DirEntry>,
    pub dir: String,
}

impl Manager {
    /// A manager with no folder chosen and nothing found.
    pub fn new() -> (r: Manager)
        ensures
            r.playlists@.len() == 0,
            r.dir@.len() == 0,
    {
        Manager { playlists: Vec::new(), dir: String::new() }
    }

    /// Keeps the folders and archives of a scan of the chosen folder, and
    /// returns their names.
    pub fn scan_dir(&mut self, entries: &Vec<DirEntry>) -> (r: Action)
        ensures
            final(self).dir == old(self).dir,
            final(self).playlists@ == listed_entries(entries@),
            r matches Action::GetDirs(names) && names@ == names_of(listed_entries(entries@)),
    {
        let mut kept: Vec<DirEntry> = Vec::new();
        let mut names: Vec<String> = Vec::new();
        let mut i: usize = 0;
        while i < entries.len()
            invariant
                i <= entries.len(),
                kept@ == listed_entries(entries@.subrange(0, i as int)),
                names@ == names_of(kept@),
            decreases entries.len() - i,
        {
            let e = &entries[i];
            let keep = if e.is_dir {
                true
            } else {
                match &e.extension {
                    Some(x) => is_archive_extension(x.as_str()),
                    None => false,
                }
            };
            assert(entries@.subrange(0, i + 1).drop_last() =~= entries@.subrange(0, i as int));
            if keep {
                kept.push(copy_entry(e));
                names.push(e.name.clone());
                assert(names@ =~= names_of(kept@));
            }
            i = i + 1;
        }
        assert(entries@.subrange(0, entries@.len() as int) =~= entries@);
        self.playlists = kept;
        Action::GetDirs(names)
    }

    /// The output line that reports that the chosen folder could not be read
    /// for `reason`.
    pub fn scan_failed(&self, reason: &str) -> (r: Action)
        ensures
            r matches Action::Downloading(m) && m@ == "Failed to read "@ + self.dir@ + ": "@
                + reason@,
    {
        let a = join("Failed to read ", self.dir.as_str());
        let b = join(a.as_str(), ": ");
        Action::Downloading(join(b.as_str(), reason))
    }

    /// The operation for the listed entry `idx`: a folder is packed, an
    /// archive unpacked. None when there is no such entry.
    pub fn select_playlist(&self, idx: usize) -> (r: Option<Operation>)
        ensures
            r is Some <==> idx < self.playlists@.len(),
            r matches Some(op) ==> if self.playlists@[idx as int].is_dir {
                is_zip_op(op, self.dir@, self.playlists@[idx as int].name@)
            } else {
                is_unzip_op(op, self.dir@, self.playlists@[idx as int].name@)
            },
    {
        if idx >= self.playlists.len() {
            return None;
        }
        let entry = &self.playlists[idx];
        if entry.is_dir {
            Some(zip_plan(self.dir.as_str(), entry.name.as_str()))
        } else {
            Some(unzip_plan(self.dir.as_str(), entry.name.as_str()))
        }
    }

    /// How the manager reacts to `action`: a chosen folder is remembered.
    pub open spec fn updated(pre: Manager, action: Action, post: Manager) -> bool {
        match action {
            Action::SelectFolder(d) => post == (Manager { dir: d, ..pre }),
            _ => post == pre,
        }
    }

    /// Applies `action`.
    pub fn update(&mut self, action: &Action)
        ensures
            Manager::updated(*old(self), *action, *final(self)),
    {
        match action {
            Action::SelectFolder(d) => self.dir = d.clone(),
            _ => {},
        }
    }
}

} // verus!
