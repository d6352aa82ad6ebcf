use vstd::prelude::*;

verus! {

/// Every event the system reacts to: lifecycle, navigation, screen entry,
/// selection and the results of external operations.
#[derive(Debug, Clone, PartialEq, Eq)]
pub enum Action {
    Tick,
    Render,
    Resize(u16, u16),
    Suspend,
    Resume,
    Quit,
    Refresh,
    Error(String),
    Help,
    MoveUp,
    MoveDown,
    EnterEditing,
    QuitEditing,
    BackHome,
    Save,
    SelectFolder(String),
    EnterDownloader,
    SelectPlaylist(usize),
    EnterManager,
    GetDirs(Vec<String>),
    SelectActivePlaylist(usize),
    Downloading(String),
    DownloadFinished,
}

/// Two actions carry the same value: the same variant with the same payload,
/// a list of names being compared by its contents.
pub open spec fn same_action(a: Action, b: Action) -> bool {
    match (a, b) {
        (Action::GetDirs(x), Action::GetDirs(y)) => x@ == y@,
        _ => a == b,
    }
}

/// `same_action`, lifted to optional actions.
pub open spec fn same_choice(a: Option<Action>, b: Option<Action>) -> bool {
    match (a, b) {
        (Some(x), Some(y)) => same_action(x, y),
        (None, None) => true,
        _ => false,
    }
}

/// A copy of a list of strings, element by element.
pub fn copy_strings(v: &Vec<String>) -> (r: Vec<String>)
    ensures
        r@ == v@,
{
    let mut r: Vec<String> = Vec::new();
    let mut i: usize = 0;
    while i < v.len()
        invariant
            i <= v.len(),
            r@ == v@.subrange(0, i as int),
        decreases v.len() - i,
    {
        r.push(v[i].clone());
        i = i + 1;
    }
    assert(r@ == v@);
    r
}

impl Action {
    /// A copy of this action that carries the same value.
    pub fn duplicate(&self) -> (r: Action)
        ensures
            same_action(r, *self),
    {
        match self {
            Action::Tick => Action::Tick,
            Action::Render => Action::Render,
            Action::Resize(w, h) => Action::Resize(*w, *h),
            Action::Suspend => Action::Suspend,
            Action::Resume => Action::Resume,
            Action::Quit => Action::Quit,
            Action::Refresh => Action::Refresh,
            Action::Error(m) => Action::Error(m.clone()),
            Action::Help => Action::Help,
            Action::MoveUp => Action::MoveUp,
            Action::MoveDown => Action::MoveDown,
            Action::EnterEditing => Action::EnterEditing,
            Action::QuitEditing => Action::QuitEditing,
            Action::BackHome => Action::BackHome,
            Action::Save => Action::Save,
            Action::SelectFolder(p) => Action::SelectFolder(p.clone()),
            Action::EnterDownloader => Action::EnterDownloader,
            Action::SelectPlaylist(i) => Action::SelectPlaylist(*i),
            Action::EnterManager => Action::EnterManager,
            Action::GetDirs(names) => Action::GetDirs(copy_strings(names)),
            Action::SelectActivePlaylist(i) => Action::SelectActivePlaylist(*i),
            Action::Downloading(line) => Action::Downloading(line.clone()),
            Action::DownloadFinished => Action::DownloadFinished,
        }
    }
}

} // verus!
