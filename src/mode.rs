use vstd::prelude::*;

verus! {

/// The screen that is currently active. Exactly one value is authoritative
/// at any time; it changes only as the effect of an action.
#[derive(Debug, Clone, Copy, PartialEq, Eq, Structural, Hash)]
pub enum Mode {
    Home,
    Input,
    Waiting,
    Downloader,
    Manager,
    Idle,
    Downloading,
}

impl Default for Mode {
    fn default() -> (r: Mode)
        ensures
            r == Mode::Home,
    {
        Mode::Home
    }
}

} // verus!
