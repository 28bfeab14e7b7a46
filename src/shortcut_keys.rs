use vstd::prelude::*;

verus! {

/// What the shortcut-key handling is doing.
#[derive(Clone, Copy, Debug, PartialEq, Eq, Structural)]
pub enum StateShortcutKeys {
    /// The favourite shortcut was pressed: a capture starts.
    StartScreenGrabber,
    NotBusy,
    /// The user is recording a new favourite shortcut.
    SetFavoriteShortcut,
    /// The keys pressed cannot serve as a shortcut.
    ShortcutNotAvailable,
}

} // verus!
