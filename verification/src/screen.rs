//! The controller-visible state of the active screens. The screens' widget
//! internals are collaborators outside this crate; of the three screens,
//! only the main screen is handed data by the controller (its playlist),
//! so that is all the model holds. The login and help screens carry no
//! controller-visible state and live wholly with the shell.

use vstd::prelude::*;

verus! {

/// Model of the main screen: the name of the playlist it was loaded with,
/// if any. A freshly constructed main screen holds none.
pub struct MainScreenView {
    pub playlist_name: Option<Seq<char>>,
}

/// The main screen's controller-visible state.
pub struct MainScreen {
    pub playlist_name: Option<String>,
}

impl View for MainScreen {
    type V = MainScreenView;

    open spec fn view(&self) -> MainScreenView {
        MainScreenView {
            playlist_name: match self.playlist_name {
                Some(ref s) => Some(s@),
                None => None,
            },
        }
    }
}

impl MainScreen {
    /// A freshly constructed main screen, not yet loaded with a playlist.
    pub fn new() -> (s: MainScreen)
        ensures
            s@.playlist_name is None,
    {
        MainScreen { playlist_name: None }
    }

    /// Loads the screen's model with the user's playlist.
    pub fn update_playlist_model(&mut self, playlist_name: String)
        ensures
            final(self)@.playlist_name == Some(playlist_name@),
    {
        self.playlist_name = Some(playlist_name);
    }
}

} // verus!
