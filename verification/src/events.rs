//! The messages a fetch task sends to the UI loop, the keys the UI loop
//! accepts, and how both drive the application state.
//!
//! Each spawned fetch is tagged with the fetch generation current at spawn
//! time; [`App::apply_message`] discards any message whose tag no longer
//! matches, so a superseded fetch can never overwrite a fresher state.

use vstd::prelude::*;

use crate::state::is_error_of;
use crate::state::is_progress_update_of;
use crate::state::is_refresh_of;
use crate::state::is_stories_install_of;
use crate::state::moved_selection;
use crate::state::spec_next_selected;
use crate::state::spec_previous_selected;
use crate::state::App;
use crate::state::AppState;
use crate::story::Story;

verus! {

/// What a fetch task reports back to the UI loop.
#[derive(Debug)]
pub enum AppMessage {
    /// A progress value, from 0 to 100.
    Progress(u16),
    /// The fetch completed; here is the resolved story list.
    StoriesLoaded(Vec<Story>),
    /// The fetch failed outright, with a human-readable message.
    Error(String),
}

/// A message tagged with the generation of the fetch that sent it.
#[derive(Debug)]
pub struct Envelope {
    /// The fetch generation current when the sending task was spawned.
    pub generation: u64,
    /// The report itself.
    pub message: AppMessage,
}

/// A key press, as the UI loop classifies it.
#[derive(Debug, Clone, Copy, PartialEq, Eq)]
pub enum Key {
    /// Move the selection towards the start of the list.
    Up,
    /// Move the selection towards the end of the list.
    Down,
    /// Open the selected story's link.
    Enter,
    /// Discard the current screen and fetch anew; also the retry key.
    Refresh,
    /// Leave the program.
    Quit,
    /// Any other key; always ignored.
    Other,
}

/// What the UI loop must do after a key was handled.
#[derive(Debug, Clone, PartialEq, Eq)]
pub enum Action {
    /// Nothing beyond the state change already applied.
    Idle,
    /// Terminate the program.
    Quit,
    /// Spawn a fresh fetch task, tagged with the current generation.
    SpawnFetch,
    /// Hand this link to the external opener.
    OpenLink(String),
}

/// The action an open-selected command yields: the selected story's link,
/// when there is a selected story and its link is present and non-empty;
/// otherwise nothing.
pub open spec fn spec_open_action(a: App) -> Action {
    match a.spec_selected_story() {
        Some(s) => match s.url {
            Some(u) => if u@.len() > 0 {
                Action::OpenLink(u)
            } else {
                Action::Idle
            },
            None => Action::Idle,
        },
        None => Action::Idle,
    }
}

/// A refresh outdates every message of the superseded fetch: whatever was
/// still unread carries the old generation tag, so [`App::apply_message`]
/// leaves the freshly reset state untouched by it.
pub proof fn lemma_refresh_outdates_messages(prev: App, cur: App, env: Envelope)
    requires
        is_refresh_of(cur, prev),
        env.generation == prev.generation,
    ensures
        env.generation != cur.generation,
{
}

impl App {
    /// Applies one drained message. A message whose generation tag does not
    /// match the current fetch generation is stale — its sender was
    /// superseded by a refresh — and leaves the state exactly as it was.
    pub fn apply_message(&mut self, env: Envelope)
        requires
            old(self).wf(),
        ensures
            final(self).wf(),
            env.generation != old(self).generation ==> *final(self) == *old(self),
            env.generation == old(self).generation ==> (match env.message {
                AppMessage::Progress(p) => is_progress_update_of(*final(self), *old(self), p),
                AppMessage::StoriesLoaded(l) => is_stories_install_of(*final(self), *old(self), l),
                AppMessage::Error(m) => is_error_of(*final(self), *old(self), m),
            }),
    {
        if env.generation != self.generation {
            return ;
        }
        match env.message {
            AppMessage::Progress(p) => self.update_loading_progress(p),
            AppMessage::StoriesLoaded(l) => self.set_stories(l),
            AppMessage::Error(m) => self.set_error(m),
        }
    }

    /// Handles one key press according to the current screen mode.
    ///
    /// Quit works everywhere. Loading accepts nothing else. Error accepts
    /// retry, which resets to Loading and asks for a new fetch. Stories
    /// accepts selection moves, open-selected and refresh. Every other key is
    /// ignored.
    pub fn handle_key(&mut self, key: Key) -> (a: Action)
        requires
            old(self).wf(),
            old(self).generation < u64::MAX,
        ensures
            final(self).wf(),
            key == Key::Quit ==> *final(self) == *old(self) && a == Action::Quit,
            key != Key::Quit && old(self).state == AppState::Loading ==> *final(self) == *old(
                self,
            ) && a == Action::Idle,
            key == Key::Refresh && old(self).state != AppState::Loading ==> is_refresh_of(
                *final(self),
                *old(self),
            ) && a == Action::SpawnFetch,
            (old(self).state matches AppState::Error(_)) && key != Key::Quit && key != Key::Refresh
                ==> *final(self) == *old(self) && a == Action::Idle,
            old(self).state == AppState::Stories ==> (match key {
                Key::Up => moved_selection(
                    *final(self),
                    *old(self),
                    spec_previous_selected(*old(self)),
                ) && a == Action::Idle,
                Key::Down => moved_selection(
                    *final(self),
                    *old(self),
                    spec_next_selected(*old(self)),
                ) && a == Action::Idle,
                Key::Enter => *final(self) == *old(self) && a == spec_open_action(*old(self)),
                Key::Other => *final(self) == *old(self) && a == Action::Idle,
                Key::Refresh => true,
                Key::Quit => true,
            }),
    {
        match key {
            Key::Quit => Action::Quit,
            Key::Refresh => {
                match self.state {
                    AppState::Loading => Action::Idle,
                    _ => {
                        self.begin_refresh();
                        Action::SpawnFetch
                    },
                }
            },
            Key::Down => {
                match self.state {
                    AppState::Stories => {
                        self.next();
                        Action::Idle
                    },
                    _ => Action::Idle,
                }
            },
            Key::Up => {
                match self.state {
                    AppState::Stories => {
                        self.previous();
                        Action::Idle
                    },
                    _ => Action::Idle,
                }
            },
            Key::Enter => {
                match self.state {
                    AppState::Stories => {
                        match self.selected_story() {
                            Some(story) => {
                                match &story.url {
                                    Some(u) => {
                                        if !u.as_str().is_empty() {
                                            Action::OpenLink(u.clone())
                                        } else {
                                            Action::Idle
                                        }
                                    },
                                    None => Action::Idle,
                                }
                            },
                            None => Action::Idle,
                        }
                    },
                    _ => Action::Idle,
                }
            },
            Key::Other => Action::Idle,
        }
    }
}

} // verus!
