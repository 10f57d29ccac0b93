//! The application state: the resolved story list, the selection cursor and
//! the screen mode, with the pure transition operations that drive them.
//!
//! Each transition is described by a relation between the state before and
//! after it; the message and key handlers in [`crate::events`] promise the
//! same relations, so one statement covers both paths.

use vstd::prelude::*;

use crate::story::Story;

verus! {

/// The discrete screen mode governing which inputs are accepted and what is
/// rendered.
#[derive(Debug, Clone, PartialEq, Eq)]
pub enum AppState {
    /// A fetch is in flight; the loading progress is displayed.
    Loading,
    /// The story list is displayed and navigable.
    Stories,
    /// A fatal fetch failure is displayed, with its message.
    Error(String),
}

/// The application state.
///
/// The selection cursor saturates at both ends: it never wraps, never goes
/// past the last story, and stays at zero while the list is empty. That is
/// the well-formedness condition [`App::wf`], established by [`App::new`] and
/// preserved by every transition operation.
#[derive(Debug)]
pub struct App {
    /// The resolved stories, in rank order.
    pub stories: Vec<Story>,
    /// Index of the currently selected story.
    pub selected: usize,
    /// The current screen mode.
    pub state: AppState,
    /// Loading progress, from 0 to 100.
    pub loading_progress: u16,
    /// Counter distinguishing successive fetch attempts; messages tagged with
    /// an older generation are discarded when drained.
    pub generation: u64,
}

impl App {
    /// The selection cursor stays within `[0, len - 1]`, or at 0 while the
    /// list is empty.
    pub open spec fn wf(self) -> bool {
        if self.stories@.len() == 0 {
            self.selected == 0
        } else {
            (self.selected as int) < self.stories@.len()
        }
    }

    /// What [`App::selected_story`] returns: the story under the cursor, or
    /// nothing when the list is empty or the cursor is out of bounds.
    pub open spec fn spec_selected_story(self) -> Option<Story> {
        if (self.selected as int) < self.stories@.len() {
            Some(self.stories@[self.selected as int])
        } else {
            None
        }
    }

    /// The fresh state: Loading mode, no stories, cursor and progress at zero.
    pub fn new() -> (app: App)
        ensures
            app.wf(),
            app.stories@.len() == 0,
            app.selected == 0,
            app.state == AppState::Loading,
            app.loading_progress == 0,
            app.generation == 0,
    {
        App {
            stories: Vec::new(),
            selected: 0,
            state: AppState::Loading,
            loading_progress: 0,
            generation: 0,
        }
    }

    /// Moves the selection to the next story unless it is already on the last
    /// one; a no-op on an empty list.
    pub fn next(&mut self)
        requires
            old(self).wf(),
        ensures
            final(self).wf(),
            moved_selection(*final(self), *old(self), spec_next_selected(*old(self))),
    {
        if !self.stories.is_empty() && self.selected < self.stories.len() - 1 {
            self.selected = self.selected + 1;
        }
    }

    /// Moves the selection to the previous story unless it is already on the
    /// first one.
    pub fn previous(&mut self)
        requires
            old(self).wf(),
        ensures
            final(self).wf(),
            moved_selection(*final(self), *old(self), spec_previous_selected(*old(self))),
    {
        if self.selected > 0 {
            self.selected = self.selected - 1;
        }
    }

    /// The story under the cursor, or nothing when the list is empty or the
    /// cursor is out of bounds (defensive: the latter cannot occur in a
    /// well-formed state).
    pub fn selected_story(&self) -> (r: Option<&Story>)
        ensures
            match r {
                Some(s) => self.spec_selected_story() == Some(*s),
                None => self.spec_selected_story() is None,
            },
    {
        if self.selected < self.stories.len() {
            Some(&self.stories[self.selected])
        } else {
            None
        }
    }

    /// Installs a new story list, resets the selection to the first story and
    /// enters Stories mode.
    pub fn set_stories(&mut self, stories: Vec<Story>)
        ensures
            final(self).wf(),
            is_stories_install_of(*final(self), *old(self), stories),
    {
        self.stories = stories;
        self.state = AppState::Stories;
        self.selected = 0;
    }

    /// Enters Error mode with the given message, leaving the story list and
    /// cursor untouched.
    pub fn set_error(&mut self, error: String)
        requires
            old(self).wf(),
        ensures
            final(self).wf(),
            is_error_of(*final(self), *old(self), error),
    {
        self.state = AppState::Error(error);
    }

    /// Stores the progress value, clamped to 100, while in Loading mode;
    /// ignored in any other mode so a finished screen is never overwritten by
    /// a stale progress report.
    pub fn update_loading_progress(&mut self, progress: u16)
        requires
            old(self).wf(),
        ensures
            final(self).wf(),
            is_progress_update_of(*final(self), *old(self), progress),
    {
        match self.state {
            AppState::Loading => {
                self.loading_progress = if progress <= 100 {
                    progress
                } else {
                    100
                };
            },
            _ => {},
        }
    }

    /// Discards the current story list, resets the cursor and the progress,
    /// re-enters Loading mode, and moves to the next fetch generation so that
    /// messages from any superseded fetch are discarded on arrival.
    pub fn begin_refresh(&mut self)
        requires
            old(self).generation < u64::MAX,
        ensures
            final(self).wf(),
            is_refresh_of(*final(self), *old(self)),
    {
        self.stories = Vec::new();
        self.selected = 0;
        self.state = AppState::Loading;
        self.loading_progress = 0;
        self.generation = self.generation + 1;
    }
}

/// Where the cursor lands after a move towards the end of the list: one
/// further, unless the list is empty or the cursor is already on the last
/// story.
pub open spec fn spec_next_selected(a: App) -> int {
    if a.stories@.len() > 0 && (a.selected as int) < a.stories@.len() - 1 {
        a.selected + 1
    } else {
        a.selected as int
    }
}

/// Where the cursor lands after a move towards the start of the list: one
/// back, unless it is already on the first story.
pub open spec fn spec_previous_selected(a: App) -> int {
    if a.selected > 0 {
        a.selected - 1
    } else {
        0
    }
}

/// Relates a state to its predecessor when only the selection cursor moved,
/// to the given index.
pub open spec fn moved_selection(new: App, prev: App, sel: int) -> bool {
    &&& new.selected == sel
    &&& new.stories == prev.stories
    &&& new.state == prev.state
    &&& new.loading_progress == prev.loading_progress
    &&& new.generation == prev.generation
}

/// Relates the state after a wholesale story-list install to the one before:
/// the new list is in place, the cursor is on its first story, and the screen
/// is in Stories mode.
pub open spec fn is_stories_install_of(new: App, prev: App, stories: Vec<Story>) -> bool {
    &&& new.stories == stories
    &&& new.selected == 0
    &&& new.state == AppState::Stories
    &&& new.loading_progress == prev.loading_progress
    &&& new.generation == prev.generation
}

/// Relates the state after a fatal fetch failure to the one before: Error
/// mode with the given message, everything else untouched.
pub open spec fn is_error_of(new: App, prev: App, error: String) -> bool {
    &&& new.state == AppState::Error(error)
    &&& new.stories == prev.stories
    &&& new.selected == prev.selected
    &&& new.loading_progress == prev.loading_progress
    &&& new.generation == prev.generation
}

/// Relates the state after a progress report to the one before: the value is
/// stored clamped to 100 while in Loading mode and ignored in any other
/// mode, everything else untouched.
pub open spec fn is_progress_update_of(new: App, prev: App, progress: u16) -> bool {
    &&& new.loading_progress == (if prev.state == AppState::Loading {
        if progress <= 100 {
            progress
        } else {
            100u16
        }
    } else {
        prev.loading_progress
    })
    &&& new.stories == prev.stories
    &&& new.selected == prev.selected
    &&& new.state == prev.state
    &&& new.generation == prev.generation
}

/// Relates the state right after a refresh (or retry) to the state before it:
/// Loading mode, nothing listed, progress reset, and the fetch generation
/// advanced by one.
pub open spec fn is_refresh_of(new: App, prev: App) -> bool {
    &&& new.stories@.len() == 0
    &&& new.selected == 0
    &&& new.state == AppState::Loading
    &&& new.loading_progress == 0
    &&& new.generation == prev.generation + 1
}

/// The selection invariant, spelled out: in a well-formed state the cursor
/// never leaves `[0, len - 1]`, and stays at zero while the list is empty.
/// [`App::new`] establishes well-formedness and every transition operation
/// preserves it, so no sequence of selection moves can drive the cursor out
/// of bounds.
pub proof fn lemma_selection_bounds(a: App)
    requires
        a.wf(),
    ensures
        a.stories@.len() == 0 ==> a.selected == 0,
        a.stories@.len() > 0 ==> (a.selected as int) <= a.stories@.len() - 1,
{
}

/// Replacing the story list and then reading the current selection yields the
/// first story of the new list when it is non-empty, and nothing when it is
/// empty.
pub proof fn lemma_replace_then_select(app: App, l: Seq<Story>)
    requires
        app.stories@ == l,
        app.selected == 0,
    ensures
        l.len() > 0 ==> app.spec_selected_story() == Some(l[0]),
        l.len() == 0 ==> app.spec_selected_story() is None,
{
}

} // verus!
