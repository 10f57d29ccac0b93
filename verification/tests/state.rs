use hn_tui::App;
use hn_tui::AppState;
use hn_tui::Story;

fn story(score: u32, url: Option<&str>) -> Story {
    Story {
        title: format!("story-{}", score),
        url: url.map(|u| u.to_string()),
        score,
        by: "poster".to_string(),
        time: 1_700_000_000,
        descendants: Some(3),
    }
}

#[test]
fn new_app_starts_loading_and_empty() {
    let app = App::new();
    assert!(app.stories.is_empty());
    assert_eq!(app.selected, 0);
    assert_eq!(app.state, AppState::Loading);
    assert_eq!(app.loading_progress, 0);
    assert_eq!(app.generation, 0);
}

#[test]
fn selection_stays_in_bounds() {
    let mut app = App::new();
    app.set_stories(vec![story(1, None), story(2, None), story(3, None)]);
    for _ in 0..5 {
        app.next();
        assert!(app.selected < 3);
    }
    assert_eq!(app.selected, 2);
    for _ in 0..5 {
        app.previous();
    }
    assert_eq!(app.selected, 0);
}

#[test]
fn selection_stays_zero_on_empty_list() {
    let mut app = App::new();
    app.set_stories(Vec::new());
    for _ in 0..4 {
        app.next();
        app.previous();
        assert_eq!(app.selected, 0);
    }
}

#[test]
fn replace_stories_selects_first() {
    let mut app = App::new();
    app.set_stories(vec![story(1, None), story(2, None)]);
    app.next();
    assert_eq!(app.selected, 1);
    let fresh = vec![story(7, None), story(8, None), story(9, None)];
    app.set_stories(fresh);
    assert_eq!(app.state, AppState::Stories);
    assert_eq!(app.selected, 0);
    let chosen = app.selected_story().expect("non-empty list has a selection");
    assert_eq!(chosen.score, 7);
}

#[test]
fn replace_with_empty_list_selects_nothing() {
    let mut app = App::new();
    app.set_stories(Vec::new());
    assert!(app.selected_story().is_none());
}

#[test]
fn empty_stories_mode_is_inert() {
    let mut app = App::new();
    app.set_stories(Vec::new());
    assert_eq!(app.state, AppState::Stories);
    app.next();
    app.previous();
    assert_eq!(app.selected, 0);
    assert!(app.selected_story().is_none());
}

#[test]
fn out_of_bounds_cursor_selects_nothing() {
    // Cannot happen through the transition operations; the read is defensive.
    let mut app = App::new();
    app.set_stories(vec![story(1, None)]);
    app.selected = 5;
    assert!(app.selected_story().is_none());
}

#[test]
fn set_error_keeps_stories_and_cursor() {
    let mut app = App::new();
    app.set_stories(vec![story(1, None), story(2, None)]);
    app.next();
    app.set_error("boom".to_string());
    assert_eq!(app.state, AppState::Error("boom".to_string()));
    assert_eq!(app.stories.len(), 2);
    assert_eq!(app.selected, 1);
}

#[test]
fn progress_is_clamped_to_one_hundred() {
    let mut app = App::new();
    app.update_loading_progress(150);
    assert_eq!(app.loading_progress, 100);
    app.update_loading_progress(42);
    assert_eq!(app.loading_progress, 42);
}

#[test]
fn progress_ignored_outside_loading_mode() {
    let mut app = App::new();
    app.set_stories(vec![story(1, None)]);
    app.update_loading_progress(55);
    assert_eq!(app.loading_progress, 0);
    app.set_error("gone".to_string());
    app.update_loading_progress(77);
    assert_eq!(app.loading_progress, 0);
}
