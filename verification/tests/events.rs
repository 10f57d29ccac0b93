use hn_tui::Action;
use hn_tui::App;
use hn_tui::AppMessage;
use hn_tui::AppState;
use hn_tui::Envelope;
use hn_tui::FetchError;
use hn_tui::FetchTask;
use hn_tui::Key;
use hn_tui::Story;

fn story(score: u32, url: Option<&str>) -> Story {
    Story {
        title: format!("story-{}", score),
        url: url.map(|u| u.to_string()),
        score,
        by: "poster".to_string(),
        time: 1_700_000_000,
        descendants: Some(0),
    }
}

#[test]
fn one_failed_item_leaves_the_others_in_order() {
    // The index names three stories; the middle one cannot be fetched, the
    // two others come back with scores 10 and 20.
    let mut task = FetchTask::begin(vec![1, 2, 3]);
    task.record(Some(story(10, None)));
    task.record(None);
    task.record(Some(story(20, None)));
    let mut app = App::new();
    app.apply_message(Envelope {
        generation: 0,
        message: AppMessage::StoriesLoaded(task.finish()),
    });
    assert_eq!(app.state, AppState::Stories);
    let scores: Vec<u32> = app.stories.iter().map(|s| s.score).collect();
    assert_eq!(scores, vec![10, 20]);
    assert_eq!(app.selected, 0);
}

#[test]
fn index_failure_enters_error_mode_and_retry_refetches() {
    let mut app = App::new();
    let message = FetchError::IndexUnavailable("connection timed out".to_string()).message();
    app.apply_message(Envelope {
        generation: 0,
        message: AppMessage::Error(message),
    });
    match &app.state {
        AppState::Error(m) => assert!(!m.is_empty()),
        other => panic!("expected Error mode, found {:?}", other),
    }
    let action = app.handle_key(Key::Refresh);
    assert_eq!(action, Action::SpawnFetch);
    assert_eq!(app.state, AppState::Loading);
    assert_eq!(app.loading_progress, 0);
    assert_eq!(app.generation, 1);
}

#[test]
fn stale_stories_message_cannot_overwrite_a_refresh() {
    let mut app = App::new();
    app.apply_message(Envelope {
        generation: 0,
        message: AppMessage::StoriesLoaded(vec![story(1, None)]),
    });
    assert_eq!(app.state, AppState::Stories);
    // The user refreshes; a stories-loaded message of the superseded fetch
    // is still sitting unread in the channel.
    let action = app.handle_key(Key::Refresh);
    assert_eq!(action, Action::SpawnFetch);
    app.apply_message(Envelope {
        generation: 0,
        message: AppMessage::StoriesLoaded(vec![story(2, None), story(3, None)]),
    });
    assert_eq!(app.state, AppState::Loading);
    assert!(app.stories.is_empty());
    assert_eq!(app.loading_progress, 0);
}

#[test]
fn stale_progress_message_is_discarded() {
    let mut app = App::new();
    app.apply_message(Envelope { generation: 7, message: AppMessage::Progress(50) });
    assert_eq!(app.loading_progress, 0);
    app.apply_message(Envelope { generation: 0, message: AppMessage::Progress(50) });
    assert_eq!(app.loading_progress, 50);
}

#[test]
fn quit_works_in_every_mode() {
    let mut app = App::new();
    assert_eq!(app.handle_key(Key::Quit), Action::Quit);
    app.set_stories(vec![story(1, None)]);
    assert_eq!(app.handle_key(Key::Quit), Action::Quit);
    app.set_error("down".to_string());
    assert_eq!(app.handle_key(Key::Quit), Action::Quit);
}

#[test]
fn loading_mode_accepts_quit_only() {
    let mut app = App::new();
    for key in [Key::Up, Key::Down, Key::Enter, Key::Refresh, Key::Other] {
        assert_eq!(app.handle_key(key), Action::Idle);
        assert_eq!(app.state, AppState::Loading);
        assert_eq!(app.generation, 0);
    }
}

#[test]
fn error_mode_ignores_navigation() {
    let mut app = App::new();
    app.set_stories(vec![story(1, None), story(2, None)]);
    app.set_error("down".to_string());
    for key in [Key::Up, Key::Down, Key::Enter, Key::Other] {
        assert_eq!(app.handle_key(key), Action::Idle);
        assert_eq!(app.state, AppState::Error("down".to_string()));
    }
}

#[test]
fn enter_opens_the_selected_link_when_present() {
    let mut app = App::new();
    app.set_stories(vec![
        story(1, Some("https://example.org/a")),
        story(2, None),
        story(3, Some("")),
    ]);
    assert_eq!(
        app.handle_key(Key::Enter),
        Action::OpenLink("https://example.org/a".to_string())
    );
    app.handle_key(Key::Down);
    assert_eq!(app.handle_key(Key::Enter), Action::Idle);
    app.handle_key(Key::Down);
    assert_eq!(app.handle_key(Key::Enter), Action::Idle);
}

#[test]
fn refresh_from_stories_discards_the_list() {
    let mut app = App::new();
    app.apply_message(Envelope { generation: 0, message: AppMessage::Progress(90) });
    app.apply_message(Envelope {
        generation: 0,
        message: AppMessage::StoriesLoaded(vec![story(1, None), story(2, None)]),
    });
    app.handle_key(Key::Down);
    let action = app.handle_key(Key::Refresh);
    assert_eq!(action, Action::SpawnFetch);
    assert_eq!(app.state, AppState::Loading);
    assert!(app.stories.is_empty());
    assert_eq!(app.selected, 0);
    assert_eq!(app.loading_progress, 0);
    assert_eq!(app.generation, 1);
}

#[test]
fn every_error_variant_yields_a_descriptive_message() {
    let detail = "reason".to_string();
    let variants = [
        FetchError::IndexUnavailable(detail.clone()),
        FetchError::ItemUnavailable(detail.clone()),
        FetchError::OpenLinkFailed(detail.clone()),
        FetchError::TerminalSetupFailed(detail.clone()),
    ];
    let mut messages = Vec::new();
    for v in variants {
        let m = v.message();
        assert!(!m.is_empty());
        assert!(m.ends_with("reason"));
        messages.push(m);
    }
    // The four prefixes tell the failures apart.
    for i in 0..messages.len() {
        for j in 0..messages.len() {
            if i != j {
                assert_ne!(messages[i], messages[j]);
            }
        }
    }
}

#[test]
fn error_message_is_non_empty_even_without_detail() {
    let m = FetchError::IndexUnavailable(String::new()).message();
    assert!(!m.is_empty());
}
