use t9s::action::Action;
use t9s::app::{builds_fetched, App, Control, Effect, Event, Mode, Screen};
use t9s::cache::PersistentCache;
use t9s::components::Key;
use t9s::teamcity::types::{Build, BuildType};
use t9s::teamcity::{cached_configurations, remember_configurations};

fn bt(id: &str, name: &str) -> BuildType {
    BuildType {
        id: id.to_string(),
        name: name.to_string(),
        description: None,
        project_name: None,
        project_id: None,
        href: None,
        web_url: None,
        kind: None,
    }
}

fn build(id: i64, number: &str, type_id: &str) -> Build {
    Build {
        id: Some(id),
        build_type_id: Some(type_id.to_string()),
        build_number: Some(number.to_string()),
        status: None,
        state: None,
        href: None,
        web_url: None,
        branch_name: None,
        status_text: None,
        queued_date: None,
        start_date: None,
        finish_date: None,
        changes: None,
    }
}

fn started(list: Vec<BuildType>) -> App {
    let mut app = App::new(list);
    app.init();
    app
}

#[test]
fn starts_on_the_project_list() {
    let app = started(vec![bt("auth", "Auth")]);
    assert_eq!(app.mode(), Mode::Home);
    assert!(!app.should_quit());
    match app.screen() {
        Screen::Projects(p) => assert_eq!(p.selected(), Some(0)),
        Screen::Builds(_) => panic!("expected the project list"),
    }
}

#[test]
fn events_become_queued_actions_in_order() {
    let mut app = started(vec![bt("auth", "Auth")]);
    app.handle_event(Event::Tick);
    app.handle_event(Event::Resize(80, 24));
    app.handle_event(Event::Key(Key::Char('j')));
    app.handle_event(Event::Key(Key::Ctrl('c')));
    app.handle_event(Event::Other);
    let batch = app.take_pending();
    assert_eq!(
        batch,
        vec![
            Action::Tick,
            Action::Resize(80, 24),
            Action::Render,
            Action::Quit,
            Action::Render
        ]
    );
    assert!(app.pending().is_empty());
}

#[test]
fn quit_and_suspend_flags() {
    let mut app = started(vec![]);
    assert!(app.handle_action(Action::Suspend).is_empty());
    assert!(app.should_suspend());
    assert_eq!(app.after_drain(), Control::Suspend);
    assert_eq!(app.take_pending(), vec![Action::Resume, Action::ClearScreen]);
    app.handle_action(Action::Resume);
    assert_eq!(app.handle_action(Action::ClearScreen), vec![Effect::ClearScreen]);
    assert_eq!(app.after_drain(), Control::Continue);
    app.handle_action(Action::Quit);
    assert_eq!(app.after_drain(), Control::Quit);
}

#[test]
fn resize_render_and_picker_effects() {
    let mut app = started(vec![]);
    assert_eq!(app.handle_action(Action::Resize(10, 5)), vec![Effect::Resize(10, 5), Effect::Render]);
    assert_eq!(app.handle_action(Action::Render), vec![Effect::Render]);
    let options = vec!["a".to_string()];
    assert_eq!(
        app.handle_action(Action::Fzf { options: options.clone() }),
        vec![Effect::RunFzf { options }]
    );
    assert_eq!(
        app.handle_action(Action::OpenUrl { url: "u".to_string() }),
        vec![Effect::OpenUrl { url: "u".to_string() }]
    );
    assert!(app.handle_action(Action::Error("x".to_string())).is_empty());
}

#[test]
fn loading_builds_for_auth_end_to_end() {
    let mut cache = PersistentCache::new();
    let mut fetches = 0;
    let mut writes = 0;
    let configs = match cached_configurations(&cache, "auth", 1000) {
        Some(c) => c.clone(),
        None => {
            fetches += 1;
            let fetched = vec![bt("auth", "auth")];
            remember_configurations(&mut cache, "auth", fetched.clone(), 1000);
            writes += 1;
            fetched
        }
    };
    assert_eq!((fetches, writes), (1, 1));
    if cached_configurations(&cache, "auth", 1000 + 60).is_none() {
        fetches += 1;
    }
    assert_eq!(fetches, 1);

    let mut app = started(configs);
    app.handle_event(Event::Key(Key::Enter));
    let batch = app.take_pending();
    let load = Action::LoadBuilds { project_id: "auth".to_string(), title: "auth".to_string() };
    assert_eq!(batch, vec![load.clone()]);
    let effects = app.handle_action(load);
    assert_eq!(
        effects,
        vec![
            Effect::Render,
            Effect::FetchBuilds { project_id: "auth".to_string(), title: "auth".to_string() }
        ]
    );
    match app.screen() {
        Screen::Builds(b) => {
            assert_eq!(b.title(), "auth");
            assert!(b.items().is_empty());
        }
        Screen::Projects(_) => panic!("expected the build list"),
    }
    let items = vec![build(101, "3.2", "auth")];
    let shown = builds_fetched("auth", "auth".to_string(), Ok(items.clone()));
    assert_eq!(shown, Action::ShowBuilds { title: "auth".to_string(), items: items.clone() });
    assert_eq!(app.handle_action(shown), vec![Effect::Render]);
    match app.screen() {
        Screen::Builds(b) => {
            assert_eq!(b.items(), &items);
            assert_eq!(b.selected(), Some(0));
        }
        Screen::Projects(_) => panic!("expected the build list"),
    }
}

#[test]
fn failed_build_fetch_becomes_an_error_action() {
    let a = builds_fetched("auth", "Auth".to_string(), Err("timeout".to_string()));
    assert_eq!(a, Action::Error("Failed to fetch builds for project auth: timeout".to_string()));
}

#[test]
fn back_to_a_fresh_project_list() {
    let mut app = started(vec![bt("a", "A"), bt("b", "B")]);
    app.handle_event(Event::Key(Key::Char('/')));
    app.handle_event(Event::Key(Key::Char('b')));
    app.handle_event(Event::Key(Key::Enter));
    app.handle_action(Action::ShowBuilds { title: "B".to_string(), items: vec![] });
    assert_eq!(app.handle_action(Action::ShowProjects), vec![Effect::Render]);
    match app.screen() {
        Screen::Projects(p) => {
            assert_eq!(p.filter_string, None);
            assert_eq!(p.row_count(), 2);
            assert_eq!(p.selected(), Some(0));
        }
        Screen::Builds(_) => panic!("expected the project list"),
    }
}

#[test]
fn picks_reach_the_screen_in_the_next_pass() {
    let mut app = started(vec![]);
    app.handle_action(Action::ShowBuilds {
        title: "auth".to_string(),
        items: vec![build(101, "3.2", "auth"), build(102, "3.3", "auth")],
    });
    app.send(Action::FzfSelected { selected: "#102 3.3 [auth]".to_string() });
    for a in app.take_pending() {
        app.handle_action(a);
    }
    match app.screen() {
        Screen::Builds(b) => assert_eq!(b.selected(), Some(1)),
        Screen::Projects(_) => panic!("expected the build list"),
    }
}
