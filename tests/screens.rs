use t9s::action::Action;
use t9s::components::builds::{build_row, Builds};
use t9s::components::projects::{icon_for, Projects};
use t9s::components::Key;
use t9s::teamcity::types::{Build, BuildType, Change, Changes};

fn bt(id: &str, name: &str) -> BuildType {
    BuildType {
        id: id.to_string(),
        name: name.to_string(),
        description: None,
        project_name: None,
        project_id: None,
        href: None,
        web_url: None,
        kind: None,
    }
}

fn build(id: i64, number: &str, type_id: &str) -> Build {
    Build {
        id: Some(id),
        build_type_id: Some(type_id.to_string()),
        build_number: Some(number.to_string()),
        status: None,
        state: None,
        href: None,
        web_url: None,
        branch_name: None,
        status_text: None,
        queued_date: None,
        start_date: None,
        finish_date: None,
        changes: None,
    }
}

fn projects(names: &[&str]) -> Projects {
    let list = names.iter().enumerate().map(|(i, n)| bt(&format!("id{i}"), n)).collect();
    let mut p = Projects::new(list);
    p.init();
    p
}

fn type_text(p: &mut Projects, text: &str) {
    p.handle_key_event(Key::Char('/'));
    for c in text.chars() {
        p.handle_key_event(Key::Char(c));
    }
    p.handle_key_event(Key::Enter);
}

#[test]
fn init_selects_the_first_row() {
    let p = projects(&["a", "b"]);
    assert_eq!(p.selected(), Some(0));
    let mut e = Projects::new(vec![]);
    e.init();
    assert_eq!(e.selected(), None);
}

#[test]
fn cursor_wraps_at_both_ends() {
    let mut p = projects(&["a", "b", "c"]);
    p.move_end();
    assert_eq!(p.selected(), Some(2));
    p.move_down();
    assert_eq!(p.selected(), Some(0));
    p.move_up();
    assert_eq!(p.selected(), Some(2));
    p.move_up();
    assert_eq!(p.selected(), Some(1));
    p.move_begin();
    assert_eq!(p.selected(), Some(0));

    let mut b = Builds::new("t".to_string(), vec![build(1, "1", "x"), build(2, "2", "x")]);
    b.init();
    b.handle_key_event(Key::Char('k'));
    assert_eq!(b.selected(), Some(1));
    b.handle_key_event(Key::Down);
    assert_eq!(b.selected(), Some(0));
    b.handle_key_event(Key::Up);
    assert_eq!(b.selected(), Some(1));
}

#[test]
fn empty_lists_never_have_a_selection() {
    let mut p = projects(&[]);
    for k in [Key::Char('j'), Key::Char('k'), Key::Char('G'), Key::Char('g'), Key::Char('g')] {
        p.handle_key_event(k);
        assert_eq!(p.selected(), None);
    }
    let mut b = Builds::new("t".to_string(), vec![]);
    b.init();
    for k in [Key::Down, Key::Up, Key::Char('G'), Key::Char('g'), Key::Char('g')] {
        b.handle_key_event(k);
        assert_eq!(b.selected(), None);
    }
}

#[test]
fn filter_is_case_insensitive_substring() {
    let mut p = projects(&["Auth Service", "Billing", "oauth-proxy"]);
    type_text(&mut p, "AUTH");
    assert_eq!(p.filter_string.as_deref(), Some("auth"));
    assert_eq!(p.row_count(), 2);
    let rows = p.rows();
    assert_eq!(rows[0].id, "id0");
    assert_eq!(rows[1].id, "id2");
    assert_eq!(p.name_header(), "Name (auth)");
}

#[test]
fn filtering_twice_is_filtering_once_and_clearing_restores_all() {
    let mut p = projects(&["Auth Service", "Billing", "oauth-proxy"]);
    type_text(&mut p, "auth");
    let once = p.labels();
    type_text(&mut p, "auth");
    assert_eq!(p.labels(), once);
    assert_eq!(once, vec!["Auth Service (id0)".to_string(), "oauth-proxy (id2)".to_string()]);
    type_text(&mut p, "");
    assert_eq!(p.filter_string, None);
    assert_eq!(p.row_count(), 3);
    assert_eq!(p.name_header(), "Name ");
}

#[test]
fn filter_editing_keys() {
    let mut p = projects(&["abc", "abd"]);
    p.handle_key_event(Key::Char('/'));
    assert!(p.is_editing());
    p.handle_key_event(Key::Char('a'));
    p.handle_key_event(Key::Char('b'));
    p.handle_key_event(Key::Char('x'));
    p.handle_key_event(Key::Backspace);
    p.handle_key_event(Key::Char('\u{7}'));
    p.handle_key_event(Key::Char('d'));
    assert_eq!(p.input_buffer(), "abd");
    p.handle_key_event(Key::Esc);
    assert!(!p.is_editing());
    assert_eq!(p.input_buffer(), "");
    assert_eq!(p.row_count(), 2);
    type_text(&mut p, "abd");
    assert_eq!(p.row_count(), 1);
}

#[test]
fn filter_bounds_navigation() {
    let mut p = projects(&["a1", "b", "a2"]);
    type_text(&mut p, "a");
    p.move_end();
    assert_eq!(p.selected(), Some(1));
    p.move_down();
    assert_eq!(p.selected(), Some(0));
}

#[test]
fn double_g_goes_to_the_top() {
    let mut p = projects(&["a", "b", "c"]);
    p.handle_key_event(Key::Char('G'));
    assert_eq!(p.selected(), Some(2));
    p.handle_key_event(Key::Char('g'));
    assert_eq!(p.selected(), Some(2));
    p.handle_key_event(Key::Char('g'));
    assert_eq!(p.selected(), Some(0));

    let mut b = Builds::new("t".to_string(), vec![build(1, "1", "x"), build(2, "2", "x")]);
    b.init();
    b.handle_key_event(Key::Char('G'));
    b.handle_key_event(Key::Char('g'));
    b.handle_key_event(Key::Char('g'));
    assert_eq!(b.selected(), Some(0));
}

#[test]
fn a_tick_between_the_presses_breaks_double_g() {
    let mut p = projects(&["a", "b", "c"]);
    p.handle_key_event(Key::Char('G'));
    p.handle_key_event(Key::Char('g'));
    assert_eq!(p.update(&Action::Tick), None);
    p.handle_key_event(Key::Char('g'));
    assert_eq!(p.selected(), Some(2));

    let mut b = Builds::new("t".to_string(), vec![build(1, "1", "x"), build(2, "2", "x")]);
    b.init();
    b.handle_key_event(Key::Char('G'));
    b.handle_key_event(Key::Char('g'));
    b.update(&Action::Tick);
    b.handle_key_event(Key::Char('g'));
    assert_eq!(b.selected(), Some(1));
}

#[test]
fn enter_loads_the_builds_of_the_selected_configuration() {
    let mut p = projects(&["Auth", "Billing"]);
    p.move_down();
    assert_eq!(
        p.handle_key_event(Key::Enter),
        Some(Action::LoadBuilds { project_id: "id1".to_string(), title: "Billing".to_string() })
    );
    let mut e = projects(&[]);
    assert_eq!(e.handle_key_event(Key::Enter), Some(Action::Render));
}

#[test]
fn fuzzy_pick_of_a_configuration() {
    let mut p = projects(&["Auth", "Billing", "Deploy"]);
    let options = match p.handle_key_event(Key::Char('f')) {
        Some(Action::Fzf { options }) => options,
        other => panic!("unexpected {other:?}"),
    };
    assert_eq!(options, vec!["Auth (id0)", "Billing (id1)", "Deploy (id2)"]);
    p.update(&Action::FzfSelected { selected: "Deploy (id2)".to_string() });
    assert_eq!(p.selected(), Some(2));
    p.update(&Action::FzfSelected { selected: "Nothing".to_string() });
    assert_eq!(p.selected(), Some(2));
}

#[test]
fn fuzzy_pick_of_a_build() {
    let mut b = Builds::new(
        "auth".to_string(),
        vec![build(101, "3.2", "auth"), build(102, "3.3", "auth")],
    );
    b.init();
    let options = match b.handle_key_event(Key::Char('f')) {
        Some(Action::Fzf { options }) => options,
        other => panic!("unexpected {other:?}"),
    };
    assert_eq!(options, vec!["#101 3.2 [auth]", "#102 3.3 [auth]"]);
    b.update(&Action::FzfSelected { selected: "#102 3.3 [auth]".to_string() });
    assert_eq!(b.selected(), Some(1));
    b.update(&Action::FzfSelected { selected: "#999 9.9 [auth]".to_string() });
    assert_eq!(b.selected(), Some(1));
}

#[test]
fn build_labels_of_missing_and_negative_fields() {
    let mut odd = build(-7, "1", "x");
    odd.build_number = None;
    odd.build_type_id = None;
    let mut none = build(0, "5", "y");
    none.id = None;
    let b = Builds::new("t".to_string(), vec![odd, none]);
    assert_eq!(b.labels(), vec!["#-7  []", "#0 5 [y]"]);
}

#[test]
fn open_and_back_keys() {
    let mut list = vec![bt("a", "A")];
    list[0].web_url = Some("https://tc/a".to_string());
    let mut p = Projects::new(list);
    p.init();
    assert_eq!(p.handle_key_event(Key::Char('o')), Some(Action::OpenUrl { url: "https://tc/a".to_string() }));
    let mut b = Builds::new("t".to_string(), vec![build(1, "1", "x")]);
    b.init();
    assert_eq!(b.handle_key_event(Key::Char('o')), Some(Action::Render));
    assert_eq!(b.handle_key_event(Key::Esc), Some(Action::ShowProjects));
    assert_eq!(b.handle_key_event(Key::Char('h')), Some(Action::ShowProjects));
}

#[test]
fn icons_by_kind() {
    let mut b = bt("a", "A");
    assert_eq!(icon_for(&b), "\u{1f4e6}");
    b.kind = Some("REGULAR".to_string());
    assert_eq!(icon_for(&b), "\u{2699}\u{fe0f}");
    b.kind = Some("Composite".to_string());
    assert_eq!(icon_for(&b), "\u{1f9e9}");
    b.kind = Some("deployment".to_string());
    assert_eq!(icon_for(&b), "\u{1f680}");
    b.kind = Some("other".to_string());
    assert_eq!(icon_for(&b), "\u{1f4e6}");
}

#[test]
fn project_rows_and_footer() {
    let mut list = vec![bt("a", "Alpha"), bt("b", "Beta")];
    list[1].kind = Some("regular".to_string());
    list[1].project_name = Some("Root".to_string());
    let mut p = Projects::new(list);
    assert_eq!(p.footer(), "No project selected");
    p.init();
    assert_eq!(p.footer(), "Root project: N/A");
    p.move_down();
    assert_eq!(p.footer(), "Root project: Root");
    let rows = p.rows();
    assert_eq!(rows[0].name, "\u{1f4e6} Alpha");
    assert_eq!(rows[1].name, "\u{2699}\u{fe0f} Beta");
    assert_eq!(rows[1].id, "b");
}

#[test]
fn build_row_cells() {
    let mut b = build(1, "42", "x");
    b.branch_name = Some("main".to_string());
    b.status = Some("FAILURE".to_string());
    b.start_date = Some("20240131T100000+0000".to_string());
    b.finish_date = Some("20240131T110203+0000".to_string());
    b.changes = Some(Changes { change: Some(vec![Change { username: Some("ann".to_string()), comment: None }]) });
    let r = build_row(&b, 0);
    assert_eq!(r.number, "42");
    assert_eq!(r.branch, "main");
    assert_eq!(r.status, "FAILURE");
    assert_eq!(r.last_changes, "ann: 1");
    assert_eq!(r.start, "31 Jan 10:00");
    assert_eq!(r.duration, "01:02:03");
    assert!(r.failed);

    b.status_text = Some("Tests passed: 10".to_string());
    b.status = Some("SUCCESS".to_string());
    b.finish_date = None;
    let now = 1706695200 + 30;
    let r = build_row(&b, now);
    assert_eq!(r.status, "Tests passed: 10");
    assert_eq!(r.duration, "00:00:30");
    assert!(!r.failed);
    assert_eq!(build_row(&b, 1706695200 - 1).duration, "");
}

#[test]
fn build_row_change_summaries() {
    let mut b = build(1, "1", "x");
    assert_eq!(build_row(&b, 0).last_changes, "No changes");
    b.changes = Some(Changes { change: Some(vec![
        Change { username: None, comment: None },
        Change { username: None, comment: Some("c".to_string()) },
    ]) });
    assert_eq!(build_row(&b, 0).last_changes, "\u{26a0}\u{fe0f} 2 Changes from 0 users");
    b.changes = Some(Changes { change: Some(vec![
        Change { username: Some("a".to_string()), comment: None },
        Change { username: Some("b".to_string()), comment: None },
        Change { username: None, comment: None },
    ]) });
    assert_eq!(build_row(&b, 0).last_changes, "3 Changes");
    b.status = Some("UNKNOWN".to_string());
    assert!(build_row(&b, 0).failed);
    assert_eq!(build_row(&b, 0).start, "");
    assert_eq!(build_row(&b, 0).duration, "");
}

#[test]
fn builds_screen_rows() {
    let b = Builds::new("t".to_string(), vec![build(1, "7", "x"), build(2, "8", "x")]);
    let rows = b.rows(0);
    assert_eq!(rows.len(), 2);
    assert_eq!(rows[1].number, "8");
    assert_eq!(b.title(), "t");
    assert_eq!(b.items().len(), 2);
}
