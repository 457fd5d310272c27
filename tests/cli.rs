use t9s::cli::{projects_from_input, projects_prompt_default, trim_text, Cli};

#[test]
fn project_lists_are_split_trimmed_and_compacted() {
    assert_eq!(
        projects_from_input(" Core , Web,,  Mobile_App "),
        Some(vec!["Core".to_string(), "Web".to_string(), "Mobile_App".to_string()])
    );
    assert_eq!(projects_from_input("one"), Some(vec!["one".to_string()]));
    assert_eq!(projects_from_input(""), None);
    assert_eq!(projects_from_input("  "), None);
    assert_eq!(projects_from_input(" , ,"), None);
    assert_eq!(projects_from_input("a\tb, c"), Some(vec!["a\tb".to_string(), "c".to_string()]));
}

#[test]
fn trimming_uses_unicode_whitespace() {
    assert_eq!(trim_text("\u{3000} x y \n"), "x y");
    assert_eq!(trim_text("   "), "");
    assert_eq!(trim_text("z"), "z");
}

#[test]
fn prompt_default_joins_with_commas() {
    assert_eq!(projects_prompt_default(&None), None);
    assert_eq!(projects_prompt_default(&Some(vec![])), None);
    assert_eq!(
        projects_prompt_default(&Some(vec!["a".to_string(), "b".to_string(), "c".to_string()])),
        Some("a,b,c".to_string())
    );
}

#[test]
fn missing_settings_come_from_the_config_file() {
    let given = Cli { teamcity_url: Some("https://a".to_string()), token: None, projects: None };
    assert!(given.needs_config());
    let loaded = Cli {
        teamcity_url: Some("https://b".to_string()),
        token: Some("tok".to_string()),
        projects: Some(vec!["P".to_string()]),
    };
    let merged = given.fill_from(loaded);
    assert_eq!(merged.teamcity_url.as_deref(), Some("https://a"));
    assert_eq!(merged.token.as_deref(), Some("tok"));
    assert_eq!(merged.projects, Some(vec!["P".to_string()]));
    assert!(!merged.needs_config());
}
