use t9s::teamcity::types::BuildType;
use t9s::teamcity::{
    affected_project_locator, bearer, build_log_url, build_type_locator, build_type_url,
    build_types_url, builds_url, collect_configurations, ClientError,
};

fn bt(id: &str, name: &str) -> BuildType {
    BuildType {
        id: id.to_string(),
        name: name.to_string(),
        description: None,
        project_name: None,
        project_id: None,
        href: None,
        web_url: None,
        kind: None,
    }
}

#[test]
fn a_failed_project_is_left_out_and_reported() {
    let outcomes = vec![
        ("core".to_string(), Ok(vec![bt("core_a", "A"), bt("core_b", "B")])),
        ("web".to_string(), Err("status 404".to_string())),
        ("mobile".to_string(), Ok(vec![bt("mobile_a", "C")])),
    ];
    let agg = collect_configurations(outcomes).unwrap();
    let ids: Vec<&str> = agg.build_types.iter().map(|b| b.id.as_str()).collect();
    assert_eq!(ids, vec!["core_a", "core_b", "mobile_a"]);
    assert_eq!(agg.failures, vec!["Error fetching build types for project web: status 404".to_string()]);
}

#[test]
fn every_project_failing_still_succeeds_empty() {
    let outcomes = vec![("core".to_string(), Err("down".to_string()))];
    let agg = collect_configurations(outcomes).unwrap();
    assert!(agg.build_types.is_empty());
    assert_eq!(agg.failures.len(), 1);
}

#[test]
fn no_projects_is_an_error() {
    let r = collect_configurations(vec![]);
    assert!(matches!(r, Err(ClientError::NoProjects)));
    assert_eq!(ClientError::NoProjects.message(), "You need to specify at least one project ID");
}

#[test]
fn request_addresses() {
    let base = "https://tc.example.com";
    assert_eq!(build_types_url(base), "https://tc.example.com/app/rest/buildTypes");
    assert_eq!(build_type_url(base, "X_Y"), "https://tc.example.com/app/rest/buildTypes/id:X_Y");
    assert_eq!(builds_url(base), "https://tc.example.com/app/rest/builds");
    assert_eq!(build_log_url(base), "https://tc.example.com/downloadBuildLog.html");
    assert_eq!(affected_project_locator("Core"), "affectedProject:(id:Core)");
    assert_eq!(build_type_locator("Core_Build"), "buildType:Core_Build");
    assert_eq!(bearer("abc"), "Bearer abc");
}
