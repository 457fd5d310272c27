use vstd::prelude::*;

verus! {

/// A build configuration as the server describes it.
#[derive(Debug, Clone, PartialEq, Eq)]
pub struct BuildType {
    pub id: String,
    pub name: String,
    pub description: Option<String>,
    pub project_name: Option<String>,
    pub project_id: Option<String>,
    pub href: Option<String>,
    pub web_url: Option<String>,
    pub kind: Option<String>,
}

/// A page of build configurations.
#[derive(Debug)]
pub struct BuildTypes {
    pub count: u32,
    pub href: Option<String>,
    pub build_type: Vec<BuildType>,
}

/// One change that went into a build.
#[derive(Debug, Clone, PartialEq, Eq)]
pub struct Change {
    pub username: Option<String>,
    pub comment: Option<String>,
}

/// The changes that went into a build.
#[derive(Debug, Clone, PartialEq, Eq)]
pub struct Changes {
    pub change: Option<Vec<Change>>,
}

/// One run (finished, running or queued) of a build configuration.
#[derive(Debug, Clone, PartialEq, Eq)]
pub struct Build {
    pub id: Option<i64>,
    pub build_type_id: Option<String>,
    pub build_number: Option<String>,
    pub status: Option<String>,
    pub state: Option<String>,
    pub href: Option<String>,
    pub web_url: Option<String>,
    pub branch_name: Option<String>,
    pub status_text: Option<String>,
    pub queued_date: Option<String>,
    pub start_date: Option<String>,
    pub finish_date: Option<String>,
    pub changes: Option<Changes>,
}

/// A page of builds.
#[derive(Debug, Clone, PartialEq, Eq)]
pub struct Builds {
    pub count: Option<u32>,
    pub href: Option<String>,
    pub build: Vec<Build>,
}

} // verus!
