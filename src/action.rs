use vstd::prelude::*;

use crate::teamcity::types::Build;

verus! {

/// Every event or command that flows through the dispatch queue.
#[derive(Debug, Clone, PartialEq, Eq)]
pub enum Action {
    Tick,
    Render,
    Resize(u16, u16),
    Suspend,
    Resume,
    Quit,
    ClearScreen,
    Error(String),
    Help,
    Fzf { options: Vec<String> },
    FzfSelected { selected: String },
    Pager { file: String },
    LoadBuilds { project_id: String, title: String },
    ShowBuilds { title: String, items: Vec<Build> },
    LoadBuildLog { build_id: i64 },
    OpenUrl { url: String },
    ShowProjects,
}

} // verus!
