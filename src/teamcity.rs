use vstd::prelude::*;

use crate::cache::{fresh_hit, ConfigEntry, PersistentCache, PersistentCacheEntry};
use crate::text::joined;
use types::BuildType;

pub mod types;

verus! {

/// How long fetched build configurations stay in the cache, in seconds.
pub const DEFAULT_TTL_SECONDS: u64 = 3600;

/// The cache key under which one project's build configurations are kept.
pub open spec fn project_key(project_id: Seq<char>) -> Seq<char> {
    "project_"@ + project_id
}

/// The cache key for `project_id`.
pub fn cache_key(project_id: &str) -> (r: String)
    ensures
        r@ == project_key(project_id@),
{
    joined("project_", project_id)
}

/// The cached build configurations of `project_id`, if an entry for it is
/// still valid at `now`; `None` means that they have to be fetched.
pub fn cached_configurations<'a>(cache: &'a PersistentCache, project_id: &str, now: u64) -> (r:
    Option<&'a Vec<BuildType>>)
    ensures
        r is Some <==> fresh_hit(cache@, project_key(project_id@), now as int) is Some,
        r is Some ==> *r.unwrap() == fresh_hit(
            cache@,
            project_key(project_id@),
            now as int,
        ).unwrap().data,
{
    let key = cache_key(project_id);
    match cache.get_fresh(&key, now) {
        Some(entry) => Some(&entry.data),
        None => None,
    }
}

/// Stores freshly fetched build configurations of `project_id`, stamped with
/// `now` and valid for the default lifetime.
pub fn remember_configurations(
    cache: &mut PersistentCache,
    project_id: &str,
    data: Vec<BuildType>,
    now: u64,
)
    ensures
        final(cache)@ == old(cache)@.insert(
            project_key(project_id@),
            PersistentCacheEntry { data, timestamp: now, ttl_seconds: DEFAULT_TTL_SECONDS },
        ),
{
    let key = cache_key(project_id);
    let entry: ConfigEntry = PersistentCacheEntry::new_at(data, DEFAULT_TTL_SECONDS, now);
    cache.insert(key, entry);
}

/// How many builds one history request asks for.
pub const DEFAULT_BUILD_COUNT: u32 = 100;

/// The fields requested for each build configuration.
pub const BUILD_TYPE_FIELDS: &'static str = "count,href,buildType(id,name,type,description,projectName,projectId,href,links,webUrl)";

/// The fields requested for each build.
pub const BUILD_FIELDS: &'static str = "count,build(id,number,branchName,statusText,status,state,webUrl,buildTypeId,startDate,finishDate,changes(change(comment,username)))";

/// The endpoint that lists build configurations.
pub fn build_types_url(base_url: &str) -> (r: String)
    ensures
        r@ == base_url@ + "/app/rest/buildTypes"@,
{
    joined(base_url, "/app/rest/buildTypes")
}

/// The endpoint of one build configuration.
pub fn build_type_url(base_url: &str, build_type_id: &str) -> (r: String)
    ensures
        r@ == base_url@ + "/app/rest/buildTypes/id:"@ + build_type_id@,
{
    let t = joined(base_url, "/app/rest/buildTypes/id:");
    joined(t.as_str(), build_type_id)
}

/// The endpoint that lists builds.
pub fn builds_url(base_url: &str) -> (r: String)
    ensures
        r@ == base_url@ + "/app/rest/builds"@,
{
    joined(base_url, "/app/rest/builds")
}

/// The endpoint that serves a build log as plain text.
pub fn build_log_url(base_url: &str) -> (r: String)
    ensures
        r@ == base_url@ + "/downloadBuildLog.html"@,
{
    joined(base_url, "/downloadBuildLog.html")
}

/// The locator of the build configurations that belong to a project or to
/// its sub-projects.
pub fn affected_project_locator(project_id: &str) -> (r: String)
    ensures
        r@ == "affectedProject:(id:"@ + project_id@ + ")"@,
{
    let t = joined("affectedProject:(id:", project_id);
    joined(t.as_str(), ")")
}

/// The locator of the builds of one configuration.
pub fn build_type_locator(build_type_id: &str) -> (r: String)
    ensures
        r@ == "buildType:"@ + build_type_id@,
{
    joined("buildType:", build_type_id)
}

/// The value of the `Authorization` header for an access token.
pub fn bearer(token: &str) -> (r: String)
    ensures
        r@ == "Bearer "@ + token@,
{
    joined("Bearer ", token)
}

/// Why a request for build configurations could not even start.
#[derive(Debug, Clone, Copy, PartialEq, Eq)]
pub enum ClientError {
    NoProjects,
}

impl ClientError {
    /// A sentence for the user.
    pub fn message(&self) -> (r: String)
        ensures
            r@ == "You need to specify at least one project ID"@,
    {
        String::from_str("You need to specify at least one project ID")
    }
}

/// What one project's fetch came to: its id, and the configurations or a
/// description of the failure.
pub type ProjectOutcome = (String, Result<Vec<BuildType>, String>);

/// The build configurations of several projects, and a line for each project
/// whose fetch failed.
pub struct Aggregate {
    pub build_types: Vec<BuildType>,
    pub failures: Vec<String>,
}

/// The line that reports a failed fetch of one project.
pub open spec fn failure_line(project_id: Seq<char>, error: Seq<char>) -> Seq<char> {
    "Error fetching build types for project "@ + project_id + ": "@ + error
}

/// The configurations of the successful fetches, in fetch order.
pub open spec fn gathered(outcomes: Seq<ProjectOutcome>) -> Seq<BuildType>
    decreases outcomes.len(),
{
    if outcomes.len() == 0 {
        Seq::empty()
    } else {
        gathered(outcomes.drop_last()) + match outcomes.last().1 {
            Ok(v) => v@,
            Err(_) => Seq::empty(),
        }
    }
}

/// The report lines of the failed fetches, in fetch order.
pub open spec fn failure_lines(outcomes: Seq<ProjectOutcome>) -> Seq<Seq<char>>
    decreases outcomes.len(),
{
    if outcomes.len() == 0 {
        Seq::empty()
    } else {
        failure_lines(outcomes.drop_last()) + match outcomes.last().1 {
            Ok(_) => Seq::empty(),
            Err(e) => seq![failure_line(outcomes.last().0@, e@)],
        }
    }
}

/// The views of a list of strings.
pub open spec fn texts(v: Seq<String>) -> Seq<Seq<char>> {
    v.map_values(|s: String| s@)
}

/// Combines the per-project fetches of one request. A failed project only
/// leaves out its own configurations and adds a report line; the request as
/// a whole fails only when no project was asked for.
pub fn collect_configurations(outcomes: Vec<ProjectOutcome>) -> (r: Result<Aggregate, ClientError>)
    ensures
        r is Err <==> outcomes@.len() == 0,
        r is Err ==> r == Err::<Aggregate, ClientError>(ClientError::NoProjects),
        r is Ok ==> r.unwrap().build_types@ == gathered(outcomes@),
        r is Ok ==> texts(r.unwrap().failures@) == failure_lines(outcomes@),
{
    if outcomes.len() == 0 {
        return Err(ClientError::NoProjects);
    }
    let ghost orig = outcomes@;
    let mut rest = outcomes;
    let mut build_types: Vec<BuildType> = Vec::new();
    let mut failures: Vec<String> = Vec::new();
    proof {
        assert(orig.subrange(0, 0) =~= Seq::<ProjectOutcome>::empty());
        assert(rest@ =~= orig.subrange(0, orig.len() as int));
        assert(texts(failures@) =~= Seq::<Seq<char>>::empty());
    }
    while rest.len() > 0
        invariant
            rest@.len() <= orig.len(),
            rest@ == orig.subrange(orig.len() - rest@.len(), orig.len() as int),
            build_types@ == gathered(orig.subrange(0, orig.len() - rest@.len())),
            texts(failures@) == failure_lines(orig.subrange(0, orig.len() - rest@.len())),
        decreases rest.len(),
    {
        let ghost done = orig.len() - rest@.len();
        let (project_id, outcome) = rest.remove(0);
        proof {
            assert(orig.subrange(0, done + 1).drop_last() =~= orig.subrange(0, done));
            assert(orig[done] == (project_id, outcome));
            assert(rest@ =~= orig.subrange(done + 1, orig.len() as int));
        }
        match outcome {
            Ok(v) => {
                let mut v = v;
                build_types.append(&mut v);
                proof {
                    assert(texts(failures@) =~= failure_lines(orig.subrange(0, done))
                        + Seq::<Seq<char>>::empty());
                }
            },
            Err(e) => {
                let line = joined("Error fetching build types for project ", project_id.as_str());
                let line = joined(line.as_str(), ": ");
                let line = joined(line.as_str(), e.as_str());
                let ghost before = failures@;
                failures.push(line);
                proof {
                    assert(texts(failures@) =~= texts(before) + seq![line@]);
                    assert(build_types@ =~= gathered(orig.subrange(0, done)) + Seq::<
                        BuildType,
                    >::empty());
                }
            },
        }
    }
    proof {
        assert(orig.subrange(0, orig.len() as int) =~= orig);
    }
    Ok(Aggregate { build_types, failures })
}

/// Different projects are cached under different keys.
pub proof fn lemma_project_keys_differ(a: Seq<char>, b: Seq<char>)
    requires
        a != b,
    ensures
        project_key(a) != project_key(b),
{
    let p = "project_"@;
    if project_key(a) == project_key(b) {
        assert(a =~= project_key(a).subrange(p.len() as int, project_key(a).len() as int));
        assert(b =~= project_key(b).subrange(p.len() as int, project_key(b).len() as int));
    }
}

/// Fetching one project never touches another's cache entry: storing the
/// first project's configurations leaves what a lookup of the second finds,
/// at any instant, as it was.
pub proof fn lemma_cache_isolation(
    m: Map<Seq<char>, ConfigEntry>,
    a: Seq<char>,
    b: Seq<char>,
    data: Vec<BuildType>,
    now: u64,
    at: int,
)
    requires
        a != b,
    ensures
        project_key(a) != project_key(b),
        fresh_hit(
            m.insert(
                project_key(a),
                PersistentCacheEntry { data, timestamp: now, ttl_seconds: DEFAULT_TTL_SECONDS },
            ),
            project_key(b),
            at,
        ) == fresh_hit(m, project_key(b), at),
{
    lemma_project_keys_differ(a, b);
}

/// With nothing cached a project's configurations must be fetched; once
/// stored, they are served unchanged from the cache until their lifetime is
/// over, so a second load within that window fetches nothing.
pub proof fn lemma_served_within_ttl(
    m: Map<Seq<char>, ConfigEntry>,
    project_id: Seq<char>,
    data: Vec<BuildType>,
    now: u64,
    at: int,
)
    requires
        at <= now + DEFAULT_TTL_SECONDS,
    ensures
        fresh_hit(Map::<Seq<char>, ConfigEntry>::empty(), project_key(project_id), at) is None,
        fresh_hit(
            m.insert(
                project_key(project_id),
                PersistentCacheEntry { data, timestamp: now, ttl_seconds: DEFAULT_TTL_SECONDS },
            ),
            project_key(project_id),
            at,
        ) == Some(
            PersistentCacheEntry { data, timestamp: now, ttl_seconds: DEFAULT_TTL_SECONDS },
        ),
{
}

} // verus!
