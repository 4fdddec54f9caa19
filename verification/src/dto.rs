//! Plain records exchanged with the web dashboard, and how they are built from
//! projects and caches. (Their JSON form is given to them outside the library.)
use vstd::prelude::*;
use crate::cache::{
    cache_cleanup_command, cache_requires_app_closed, cache_type_category, cache_type_description,
    cache_type_icon, cache_type_label, cache_type_name, category_icon, category_label, category_name,
    Cache,
};
use crate::project::{
    project_type_icon, project_type_label, project_type_name, Artifact, Project,
};
use crate::sys::{byte_size_display, byte_size_text};

verus! {

/// API response wrapper
pub struct ApiResponse<T> {
    pub success: bool,
    pub data: Option<T>,
    pub error: Option<String>,
}

impl<T> ApiResponse<T> {
    pub fn success(data: T) -> (r: Self)
        ensures
            r.success,
            r.data == Some(data),
            r.error.is_none(),
    {
        ApiResponse { success: true, data: Some(data), error: None }
    }

    pub fn error(message: String) -> (r: Self)
        ensures
            !r.success,
            r.data.is_none(),
            r.error == Some(message),
    {
        ApiResponse { success: false, data: None, error: Some(message) }
    }
}

/// Status response
pub struct StatusDto {
    pub scanning: bool,
    pub has_results: bool,
    pub last_scan: Option<i64>,
    pub scan_path: Option<String>,
}

/// Project data for JSON serialization
#[derive(Clone)]
pub struct ProjectDto {
    pub id: usize,
    pub name: String,
    pub project_type: String,
    pub type_label: String,
    pub type_icon: String,
    pub path: String,
    pub artifacts: Vec<ArtifactDto>,
    pub total_size: u64,
    pub size_display: String,
    pub last_modified: Option<i64>,
}

/// Artifact data
#[derive(Clone)]
pub struct ArtifactDto {
    pub name: String,
    pub path: String,
    pub size: u64,
    pub size_display: String,
}

/// Cache data for JSON serialization
#[derive(Clone)]
pub struct CacheDto {
    pub id: usize,
    pub cache_type: String,
    pub category: String,
    pub category_label: String,
    pub category_icon: String,
    pub icon: String,
    pub label: String,
    pub description: String,
    pub path: String,
    pub size: u64,
    pub size_display: String,
    pub cleanup_command: Option<String>,
    pub requires_app_closed: Option<String>,
}

/// Largest items for top-10 display
#[derive(Clone)]
pub struct LargestItemDto {
    pub rank: usize,
    pub name: String,
    pub icon: String,
    /// "project" or "cache"
    pub item_type: String,
    pub size: u64,
    pub size_display: String,
    pub path: String,
}

/// Scan request parameters
#[derive(Default)]
pub struct ScanParams {
    pub path: String,
    pub user_caches: bool,
    pub cache_only: bool,
    pub lang: Vec<String>,
    pub cache_category: Vec<String>,
    pub min_age: Option<u64>,
    pub min_size: Option<String>,
}

/// The scan path used when a request names none.
pub fn default_path() -> (r: String)
    ensures
        r@ == "."@,
{
    String::from_str(".")
}

/// Cleanup request
pub struct CleanupRequest {
    pub project_ids: Vec<usize>,
    pub cache_ids: Vec<usize>,
}

/// Cleanup response
pub struct CleanupResponse {
    pub deleted_count: usize,
    pub freed_bytes: u64,
    pub freed_display: String,
    pub errors: Vec<String>,
}

/// Script generation request
pub struct ScriptRequest {
    pub project_ids: Vec<usize>,
    pub cache_ids: Vec<usize>,
}

/// Script generation response
pub struct ScriptResponse {
    pub script: String,
}

/// `d` carries the data of artifact `a`.
pub open spec fn artifact_dto_of(d: ArtifactDto, a: Artifact) -> bool {
    &&& d.name@ == a.name@
    &&& d.path@ == a.path@
    &&& d.size == a.size
    &&& d.size_display@ == byte_size_text(a.size)
}

/// `d` carries the data of project `p` under identifier `id`.
pub open spec fn project_dto_of(d: ProjectDto, p: Project, id: usize) -> bool {
    &&& d.id == id
    &&& d.name@ == p.name@
    &&& d.project_type@ == project_type_name(p.project_type)
    &&& d.type_label@ == project_type_label(p.project_type)
    &&& d.type_icon@ == project_type_icon(p.project_type)
    &&& d.path@ == p.path@
    &&& d.artifacts@.len() == p.artifacts@.len()
    &&& forall|i: int| 0 <= i < d.artifacts@.len() ==> artifact_dto_of(#[trigger] d.artifacts@[i], p.artifacts@[i])
    &&& d.total_size == p.total_size
    &&& d.size_display@ == byte_size_text(p.total_size)
    &&& d.last_modified == p.last_modified
}

/// `d` carries the data of cache `c` under identifier `id`.
pub open spec fn cache_dto_of(d: CacheDto, c: Cache, id: usize) -> bool {
    let t = c.cache_type;
    let cat = cache_type_category(t);
    &&& d.id == id
    &&& d.cache_type@ == cache_type_name(t)
    &&& d.category@ == category_name(cat)
    &&& d.category_label@ == category_label(cat)
    &&& d.category_icon@ == category_icon(cat)
    &&& d.icon@ == cache_type_icon(t)
    &&& d.label@ == cache_type_label(t)
    &&& d.description@ == cache_type_description(t)
    &&& d.path@ == c.path@
    &&& d.size == c.size
    &&& d.size_display@ == byte_size_text(c.size)
    &&& match cache_cleanup_command(t) {
        Some(cmd) => d.cleanup_command matches Some(s) && s@ == cmd.0,
        None => d.cleanup_command.is_none(),
    }
    &&& match cache_requires_app_closed(t) {
        Some(w) => d.requires_app_closed matches Some(s) && s@ == w,
        None => d.requires_app_closed.is_none(),
    }
}

impl ArtifactDto {
    pub fn from_artifact(a: &Artifact) -> (r: Self)
        ensures
            artifact_dto_of(r, *a),
    {
        ArtifactDto {
            name: a.name.clone(),
            path: a.path.clone(),
            size: a.size,
            size_display: a.size_display(),
        }
    }
}

impl ProjectDto {
    pub fn from_project(p: &Project, id: usize) -> (r: Self)
        ensures
            project_dto_of(r, *p, id),
    {
        let mut artifacts: Vec<ArtifactDto> = Vec::new();
        let mut i: usize = 0;
        while i < p.artifacts.len()
            invariant
                0 <= i <= p.artifacts@.len(),
                artifacts@.len() == i,
                forall|t: int| 0 <= t < i ==> artifact_dto_of(#[trigger] artifacts@[t], p.artifacts@[t]),
            decreases p.artifacts@.len() - i,
        {
            artifacts.push(ArtifactDto::from_artifact(&p.artifacts[i]));
            i = i + 1;
        }
        ProjectDto {
            id,
            name: p.name.clone(),
            project_type: String::from_str(p.project_type.variant_name()),
            type_label: String::from_str(p.project_type.label()),
            type_icon: String::from_str(p.project_type.icon()),
            path: p.path.clone(),
            artifacts,
            total_size: p.total_size,
            size_display: p.size_display(),
            last_modified: p.last_modified,
        }
    }
}

impl CacheDto {
    pub fn from_cache(c: &Cache, id: usize) -> (r: Self)
        ensures
            cache_dto_of(r, *c, id),
    {
        let t = c.cache_type;
        let cat = t.category();
        let cleanup_command = match t.cleanup_command() {
            Some((cmd, _)) => Some(String::from_str(cmd)),
            None => None,
        };
        let requires_app_closed = match t.requires_app_closed() {
            Some(w) => Some(String::from_str(w)),
            None => None,
        };
        CacheDto {
            id,
            cache_type: String::from_str(t.variant_name()),
            category: String::from_str(cat.variant_name()),
            category_label: String::from_str(cat.label()),
            category_icon: String::from_str(cat.icon()),
            icon: String::from_str(t.icon()),
            label: String::from_str(t.label()),
            description: String::from_str(t.description()),
            path: c.path.clone(),
            size: c.size,
            size_display: c.size_display(),
            cleanup_command,
            requires_app_closed,
        }
    }
}

/// The project records of a result list, numbered by position.
pub fn project_dtos(projects: &Vec<Project>) -> (r: Vec<ProjectDto>)
    ensures
        r@.len() == projects@.len(),
        forall|i: int| 0 <= i < r@.len() ==> project_dto_of(#[trigger] r@[i], projects@[i], i as usize),
{
    let mut out: Vec<ProjectDto> = Vec::new();
    let mut i: usize = 0;
    while i < projects.len()
        invariant
            0 <= i <= projects@.len(),
            out@.len() == i,
            forall|t: int| 0 <= t < i ==> project_dto_of(#[trigger] out@[t], projects@[t], t as usize),
        decreases projects@.len() - i,
    {
        out.push(ProjectDto::from_project(&projects[i], i));
        i = i + 1;
    }
    out
}

/// The cache records of a result list, numbered by position.
pub fn cache_dtos(caches: &Vec<Cache>) -> (r: Vec<CacheDto>)
    ensures
        r@.len() == caches@.len(),
        forall|i: int| 0 <= i < r@.len() ==> cache_dto_of(#[trigger] r@[i], caches@[i], i as usize),
{
    let mut out: Vec<CacheDto> = Vec::new();
    let mut i: usize = 0;
    while i < caches.len()
        invariant
            0 <= i <= caches@.len(),
            out@.len() == i,
            forall|t: int| 0 <= t < i ==> cache_dto_of(#[trigger] out@[t], caches@[t], t as usize),
        decreases caches@.len() - i,
    {
        out.push(CacheDto::from_cache(&caches[i], i));
        i = i + 1;
    }
    out
}

} // verus!
