//! Scan progress events and stored scan results of the web dashboard.
use vstd::prelude::*;
use crate::cache::Cache;
use crate::project::Project;
use crate::project::current_time;
use crate::sys::{byte_size_display, byte_size_text};

verus! {

/// Scan progress event
#[derive(Clone, Debug)]
pub struct ScanProgress {
    /// Current directory being scanned
    pub current_path: String,
    /// Number of projects found so far
    pub projects_found: usize,
    /// Number of caches found so far
    pub caches_found: usize,
    /// Total size found so far
    pub total_size: u64,
    /// Whether scanning is complete
    pub complete: bool,
    /// Optional message (e.g., "Found Node.js project: my-app")
    pub message: Option<String>,
}

/// "Found {type} project: {name} ({size})".
pub open spec fn found_project_text(project_type: Seq<char>, name: Seq<char>, size: u64) -> Seq<char> {
    "Found "@ + project_type + " project: "@ + name + " ("@ + byte_size_text(size) + ")"@
}

impl ScanProgress {
    pub fn scanning(path: &str) -> (r: Self)
        ensures
            r.current_path@ == path@,
            r.projects_found == 0,
            r.caches_found == 0,
            r.total_size == 0,
            !r.complete,
            r.message.is_none(),
    {
        ScanProgress {
            current_path: String::from_str(path),
            projects_found: 0,
            caches_found: 0,
            total_size: 0,
            complete: false,
            message: None,
        }
    }

    pub fn found_project(
        path: &str,
        project_name: &str,
        project_type: &str,
        size: u64,
        count: usize,
        total: u64,
    ) -> (r: Self)
        ensures
            r.current_path@ == path@,
            r.projects_found == count,
            r.caches_found == 0,
            r.total_size == total,
            !r.complete,
            r.message matches Some(m) && m@ == found_project_text(project_type@, project_name@, size),
    {
        let mut m = String::from_str("Found ");
        m.append(project_type);
        m.append(" project: ");
        m.append(project_name);
        m.append(" (");
        let sz = byte_size_display(size);
        m.append(sz.as_str());
        m.append(")");
        ScanProgress {
            current_path: String::from_str(path),
            projects_found: count,
            caches_found: 0,
            total_size: total,
            complete: false,
            message: Some(m),
        }
    }

    pub fn complete(projects: usize, caches: usize, total: u64) -> (r: Self)
        ensures
            r.current_path@ == Seq::<char>::empty(),
            r.projects_found == projects,
            r.caches_found == caches,
            r.total_size == total,
            r.complete,
            r.message matches Some(m) && m@ == "Scan complete!"@,
    {
        ScanProgress {
            current_path: String::new(),
            projects_found: projects,
            caches_found: caches,
            total_size: total,
            complete: true,
            message: Some(String::from_str("Scan complete!")),
        }
    }
}

/// Results from a scan operation
#[derive(Clone)]
pub struct ScanResults {
    pub projects: Vec<Project>,
    pub caches: Vec<Cache>,
    pub scan_path: String,
    pub scan_time: i64,
}

impl ScanResults {
    /// Results of a scan, stamped with the current time.
    pub fn new(projects: Vec<Project>, caches: Vec<Cache>, scan_path: String) -> (r: Self)
        ensures
            r.projects@ == projects@,
            r.caches@ == caches@,
            r.scan_path@ == scan_path@,
    {
        ScanResults { projects, caches, scan_path, scan_time: current_time() }
    }
}

} // verus!
