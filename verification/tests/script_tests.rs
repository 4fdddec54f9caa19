use build_cleaner::cache::{Cache, CacheType};
use build_cleaner::project::{Artifact, Project, ProjectType};
use build_cleaner::script::{cleanup_script, script_action_count, script_total_size};

fn project(name: &str, t: ProjectType, artifacts: &[(&str, u64)]) -> Project {
    let mut p = Project::new(name.to_string(), t, format!("/w/{}", name));
    for (path, size) in artifacts {
        p.add_artifact(Artifact::new(path.to_string(), *size));
    }
    p
}

const RULE: &str = "# ════════════════════════════════════════\n";

#[test]
fn script_groups_items_with_sizes_and_commands() {
    let projects = vec![
        project("cli", ProjectType::Rust, &[("/w/cli/target", 300)]),
        project("app", ProjectType::Node, &[("/w/app/node_modules", 200), ("/w/app/dist", 5)]),
    ];
    let caches = vec![
        Cache::new(CacheType::Docker, "/h/.docker".to_string(), 50),
        Cache::new(CacheType::Npm, "/h/.npm".to_string(), 40),
    ];
    let script = cleanup_script(&projects, &caches, "2024-12-18 15:30:00");
    let expected = String::new()
        + "#!/bin/bash\n# Build Cleaner - Generated Cleanup Script\n# Generated: 2024-12-18 15:30:00\n"
        + "#\n# Review this script before running!\n# Total space to reclaim: 595 B\n\n"
        + "set -e  # Exit on first error\n\n"
        + RULE + "# Node.js Projects (205 B)\n" + RULE + "\n"
        + "# app (205 B)\nrm -rf \"/w/app/node_modules\"\nrm -rf \"/w/app/dist\"\n\n"
        + RULE + "# Rust Projects (300 B)\n" + RULE + "\n"
        + "# cli (300 B)\nrm -rf \"/w/cli/target\"\n\n"
        + RULE + "# Package Manager Caches (40 B)\n" + RULE + "\n"
        + "# npm cache (40 B)\nrm -rf \"/h/.npm\"\n# Official cleanup: npm cache clean --force\n\n"
        + RULE + "# Container (Docker) (50 B)\n" + RULE + "\n"
        + "# Docker system prune\n# Note: This removes ALL unused images, containers, and volumes\n"
        + "docker system prune -a -f\n\n"
        + "echo \"Cleanup complete!\"\n";
    assert_eq!(script, expected);
    assert_eq!(script_total_size(&projects, &caches), 595);
    assert_eq!(script_action_count(&projects, &caches), 5);
}

#[test]
fn script_paths_are_quoted_safely() {
    let projects = vec![project("odd", ProjectType::Go, &[("/w/my \"$HOME\" `x`\\vendor", 1)])];
    let script = cleanup_script(&projects, &Vec::new(), "t");
    assert!(script.contains("rm -rf \"/w/my \\\"\\$HOME\\\" \\`x\\`\\\\vendor\"\n"));
    assert!(script.contains("# Total space to reclaim: 1 B\n"));
}

#[test]
fn empty_selection_has_header_and_footer_only() {
    let script = cleanup_script(&Vec::new(), &Vec::new(), "t");
    assert!(script.starts_with("#!/bin/bash\n"));
    assert!(script.ends_with("set -e  # Exit on first error\n\necho \"Cleanup complete!\"\n"));
    assert!(!script.contains("rm -rf"));
}
