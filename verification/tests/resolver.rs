//! The static file resolver: fallback order, traversal rejection,
//! and the probe decision rule.

use docrs::paths::SitePath;
use docrs::server::{
    append_to_uri, fs_handler, parse_request_path, request_file, resolve_probes,
    FileRequestStatus, UriParts,
};
use docrs::tree::OutputTree;

fn path(segments: &[&str]) -> SitePath {
    SitePath::from_segments(segments.iter().map(|s| s.to_string()).collect())
}

fn uri(path: &str) -> UriParts {
    UriParts {
        path: path.to_string(),
        query: None,
    }
}

fn root_with_about() -> (OutputTree, SitePath) {
    let root = path(&["site", "build"]);
    let mut tree = OutputTree::new();
    tree.write(path(&["site", "build", "about.html"]), "ABOUT".to_string());
    (tree, root)
}

fn found(status: FileRequestStatus) -> Option<String> {
    match status {
        FileRequestStatus::Found(c) => Some(c),
        _ => None,
    }
}

#[test]
fn parse_splits_and_normalizes() {
    let p = parse_request_path("/a//b/./c/").unwrap();
    assert!(p.same_as(&path(&["a", "b", "c"])));
    let empty = parse_request_path("/").unwrap();
    assert_eq!(empty.len(), 0);
}

#[test]
fn parse_rejects_traversal() {
    assert!(parse_request_path("/../../etc/passwd").is_none());
    assert!(parse_request_path("/a/../b").is_none());
}

#[test]
fn append_to_uri_keeps_the_query() {
    let u = UriParts {
        path: "/about".to_string(),
        query: Some("q=1".to_string()),
    };
    let appended = append_to_uri(&u, ".html");
    assert_eq!(appended.path, "/about.html");
    assert_eq!(appended.query.as_deref(), Some("q=1"));
}

#[test]
fn resolver_serves_about_via_html_fallback() {
    let (tree, root) = root_with_about();
    let r = fs_handler(&tree, &root, &uri("/about"));
    assert_eq!(found(r), Some("ABOUT".to_string()));
}

#[test]
fn resolver_serves_exact_path_first() {
    let (tree, root) = root_with_about();
    let r = fs_handler(&tree, &root, &uri("/about.html"));
    assert_eq!(found(r), Some("ABOUT".to_string()));
}

#[test]
fn resolver_misses_directory_form() {
    let (tree, root) = root_with_about();
    // no about/index.html exists, so the trailing-slash form misses
    let r = fs_handler(&tree, &root, &uri("/about/"));
    assert!(matches!(r, FileRequestStatus::NotFound));
}

#[test]
fn resolver_rejects_traversal() {
    let (tree, root) = root_with_about();
    let r = fs_handler(&tree, &root, &uri("/../../etc/passwd"));
    assert!(matches!(r, FileRequestStatus::NotFound));
}

#[test]
fn resolver_serves_index_for_directory_request() {
    let root = path(&["site", "build"]);
    let mut tree = OutputTree::new();
    tree.write(
        path(&["site", "build", "docs", "index.html"]),
        "DOCS".to_string(),
    );
    let r = fs_handler(&tree, &root, &uri("/docs"));
    assert_eq!(found(r), Some("DOCS".to_string()));
    let r = fs_handler(&tree, &root, &uri("/docs/"));
    assert_eq!(found(r), Some("DOCS".to_string()));
}

#[test]
fn request_file_probes_one_candidate_only() {
    let (tree, root) = root_with_about();
    assert!(matches!(
        request_file(&tree, &root, "/about"),
        FileRequestStatus::NotFound
    ));
    assert_eq!(
        found(request_file(&tree, &root, "/about.html")),
        Some("ABOUT".to_string())
    );
}

#[test]
fn probe_errors_short_circuit_the_fallback() {
    let probes = vec![
        FileRequestStatus::NotFound,
        FileRequestStatus::Error,
        FileRequestStatus::Found("late".to_string()),
    ];
    // the error at position 1 decides; the later hit is never consulted
    assert_eq!(resolve_probes(&probes), Some(1));
    let all_missing = vec![FileRequestStatus::NotFound, FileRequestStatus::NotFound];
    assert_eq!(resolve_probes(&all_missing), None);
    let first_hit = vec![
        FileRequestStatus::Found("hit".to_string()),
        FileRequestStatus::Error,
    ];
    assert_eq!(resolve_probes(&first_hit), Some(0));
}
