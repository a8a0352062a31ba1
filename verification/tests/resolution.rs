use pdflens::error::ToolError;
use pdflens::resolve::CanonOutcome;
use pdflens::resolve::PathReference;
use pdflens::resolve::ResolutionQuery;
use pdflens::resolve::classify_reference;
use pdflens::resolve::is_seg_prefix;
use pdflens::resolve::plan_resolution;
use pdflens::resolve::relative_candidate;
use pdflens::resolve::resolve_absolute;
use pdflens::resolve::resolve_relative;
use pdflens::resolve::root_path_from_uri;
use pdflens::roots::RootSet;
use pdflens::roots::next_root_set;
use pdflens::uri::directory_uri_string;
use pdflens::uri::file_uri_string;

fn roots_of(paths: &[&str]) -> RootSet {
    let mut roots = RootSet::new();
    for p in paths {
        roots.insert((*p).to_string());
    }
    roots
}

#[test]
fn classify_file_uri() {
    match classify_reference("file:///home/user/doc.pdf") {
        PathReference::FileUri(p) => assert_eq!(p, "/home/user/doc.pdf"),
        _ => panic!("a file URI must classify as FileUri"),
    }
}

#[test]
fn classify_file_uri_scheme_is_case_insensitive() {
    match classify_reference("FILE:///ws/doc.pdf") {
        PathReference::FileUri(p) => assert_eq!(p, "/ws/doc.pdf"),
        _ => panic!("an upper-case FILE scheme must classify as FileUri"),
    }
}

#[test]
fn classify_percent_encoding_decodes() {
    match classify_reference("file:///my%20ws/a.pdf") {
        PathReference::FileUri(p) => assert_eq!(p, "/my ws/a.pdf"),
        _ => panic!("percent-encoded file URI must decode"),
    }
}

#[test]
fn classify_other_scheme_is_not_a_path() {
    assert!(matches!(classify_reference("http://example.com/x.pdf"), PathReference::OtherUri));
}

#[test]
fn classify_plain_paths() {
    assert!(matches!(classify_reference("/abs/doc.pdf"), PathReference::PlainAbsolute(_)));
    assert!(matches!(classify_reference("./doc.pdf"), PathReference::PlainRelative(_)));
    assert!(matches!(classify_reference("doc.pdf"), PathReference::PlainRelative(_)));
    assert!(matches!(classify_reference("../doc.pdf"), PathReference::PlainRelative(_)));
}

#[test]
fn plan_follows_classification() {
    assert!(matches!(plan_resolution("file:///ws/a.pdf"), ResolutionQuery::Absolute(p) if p == "/ws/a.pdf"));
    assert!(matches!(plan_resolution("/ws/a.pdf"), ResolutionQuery::Absolute(p) if p == "/ws/a.pdf"));
    assert!(matches!(plan_resolution("a.pdf"), ResolutionQuery::Relative(p) if p == "a.pdf"));
    assert!(matches!(plan_resolution("https://ws/a.pdf"), ResolutionQuery::Unresolvable));
}

#[test]
fn segment_prefix_is_segment_aligned() {
    assert!(is_seg_prefix("/root", "/root"));
    assert!(is_seg_prefix("/root", "/root/file.pdf"));
    assert!(!is_seg_prefix("/root", "/root-evil/file.pdf"));
    assert!(!is_seg_prefix("/root", "/roo"));
    assert!(is_seg_prefix("/", "/etc/passwd"));
    assert!(is_seg_prefix("/ws/", "/ws/file.pdf"));
}

#[test]
fn absolute_inside_root_succeeds() {
    let roots = roots_of(&["/ws"]);
    let r = resolve_absolute("/ws/doc.pdf", CanonOutcome::Found("/ws/doc.pdf".to_string()), &roots);
    assert_eq!(r.unwrap(), "/ws/doc.pdf");
}

#[test]
fn absolute_escape_via_dotdot_is_denied() {
    // The caller sent "/ws/../etc/passwd"; the filesystem canonicalized it to
    // "/etc/passwd"; the containment check must run on the canonical path.
    let roots = roots_of(&["/ws"]);
    let r = resolve_absolute(
        "/ws/../etc/passwd",
        CanonOutcome::Found("/etc/passwd".to_string()),
        &roots,
    );
    assert!(matches!(r, Err(ToolError::PermissionDenied(_))));
}

#[test]
fn absolute_symlink_escape_is_denied() {
    // "/ws/link" is a symlink whose canonical target lies outside the root.
    let roots = roots_of(&["/ws"]);
    let r = resolve_absolute("/ws/link", CanonOutcome::Found("/outside/target".to_string()), &roots);
    assert!(matches!(r, Err(ToolError::PermissionDenied(_))));
}

#[test]
fn absolute_sibling_with_root_prefix_is_denied() {
    let roots = roots_of(&["/root"]);
    let r = resolve_absolute("/root-evil/x", CanonOutcome::Found("/root-evil/x".to_string()), &roots);
    assert!(matches!(r, Err(ToolError::PermissionDenied(_))));
}

#[test]
fn absolute_missing_is_not_found() {
    let roots = roots_of(&["/ws"]);
    let r = resolve_absolute("/ws/gone.pdf", CanonOutcome::Missing, &roots);
    match r {
        Err(ToolError::NotFound(m)) => {
            assert_eq!(
                m,
                "File not found: \"/ws/gone.pdf\"\nPlease check the directory listing to confirm the correct path."
            );
        },
        _ => panic!("a missing absolute path must be NotFound"),
    }
}

#[test]
fn absolute_other_io_failure_propagates() {
    let roots = roots_of(&["/ws"]);
    let r = resolve_absolute("/ws/doc.pdf", CanonOutcome::Failed("device gone".to_string()), &roots);
    match r {
        Err(ToolError::Io(m)) => assert_eq!(m, "device gone"),
        _ => panic!("other canonicalization failures must propagate as-is"),
    }
}

#[test]
fn denied_message_lists_roots_as_uris() {
    let roots = roots_of(&["/ws", "/my docs"]);
    let r = resolve_absolute("/etc/passwd", CanonOutcome::Found("/etc/passwd".to_string()), &roots);
    match r {
        Err(ToolError::PermissionDenied(m)) => {
            assert_eq!(
                m,
                "Access denied: \"file:///etc/passwd\"\nThe file is outside the user\u{2019}s current workspace directories:\n* file:///ws/\n* file:///my%20docs/"
            );
        },
        _ => panic!("an outside path must be denied"),
    }
}

#[test]
fn relative_candidate_joins_with_separator() {
    assert_eq!(relative_candidate("/ws", "a/b.pdf"), "/ws/a/b.pdf");
    assert_eq!(relative_candidate("/ws/", "a.pdf"), "/ws/a.pdf");
}

#[test]
fn relative_first_matching_root_wins() {
    let roots = roots_of(&["/a", "/b"]);
    let outcomes = vec![
        CanonOutcome::Found("/a/doc.pdf".to_string()),
        CanonOutcome::Found("/b/doc.pdf".to_string()),
    ];
    assert_eq!(resolve_relative("doc.pdf", &roots, outcomes).unwrap(), "/a/doc.pdf");
}

#[test]
fn relative_missing_root_is_skipped() {
    let roots = roots_of(&["/a", "/b"]);
    let outcomes = vec![CanonOutcome::Missing, CanonOutcome::Found("/b/doc.pdf".to_string())];
    assert_eq!(resolve_relative("doc.pdf", &roots, outcomes).unwrap(), "/b/doc.pdf");
}

#[test]
fn relative_escape_is_skipped_not_fatal() {
    // "../secret.pdf" canonicalizes outside the first root but a second root
    // legitimately contains it.
    let roots = roots_of(&["/ws/inner", "/ws"]);
    let outcomes = vec![
        CanonOutcome::Found("/ws/secret.pdf".to_string()),
        CanonOutcome::Found("/ws/secret.pdf".to_string()),
    ];
    assert_eq!(resolve_relative("../secret.pdf", &roots, outcomes).unwrap(), "/ws/secret.pdf");
}

#[test]
fn relative_escape_everywhere_is_not_found() {
    let roots = roots_of(&["/ws"]);
    let outcomes = vec![CanonOutcome::Found("/etc/passwd".to_string())];
    let r = resolve_relative("../../etc/passwd", &roots, outcomes);
    assert!(matches!(r, Err(ToolError::NotFound(_))));
}

#[test]
fn relative_io_failure_aborts() {
    let roots = roots_of(&["/a", "/b"]);
    let outcomes = vec![CanonOutcome::Failed("disk error".to_string()), CanonOutcome::Missing];
    match resolve_relative("doc.pdf", &roots, outcomes) {
        Err(ToolError::Io(m)) => assert_eq!(m, "disk error"),
        _ => panic!("a hard canonicalization failure must abort the lookup"),
    }
}

#[test]
fn relative_not_found_message_enumerates_roots() {
    let roots = roots_of(&["/ws"]);
    let outcomes = vec![CanonOutcome::Missing];
    match resolve_relative("nope.pdf", &roots, outcomes) {
        Err(ToolError::NotFound(m)) => {
            assert_eq!(
                m,
                "File not found: \"nope.pdf\"\nPlease check the directory listing to confirm the correct path. The path should be either absolute or relative to any of the user\u{2019}s current workspace directories:\n* file:///ws/"
            );
        },
        _ => panic!("an unmatched relative reference must be NotFound"),
    }
}

#[test]
fn relative_with_no_roots_is_not_found() {
    let roots = RootSet::new();
    let r = resolve_relative("doc.pdf", &roots, Vec::new());
    match r {
        Err(ToolError::NotFound(m)) => assert!(m.contains("(empty)")),
        _ => panic!("an empty root set must make every relative lookup NotFound"),
    }
}

#[test]
fn quoting_escapes_unsafe_characters() {
    let roots = roots_of(&["/ws"]);
    let r = resolve_absolute("/ws/a\"b\\c", CanonOutcome::Missing, &roots);
    match r {
        Err(ToolError::NotFound(m)) => {
            assert!(m.starts_with("File not found: \"/ws/a\\\"b\\\\c\"\n"));
        },
        _ => panic!("expected NotFound"),
    }
    let r = resolve_absolute("/ws/a\nb", CanonOutcome::Missing, &roots);
    match r {
        Err(ToolError::NotFound(m)) => {
            assert!(m.starts_with("File not found: \"/ws/a\\nb\"\n"));
        },
        _ => panic!("expected NotFound"),
    }
}

#[test]
fn listed_roots_round_trip_into_the_resolver() {
    // Every root the service lists is itself accepted as a reference: its
    // URI decodes back to a path that canonicalizes to the root, and the
    // containment check accepts a root as a prefix of itself.
    let paths = ["/ws", "/my docs", "/a~b"];
    let roots = roots_of(&paths);
    for (i, p) in paths.iter().enumerate() {
        let uri = directory_uri_string(p);
        // The URI the listing shows decodes back to the root directory.
        let decoded = match classify_reference(&uri) {
            PathReference::FileUri(d) => d,
            _ => panic!("a listed root URI must classify as a file URI"),
        };
        let mut with_slash = (*p).to_string();
        with_slash.push('/');
        assert_eq!(decoded, with_slash);
        // The root directory canonicalizes to itself (roots are canonical);
        // resolution then succeeds against the same root set.
        let r = resolve_absolute(&uri, CanonOutcome::Found((*p).to_string()), &roots);
        assert_eq!(r.unwrap(), paths[i]);
    }
}

#[test]
fn root_candidates_accept_only_file_uris() {
    assert_eq!(root_path_from_uri("file:///ws").unwrap(), "/ws");
    assert_eq!(root_path_from_uri("file:///my%20ws/").unwrap(), "/my ws/");
    assert!(root_path_from_uri("https://example.com/ws").is_none());
    assert!(root_path_from_uri("not a uri").is_none());
}

#[test]
fn file_uri_rendering_escapes() {
    assert_eq!(file_uri_string("/ws/a b.pdf"), "file:///ws/a%20b.pdf");
    assert_eq!(file_uri_string("/ws/100%.pdf"), "file:///ws/100%25.pdf");
    assert_eq!(file_uri_string("/a\nb"), "file:///a%0Ab");
    assert_eq!(file_uri_string("/a\\b?"), "file:///a%5Cb%3F");
    assert_eq!(directory_uri_string("/ws"), "file:///ws/");
    assert_eq!(directory_uri_string("/ws/"), "file:///ws/");
}

#[test]
fn root_set_is_an_ordered_set() {
    let mut roots = RootSet::new();
    roots.insert("/b".to_string());
    roots.insert("/a".to_string());
    roots.insert("/b".to_string());
    assert_eq!(roots.len(), 2);
    assert_eq!(roots.get(0).as_str(), "/b");
    assert_eq!(roots.get(1).as_str(), "/a");
}

#[test]
fn root_candidate_prefers_canonical_path() {
    let mut roots = RootSet::new();
    roots.insert_candidate("/ws/./x".to_string(), Some("/ws/x".to_string()));
    roots.insert_candidate("/gone".to_string(), None);
    assert_eq!(roots.get(0).as_str(), "/ws/x");
    assert_eq!(roots.get(1).as_str(), "/gone");
}

#[test]
fn first_load_falls_back_to_working_directory() {
    let roots = next_root_set(None, None, Some("/cwd".to_string()));
    assert_eq!(roots.len(), 1);
    assert_eq!(roots.get(0).as_str(), "/cwd");
    let roots = next_root_set(None, Some(RootSet::new()), Some("/cwd".to_string()));
    assert_eq!(roots.len(), 1);
    assert_eq!(roots.get(0).as_str(), "/cwd");
    let roots = next_root_set(None, None, None);
    assert!(roots.is_empty());
}

#[test]
fn failed_refresh_preserves_previous_roots() {
    // After the first load, a failed or empty listing never degrades the set.
    let kept = next_root_set(Some(roots_of(&["/ws"])), None, Some("/cwd".to_string()));
    assert_eq!(kept.len(), 1);
    assert_eq!(kept.get(0).as_str(), "/ws");
    let kept = next_root_set(Some(roots_of(&["/ws"])), Some(RootSet::new()), Some("/cwd".to_string()));
    assert_eq!(kept.len(), 1);
    assert_eq!(kept.get(0).as_str(), "/ws");
}

#[test]
fn usable_listing_replaces_the_whole_set() {
    let next = next_root_set(Some(roots_of(&["/old", "/older"])), Some(roots_of(&["/new"])), None);
    assert_eq!(next.len(), 1);
    assert_eq!(next.get(0).as_str(), "/new");
}

#[test]
fn uri_listing_formats_bullets() {
    let roots = roots_of(&["/ws", "/a b"]);
    assert_eq!(roots.as_uri_list(), "* file:///ws/\n* file:///a%20b/");
    assert_eq!(RootSet::new().as_uri_list(), "(empty)");
}
