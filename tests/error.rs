use commonlib::error::{create_line, display_chain, error_group, indentation, nester, ErrorFmtGroup, ErrorLink, Location};

fn group(elements: &[&str]) -> ErrorFmtGroup {
    ErrorFmtGroup { elements: elements.iter().map(|e| e.to_string()).collect() }
}

#[test]
fn indentation_levels() {
    assert_eq!(indentation(0, true), "");
    assert_eq!(indentation(0, false), "");
    assert_eq!(indentation(1, true), "");
    assert_eq!(indentation(1, false), "    ");
    assert_eq!(indentation(3, true), "        ");
    assert_eq!(indentation(3, false), "            ");
}

#[test]
fn format_two_groups() {
    let lines = commonlib::error::format(vec![group(&["error: a", "at f:1:2"]), group(&["error: b"])]);
    assert_eq!(lines, vec!["error: a", "├╴at f:1:2", "│", "╰─▶ error: b"]);
}

#[test]
fn format_three_groups() {
    let lines = commonlib::error::format(vec![
        group(&["error: a"]),
        group(&["error: b", "at g:3:4"]),
        group(&["error: c", "at h:5:6"]),
    ]);
    assert_eq!(
        lines,
        vec![
            "error: a",
            "╰─▶ error: b",
            "    ├╴at g:3:4",
            "    │",
            "    ╰─▶ error: c",
            "        ╰╴at h:5:6",
        ]
    );
}

#[test]
fn format_empty() {
    assert!(commonlib::error::format(Vec::new()).is_empty());
}

#[test]
fn error_group_elements() {
    let loc = Location::new("src/a.rs".to_string(), "3".to_string(), "9".to_string());
    let g = error_group("bad", Some("io"), Some(&loc));
    assert_eq!(g.elements, vec!["error (io): bad", "at src/a.rs:3:9"]);
    let g = error_group("bad", None, None);
    assert_eq!(g.elements, vec!["error: bad"]);
}

#[test]
fn create_line_at_top_and_nested() {
    assert_eq!(create_line("boom", 0), " \x1b[90m·\x1b[39m \x1b[31mboom\x1b[39m");
    assert_eq!(create_line("boom", 2), "  \x1b[90m|·\x1b[39m \x1b[31mboom\x1b[39m");
}

#[test]
fn chain_lines() {
    let links = vec![
        ErrorLink { category: Some("db".to_string()), message: "query failed".to_string() },
        ErrorLink { category: None, message: "timeout".to_string() },
    ];
    assert_eq!(
        display_chain(&links),
        " \x1b[90m·\x1b[39m \x1b[31m[DB] query failed\x1b[39m\n \x1b[90m|·\x1b[39m \x1b[31mtimeout\x1b[39m"
    );
    assert_eq!(
        nester(&links),
        " \x1b[90m|·\x1b[39m \x1b[31m[DB] query failed\x1b[39m\n  \x1b[90m|·\x1b[39m \x1b[31mtimeout\x1b[39m"
    );
    assert_eq!(display_chain(&Vec::new()), "");
}
