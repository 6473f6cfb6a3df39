use dirrun::config::RunConfig;
use dirrun::listing::{is_hidden, select_subdirectories, DirCandidate};
use dirrun::outcome::ExecutionOutcome;
use dirrun::report::{decide, render, render_completed, Block, Tone};

fn cfg(ignore_errors: bool, quiet: bool) -> RunConfig {
    RunConfig::new("make".to_string(), ignore_errors, quiet)
}

fn done(code: i32, out: &[u8], err: &[u8]) -> ExecutionOutcome {
    ExecutionOutcome::completed(code, out.to_vec(), err.to_vec())
}

#[test]
fn listing_drops_files_and_hidden_entries() {
    let listing = vec![
        DirCandidate::new("./src".to_string(), true),
        DirCandidate::new("./README.md".to_string(), false),
        DirCandidate::new("./.cache".to_string(), true),
        DirCandidate::new("./.hidden_file".to_string(), false),
        DirCandidate::new("./tests".to_string(), true),
        DirCandidate::new("./a.b".to_string(), true),
    ];
    assert_eq!(
        select_subdirectories(&listing),
        vec!["./src".to_string(), "./tests".to_string(), "./a.b".to_string()]
    );
    assert!(select_subdirectories(&Vec::new()).is_empty());
}

#[test]
fn hidden_paths() {
    assert!(is_hidden("./.git"));
    assert!(is_hidden("./."));
    assert!(!is_hidden("./git"));
    assert!(!is_hidden("./"));
    assert!(!is_hidden(".git"));
    assert!(!is_hidden(""));
}

#[test]
fn ignore_errors_never_shows_status_or_stderr() {
    for quiet in [false, true] {
        for code in [0, 1, 2, 127, -1] {
            let r = render(&"./x".to_string(), &done(code, b"out\n", b"warning\n"), &cfg(true, quiet));
            assert!(r.iter().all(|b| !matches!(b, Block::StatusLine(_) | Block::StderrBlock(_))));
            assert!(r.contains(&Block::StdoutBlock("out\n".to_string())));
        }
    }
}

#[test]
fn quiet_hides_banner_only_when_nothing_happened() {
    let r = render(&"./x".to_string(), &done(0, b"", b""), &cfg(true, true));
    assert!(r.is_empty());
    let r = render(&"./x".to_string(), &done(0, b"", b"note\n"), &cfg(true, true));
    assert!(r.is_empty());
    let r = render(&"./x".to_string(), &done(0, b"", b"note\n"), &cfg(false, true));
    assert_eq!(
        r,
        vec![
            Block::Header("./x".to_string()),
            Block::Separator(Tone::Plain),
            Block::StderrBlock("note\n".to_string()),
            Block::Separator(Tone::Warning),
            Block::Blank,
        ]
    );
}

#[test]
fn failure_reported_even_when_quiet() {
    let r = render(&"./x".to_string(), &done(3, b"", b""), &cfg(false, true));
    assert_eq!(r[0], Block::Header("./x".to_string()));
    assert_eq!(r[2], Block::StatusLine(3));
}

#[test]
fn full_report_order() {
    let r = render(&"./x".to_string(), &done(1, b"out", b"err"), &cfg(false, false));
    assert_eq!(
        r,
        vec![
            Block::Header("./x".to_string()),
            Block::Separator(Tone::Plain),
            Block::StatusLine(1),
            Block::Separator(Tone::Warning),
            Block::StdoutBlock("out".to_string()),
            Block::Separator(Tone::Plain),
            Block::StderrBlock("err".to_string()),
            Block::Separator(Tone::Warning),
            Block::Blank,
        ]
    );
}

#[test]
fn same_run_twice_same_report() {
    for (ignore, quiet) in [(false, false), (true, false), (false, true), (true, true)] {
        let a = render(&"./x".to_string(), &done(4, b"a\n", b"b\n"), &cfg(ignore, quiet));
        let b = render(&"./x".to_string(), &done(4, b"a\n", b"b\n"), &cfg(ignore, quiet));
        assert_eq!(a, b);
    }
}

#[test]
fn invalid_utf8_is_replaced() {
    let r = render(&"./x".to_string(), &done(0, b"a\xffb", b""), &cfg(false, false));
    assert_eq!(r[2], Block::StdoutBlock("a\u{FFFD}b".to_string()));
}

#[test]
fn decision_table() {
    let d = decide(&cfg(false, true), true, true, true);
    assert!(!d.header && !d.status && !d.stdout && !d.stderr);
    let d = decide(&cfg(false, true), false, true, true);
    assert!(d.header && d.status && !d.stdout && !d.stderr);
    let d = decide(&cfg(true, false), false, true, false);
    assert!(d.header && !d.status && !d.stdout && !d.stderr);
    let d = decide(&cfg(false, true), true, false, true);
    assert!(d.header && !d.status && d.stdout && !d.stderr);
}

#[test]
fn render_completed_from_text() {
    let r = render_completed(&"./y".to_string(), 0, "hi\n".to_string(), String::new(), &cfg(false, true));
    assert_eq!(
        r,
        vec![
            Block::Header("./y".to_string()),
            Block::Separator(Tone::Plain),
            Block::StdoutBlock("hi\n".to_string()),
            Block::Separator(Tone::Plain),
            Block::Blank,
        ]
    );
    let r = render_completed(&"./y".to_string(), 0, String::new(), String::new(), &cfg(false, false));
    assert_eq!(r, vec![Block::Header("./y".to_string()), Block::Separator(Tone::Plain), Block::Blank]);
}
