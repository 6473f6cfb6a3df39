use dirrun::config::RunConfig;
use dirrun::lines::{report_lines, Channel};
use dirrun::listing::{select_subdirectories, DirCandidate};
use dirrun::outcome::ExecutionOutcome;
use dirrun::report::{render, Block, Tone};

fn cfg(ignore_errors: bool, quiet: bool) -> RunConfig {
    RunConfig::new("echo ok".to_string(), ignore_errors, quiet)
}

fn done(code: i32, out: &str, err: &str) -> ExecutionOutcome {
    ExecutionOutcome::completed(code, out.as_bytes().to_vec(), err.as_bytes().to_vec())
}

#[test]
fn scenario_a_hidden_directory_is_skipped() {
    let listing = vec![
        DirCandidate::new("./a".to_string(), true),
        DirCandidate::new("./.git".to_string(), true),
    ];
    let dirs = select_subdirectories(&listing);
    assert_eq!(dirs, vec!["./a".to_string()]);
    let c = cfg(false, false);
    let mut all = Vec::new();
    for d in &dirs {
        all.extend(render(d, &done(0, "ok\n", ""), &c));
    }
    assert_eq!(
        all,
        vec![
            Block::Header("./a".to_string()),
            Block::Separator(Tone::Plain),
            Block::StdoutBlock("ok\n".to_string()),
            Block::Separator(Tone::Plain),
            Block::Blank,
        ]
    );
    let headers = all.iter().filter(|b| matches!(b, Block::Header(_))).count();
    assert_eq!(headers, 1);
}

#[test]
fn scenario_b_failure_shows_status() {
    let r = render(&"./b".to_string(), &done(2, "", ""), &cfg(false, false));
    assert_eq!(
        r,
        vec![
            Block::Header("./b".to_string()),
            Block::Separator(Tone::Plain),
            Block::StatusLine(2),
            Block::Separator(Tone::Warning),
            Block::Blank,
        ]
    );
    let lines = report_lines(&r, &"-".to_string(), false);
    assert_eq!(lines[2].text, "Status: 2");
}

#[test]
fn scenario_c_ignored_failure_keeps_banner_only() {
    let r = render(&"./b".to_string(), &done(2, "", ""), &cfg(true, false));
    assert_eq!(
        r,
        vec![Block::Header("./b".to_string()), Block::Separator(Tone::Plain), Block::Blank]
    );
}

#[test]
fn scenario_d_quiet_silent_success_prints_nothing() {
    let r = render(&"./c".to_string(), &done(0, "", ""), &cfg(false, true));
    assert!(r.is_empty());
    assert!(report_lines(&r, &"-".to_string(), false).is_empty());
}

#[test]
fn scenario_e_launch_failure_always_has_banner() {
    for quiet in [false, true] {
        for ignore in [false, true] {
            let o = ExecutionOutcome::launch_failed("No such file or directory".to_string());
            let r = render(&"./d".to_string(), &o, &cfg(ignore, quiet));
            assert_eq!(
                r,
                vec![
                    Block::Header("./d".to_string()),
                    Block::Separator(Tone::Plain),
                    Block::LaunchError("No such file or directory".to_string()),
                ]
            );
            let lines = report_lines(&r, &"-".to_string(), false);
            assert_eq!(lines[0].text, "./d");
            assert_eq!(lines[0].channel, Channel::Stdout);
            assert_eq!(lines[2].channel, Channel::Stderr);
            assert_eq!(lines[2].text, "Failed to execute command: No such file or directory");
        }
    }
}
