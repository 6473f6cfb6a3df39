use vstd::prelude::*;

use crate::config::RunConfig;
use crate::listing::{selection, DirCandidate};
use crate::outcome::{ExecutionOutcome, OutcomeView};

verus! {

/// The colour class of a report element.
#[derive(PartialEq, Eq, Structural, Clone, Copy, Debug)]
pub enum Tone {
    /// Directory banners.
    Accent,
    /// Neutral separators.
    Plain,
    /// Failure status, standard error and the separators that close them.
    Warning,
}

/// One element of a directory's report, in the order it is written.
#[derive(Debug, PartialEq, Eq)]
pub enum Block {
    /// The directory's banner: its display path.
    Header(String),
    /// A full-width rule, neutral (`Plain`) or closing a failure (`Warning`).
    Separator(Tone),
    /// The command's non-zero exit code.
    StatusLine(i32),
    /// What the command wrote to standard output, as text.
    StdoutBlock(String),
    /// What the command wrote to standard error, as text.
    StderrBlock(String),
    /// The gap left after a directory's report.
    Blank,
    /// Why the command could not be started; written to the error channel.
    LaunchError(String),
}

/// The mathematical value of a [`Block`].
pub enum BlockView {
    Header(Seq<char>),
    Separator(Tone),
    StatusLine(i32),
    StdoutBlock(Seq<char>),
    StderrBlock(Seq<char>),
    Blank,
    LaunchError(Seq<char>),
}

impl View for Block {
    type V = BlockView;

    open spec fn view(&self) -> BlockView {
        match self {
            Block::Header(p) => BlockView::Header(p@),
            Block::Separator(t) => BlockView::Separator(*t),
            Block::StatusLine(c) => BlockView::StatusLine(*c),
            Block::StdoutBlock(t) => BlockView::StdoutBlock(t@),
            Block::StderrBlock(t) => BlockView::StderrBlock(t@),
            Block::Blank => BlockView::Blank,
            Block::LaunchError(e) => BlockView::LaunchError(e@),
        }
    }
}

pub open spec fn blocks_view(v: Seq<Block>) -> Seq<BlockView> {
    v.map_values(|b: Block| b@)
}

/// The text that `String::from_utf8_lossy` makes of a byte sequence.
pub uninterp spec fn lossy_text(b: Seq<u8>) -> Seq<char>;

/// Relies on `String::from_utf8_lossy`: the bytes decoded as UTF-8, each
/// invalid sequence replaced by U+FFFD, so the text is empty exactly when the
/// bytes are.
#[verifier::external_body]
fn decode_lossy(b: &[u8]) -> (r: String)
    ensures
        r@ == lossy_text(b@),
        (b@.len() == 0) == (r@.len() == 0),
{
    String::from_utf8_lossy(b).into_owned()
}

/// Which parts of a completed run's report are written.
pub struct Decision {
    /// The banner and the separator under it.
    pub header: bool,
    /// The status line and its separator.
    pub status: bool,
    /// The standard output block and its separator.
    pub stdout: bool,
    /// The standard error block and its separator.
    pub stderr: bool,
}

/// A failed run whose failure is to be reported.
pub open spec fn reports_failure(succeeded: bool, ignore_errors: bool) -> bool {
    !succeeded && !ignore_errors
}

/// A run that failed reportably, or left output that is shown.
pub open spec fn noteworthy(
    succeeded: bool,
    stdout_empty: bool,
    stderr_empty: bool,
    ignore_errors: bool,
) -> bool {
    reports_failure(succeeded, ignore_errors) || !stdout_empty || (!stderr_empty && !ignore_errors)
}

pub open spec fn decision_spec(
    ignore_errors: bool,
    quiet: bool,
    succeeded: bool,
    stdout_empty: bool,
    stderr_empty: bool,
) -> Decision {
    Decision {
        header: !quiet || noteworthy(succeeded, stdout_empty, stderr_empty, ignore_errors),
        status: reports_failure(succeeded, ignore_errors),
        stdout: !stdout_empty,
        stderr: !stderr_empty && !ignore_errors,
    }
}

/// Decides which parts of a completed run's report are written.
pub fn decide(cfg: &RunConfig, succeeded: bool, stdout_empty: bool, stderr_empty: bool) -> (d:
    Decision)
    ensures
        d == decision_spec(cfg.ignore_errors, cfg.quiet, succeeded, stdout_empty, stderr_empty),
{
    let failure = !succeeded && !cfg.ignore_errors;
    let shows_stderr = !stderr_empty && !cfg.ignore_errors;
    Decision {
        header: !cfg.quiet || failure || !stdout_empty || shows_stderr,
        status: failure,
        stdout: !stdout_empty,
        stderr: shows_stderr,
    }
}

/// The report of a run that exited with `code` and left the texts `out` and
/// `err` on its standard output and standard error.
pub open spec fn completed_report(
    path: Seq<char>,
    code: i32,
    out: Seq<char>,
    err: Seq<char>,
    ignore_errors: bool,
    quiet: bool,
) -> Seq<BlockView> {
    let d = decision_spec(ignore_errors, quiet, code == 0, out.len() == 0, err.len() == 0);
    let head = if d.header {
        seq![BlockView::Header(path), BlockView::Separator(Tone::Plain)]
    } else {
        Seq::empty()
    };
    let status = if d.status {
        seq![BlockView::StatusLine(code), BlockView::Separator(Tone::Warning)]
    } else {
        Seq::empty()
    };
    let stdout = if d.stdout {
        seq![BlockView::StdoutBlock(out), BlockView::Separator(Tone::Plain)]
    } else {
        Seq::empty()
    };
    let stderr = if d.stderr {
        seq![BlockView::StderrBlock(err), BlockView::Separator(Tone::Warning)]
    } else {
        Seq::empty()
    };
    let body = head + status + stdout + stderr;
    if body.len() > 0 {
        body.push(BlockView::Blank)
    } else {
        body
    }
}

/// The report of a run whose shell could not be started.
pub open spec fn launch_report(path: Seq<char>, error: Seq<char>) -> Seq<BlockView> {
    seq![
        BlockView::Header(path),
        BlockView::Separator(Tone::Plain),
        BlockView::LaunchError(error),
    ]
}

/// The report of one directory for an outcome.
pub open spec fn outcome_report(
    path: Seq<char>,
    o: OutcomeView,
    ignore_errors: bool,
    quiet: bool,
) -> Seq<BlockView> {
    match o {
        OutcomeView::Completed { exit_code, stdout, stderr } => completed_report(
            path,
            exit_code,
            lossy_text(stdout),
            lossy_text(stderr),
            ignore_errors,
            quiet,
        ),
        OutcomeView::LaunchFailed { error } => launch_report(path, error),
    }
}

/// Lays out the report of a run that exited with `exit_code`, given the text
/// of what it wrote to standard output and standard error.
pub fn render_completed(
    path: &String,
    exit_code: i32,
    stdout_text: String,
    stderr_text: String,
    cfg: &RunConfig,
) -> (r: Vec<Block>)
    ensures
        blocks_view(r@) == completed_report(
            path@,
            exit_code,
            stdout_text@,
            stderr_text@,
            cfg.ignore_errors,
            cfg.quiet,
        ),
{
    let ghost out = stdout_text@;
    let ghost err = stderr_text@;
    let d = decide(cfg, exit_code == 0, stdout_text.as_str().is_empty(), stderr_text.as_str().is_empty());
    let mut r: Vec<Block> = Vec::new();
    if d.header {
        r.push(Block::Header(path.clone()));
        r.push(Block::Separator(Tone::Plain));
    }
    if d.status {
        r.push(Block::StatusLine(exit_code));
        r.push(Block::Separator(Tone::Warning));
    }
    if d.stdout {
        r.push(Block::StdoutBlock(stdout_text));
        r.push(Block::Separator(Tone::Plain));
    }
    if d.stderr {
        r.push(Block::StderrBlock(stderr_text));
        r.push(Block::Separator(Tone::Warning));
    }
    if r.len() > 0 {
        r.push(Block::Blank);
    }
    assert(blocks_view(r@) =~= completed_report(
        path@,
        exit_code,
        out,
        err,
        cfg.ignore_errors,
        cfg.quiet,
    ));
    r
}

/// Lays out the report of one directory for the outcome of running the
/// command there.
pub fn render(path: &String, outcome: &ExecutionOutcome, cfg: &RunConfig) -> (r: Vec<Block>)
    ensures
        blocks_view(r@) == outcome_report(path@, outcome@, cfg.ignore_errors, cfg.quiet),
        outcome@ matches OutcomeView::Completed { exit_code, stdout, stderr } ==> {
            &&& (lossy_text(stdout).len() == 0) == (stdout.len() == 0)
            &&& (lossy_text(stderr).len() == 0) == (stderr.len() == 0)
            &&& cfg.quiet && exit_code == 0 && stdout.len() == 0 && stderr.len() == 0
                ==> r@.len() == 0
        },
{
    match outcome {
        ExecutionOutcome::Completed { exit_code, stdout, stderr } => {
            let out = decode_lossy(stdout.as_slice());
            let err = decode_lossy(stderr.as_slice());
            render_completed(path, *exit_code, out, err, cfg)
        },
        ExecutionOutcome::LaunchFailed { error } => {
            let r = vec![Block::Header(path.clone()), Block::Separator(Tone::Plain), Block::LaunchError(error.clone())];
            assert(blocks_view(r@) =~= launch_report(path@, error@));
            r
        },
    }
}

/// With errors ignored, a directory's report holds no status line and no
/// standard error block, whatever the exit code and the error output.
pub proof fn lemma_ignored_errors_stay_hidden(path: Seq<char>, o: OutcomeView, quiet: bool)
    ensures
        forall|k: int|
            0 <= k < outcome_report(path, o, true, quiet).len() ==> {
                &&& #[trigger] outcome_report(path, o, true, quiet)[k] !is StatusLine
                &&& outcome_report(path, o, true, quiet)[k] !is StderrBlock
            },
{
    let r = outcome_report(path, o, true, quiet);
    assert forall|k: int| 0 <= k < r.len() implies {
        &&& #[trigger] r[k] !is StatusLine
        &&& r[k] !is StderrBlock
    } by {
        if let OutcomeView::Completed { exit_code, stdout, stderr } = o {
            let out = lossy_text(stdout);
            let err = lossy_text(stderr);
            let d = decision_spec(true, quiet, exit_code == 0, out.len() == 0, err.len() == 0);
            assert(!d.status && !d.stderr);
        }
    }
}

/// In quiet mode, a run that succeeds and writes nothing on either stream
/// leaves no report at all, so no banner either.
pub proof fn lemma_quiet_success_is_silent(
    path: Seq<char>,
    out: Seq<char>,
    err: Seq<char>,
    ignore_errors: bool,
)
    requires
        out.len() == 0,
        err.len() == 0,
    ensures
        completed_report(path, 0, out, err, ignore_errors, true).len() == 0,
{
}

/// A run that exits with a non-zero code, with errors not ignored, always
/// opens its report with the banner and then the status line with that exact
/// code, in quiet mode too.
pub proof fn lemma_failure_always_reported(path: Seq<char>, o: OutcomeView, quiet: bool)
    requires
        o is Completed,
        o->exit_code != 0,
    ensures
        outcome_report(path, o, false, quiet).len() >= 4,
        outcome_report(path, o, false, quiet)[0] == BlockView::Header(path),
        outcome_report(path, o, false, quiet)[2] == BlockView::StatusLine(o->exit_code),
{
}

/// The report is a function of what it is made from: the same listing, the
/// same outcomes and the same flags give the same selection and the same
/// report for each directory.
pub proof fn lemma_same_run_same_report(
    listing1: Seq<DirCandidate>,
    listing2: Seq<DirCandidate>,
    path: Seq<char>,
    o1: OutcomeView,
    o2: OutcomeView,
    cfg1: RunConfig,
    cfg2: RunConfig,
)
    requires
        listing1 == listing2,
        o1 == o2,
        cfg1.ignore_errors == cfg2.ignore_errors,
        cfg1.quiet == cfg2.quiet,
    ensures
        selection(listing1) == selection(listing2),
        outcome_report(path, o1, cfg1.ignore_errors, cfg1.quiet) == outcome_report(
            path,
            o2,
            cfg2.ignore_errors,
            cfg2.quiet,
        ),
{
}

} // verus!
