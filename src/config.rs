use vstd::prelude::*;
use vstd::string::*;

verus! {

/// Width of a separator when the output is not an interactive terminal, or
/// when the terminal's width cannot be found.
pub const DEFAULT_SEPARATOR_WIDTH: usize = 50;

/// The character a separator is drawn with (a box-drawing horizontal line).
pub open spec fn rule_char() -> char {
    '\u{2500}'
}

/// A separator of `width` characters.
pub open spec fn rule_of(width: nat) -> Seq<char> {
    Seq::new(width, |i: int| rule_char())
}

/// What a run is asked to do; built once and only read afterwards.
pub struct RunConfig {
    /// The shell command run in every subdirectory.
    pub command: String,
    /// Leave non-zero exit statuses and standard error out of the report.
    pub ignore_errors: bool,
    /// Leave out the banner of a directory where nothing noteworthy happened.
    pub quiet: bool,
}

impl RunConfig {
    pub fn new(command: String, ignore_errors: bool, quiet: bool) -> (r: RunConfig)
        ensures
            r.command@ == command@,
            r.ignore_errors == ignore_errors,
            r.quiet == quiet,
    {
        RunConfig { command, ignore_errors, quiet }
    }
}

/// The width a separator is drawn with: the terminal's width where the output
/// is interactive and the width is known, the default width otherwise.
pub open spec fn width_spec(interactive: bool, detected: Option<u16>) -> nat {
    match detected {
        Some(w) if interactive => w as nat,
        _ => DEFAULT_SEPARATOR_WIDTH as nat,
    }
}

pub fn separator_width(interactive: bool, detected: Option<u16>) -> (r: usize)
    ensures
        r as nat == width_spec(interactive, detected),
{
    match detected {
        Some(w) if interactive => w as usize,
        _ => DEFAULT_SEPARATOR_WIDTH,
    }
}

/// Draws a separator `width` characters wide.
pub fn separator_rule(width: usize) -> (r: String)
    ensures
        r@ == rule_of(width as nat),
{
    let mut r = String::new();
    let mut i: usize = 0;
    while i < width
        invariant
            i <= width,
            r@ == rule_of(i as nat),
        decreases width - i,
    {
        proof {
            reveal_strlit("\u{2500}");
        }
        r.append("\u{2500}");
        i = i + 1;
        assert(r@ =~= rule_of(i as nat));
    }
    r
}

} // verus!
