use vstd::prelude::*;
use vstd::string::*;

use crate::decimal::{decimal, decimal_text};
use crate::report::{Block, BlockView, Tone};

verus! {

/// The stream a line goes to.
#[derive(PartialEq, Eq, Structural, Clone, Copy, Debug)]
pub enum Channel {
    Stdout,
    Stderr,
}

/// One piece of written output: its text, the stream it goes to, and whether
/// a line break follows it.
#[derive(Debug, PartialEq, Eq)]
pub struct Line {
    pub channel: Channel,
    pub text: String,
    pub newline: bool,
}

/// The escape that resets all styling.
pub open spec fn reset_code() -> Seq<char> {
    seq!['\u{1b}', '[', '0', 'm']
}

/// The escape that selects the foreground colour numbered `color`.
pub open spec fn style_code(color: Seq<char>) -> Seq<char> {
    seq!['\u{1b}', '['] + color + seq!['m']
}

/// `t` with `style` written again after every reset escape inside it, so that
/// the colour goes on after a reset that the text itself holds.
pub open spec fn restyle_after_resets(t: Seq<char>, style: Seq<char>) -> Seq<char>
    decreases t.len(),
{
    if t.len() == 0 {
        t
    } else if t.len() >= 4 && t.subrange(0, 4) == reset_code() {
        reset_code() + style + restyle_after_resets(t.subrange(4, t.len() as int), style)
    } else {
        seq![t[0]] + restyle_after_resets(t.subrange(1, t.len() as int), style)
    }
}

/// `t` written in the foreground colour numbered `color`: the colour's escape,
/// the text with the colour put back after each reset inside it, and a reset.
pub open spec fn colored_form(t: Seq<char>, color: Seq<char>) -> Seq<char> {
    style_code(color) + restyle_after_resets(t, style_code(color)) + reset_code()
}

/// Either the text as it is (where colouring is switched off in the process),
/// or the text written in the colour numbered `color`.
pub open spec fn painted_from(r: Seq<char>, text: Seq<char>, color: Seq<char>) -> bool {
    r == text || r == colored_form(text, color)
}

/// The foreground colour number of a tone: cyan, white and red.
pub open spec fn tone_code(t: Tone) -> Seq<char> {
    match t {
        Tone::Accent => seq!['3', '6'],
        Tone::Plain => seq!['3', '7'],
        Tone::Warning => seq!['3', '1'],
    }
}

/// Relies on colored's `Colorize::cyan` and the `Display` of the
/// `ColoredString` it returns: the text as it is where colouring is switched
/// off, else the cyan escape, the text with it put back after each reset
/// escape inside, and a reset escape.
#[verifier::external_body]
fn paint_cyan(text: &str) -> (r: String)
    ensures
        painted_from(r@, text@, seq!['3', '6']),
{
    colored::Colorize::cyan(text).to_string()
}

/// Relies on colored's `Colorize::white` and the `Display` of the
/// `ColoredString` it returns: the text as it is where colouring is switched
/// off, else the white escape, the text with it put back after each reset
/// escape inside, and a reset escape.
#[verifier::external_body]
fn paint_white(text: &str) -> (r: String)
    ensures
        painted_from(r@, text@, seq!['3', '7']),
{
    colored::Colorize::white(text).to_string()
}

/// Relies on colored's `Colorize::red` and the `Display` of the
/// `ColoredString` it returns: the text as it is where colouring is switched
/// off, else the red escape, the text with it put back after each reset
/// escape inside, and a reset escape.
#[verifier::external_body]
fn paint_red(text: &str) -> (r: String)
    ensures
        painted_from(r@, text@, seq!['3', '1']),
{
    colored::Colorize::red(text).to_string()
}

/// Gives `text` the colour of `tone`, only where the output is an interactive
/// terminal: Accent is cyan, Plain white and Warning red.
pub fn color_text(text: &str, tone: Option<Tone>, interactive: bool) -> (r: String)
    ensures
        !interactive || tone is None ==> r@ == text@,
        interactive ==> (tone matches Some(t) ==> painted_from(r@, text@, tone_code(t))),
{
    if !interactive {
        return text.to_owned();
    }
    match tone {
        Some(Tone::Accent) => paint_cyan(text),
        Some(Tone::Plain) => paint_white(text),
        Some(Tone::Warning) => paint_red(text),
        None => text.to_owned(),
    }
}

pub open spec fn status_prefix() -> Seq<char> {
    "Status: "@
}

pub open spec fn launch_prefix() -> Seq<char> {
    "Failed to execute command: "@
}

/// The text of a block before any colour, given the separator `rule`.
pub open spec fn block_text(b: BlockView, rule: Seq<char>) -> Seq<char> {
    match b {
        BlockView::Header(p) => p,
        BlockView::Separator(_) => rule,
        BlockView::StatusLine(c) => status_prefix() + decimal_text(c as int),
        BlockView::StdoutBlock(t) => t,
        BlockView::StderrBlock(t) => t,
        BlockView::Blank => seq!['\n'],
        BlockView::LaunchError(e) => launch_prefix() + e,
    }
}

/// The colour a block is written in on an interactive terminal.
pub open spec fn block_tone(b: BlockView) -> Option<Tone> {
    match b {
        BlockView::Header(_) => Some(Tone::Accent),
        BlockView::Separator(t) => Some(t),
        BlockView::StatusLine(_) => Some(Tone::Warning),
        BlockView::StderrBlock(_) => Some(Tone::Warning),
        _ => None,
    }
}

/// Launch failures go to standard error, everything else to standard output.
pub open spec fn block_channel(b: BlockView) -> Channel {
    if b is LaunchError {
        Channel::Stderr
    } else {
        Channel::Stdout
    }
}

/// The command's standard output is written as it came, with no line break
/// added; every other block ends its line.
pub open spec fn block_newline(b: BlockView) -> bool {
    b !is StdoutBlock
}

/// `l` is how block `b` is written.
pub open spec fn line_of(l: Line, b: BlockView, rule: Seq<char>, interactive: bool) -> bool {
    &&& l.channel == block_channel(b)
    &&& l.newline == block_newline(b)
    &&& (!interactive || block_tone(b) is None) ==> l.text@ == block_text(b, rule)
    &&& interactive ==> (block_tone(b) matches Some(t) ==> painted_from(
        l.text@,
        block_text(b, rule),
        tone_code(t),
    ))
}

/// Turns one report block into the line that is written for it.
pub fn block_line(b: &Block, rule: &String, interactive: bool) -> (l: Line)
    ensures
        line_of(l, b@, rule@, interactive),
{
    match b {
        Block::Header(p) => Line {
            channel: Channel::Stdout,
            text: color_text(p.as_str(), Some(Tone::Accent), interactive),
            newline: true,
        },
        Block::Separator(t) => Line {
            channel: Channel::Stdout,
            text: color_text(rule.as_str(), Some(*t), interactive),
            newline: true,
        },
        Block::StatusLine(c) => {
            proof {
                reveal_strlit("Status: ");
            }
            let mut s = "Status: ".to_owned();
            let digits = decimal(*c);
            s.append(digits.as_str());
            assert(s@ == block_text(b@, rule@));
            Line {
                channel: Channel::Stdout,
                text: color_text(s.as_str(), Some(Tone::Warning), interactive),
                newline: true,
            }
        },
        Block::StdoutBlock(t) => Line { channel: Channel::Stdout, text: t.clone(), newline: false },
        Block::StderrBlock(t) => Line {
            channel: Channel::Stdout,
            text: color_text(t.as_str(), Some(Tone::Warning), interactive),
            newline: true,
        },
        Block::Blank => {
            proof {
                reveal_strlit("\n");
            }
            let text = "\n".to_owned();
            assert(text@ == block_text(b@, rule@));
            Line { channel: Channel::Stdout, text, newline: true }
        },
        Block::LaunchError(e) => {
            proof {
                reveal_strlit("Failed to execute command: ");
            }
            let mut s = "Failed to execute command: ".to_owned();
            s.append(e.as_str());
            assert(s@ == block_text(b@, rule@));
            Line { channel: Channel::Stderr, text: s, newline: true }
        },
    }
}

/// Turns a directory's report into the lines written for it, in order.
pub fn report_lines(blocks: &Vec<Block>, rule: &String, interactive: bool) -> (r: Vec<Line>)
    ensures
        r@.len() == blocks@.len(),
        forall|k: int| 0 <= k < r@.len() ==> line_of(#[trigger] r@[k], blocks@[k]@, rule@, interactive),
{
    let mut r: Vec<Line> = Vec::new();
    let mut i: usize = 0;
    while i < blocks.len()
        invariant
            i <= blocks@.len(),
            r@.len() == i,
            forall|k: int| 0 <= k < i ==> line_of(#[trigger] r@[k], blocks@[k]@, rule@, interactive),
        decreases blocks@.len() - i,
    {
        let l = block_line(&blocks[i], rule, interactive);
        r.push(l);
        i = i + 1;
    }
    r
}

} // verus!
