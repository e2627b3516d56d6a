//! Lines for the operator, each with its severity.
use vstd::prelude::*;

verus! {

/// How severe a line is.
#[derive(Clone, Copy, Debug, PartialEq, Eq, Structural)]
pub enum Level {
    Info,
    Warn,
    Error,
}

/// One line of the log.
#[derive(Debug)]
pub struct LogLine {
    pub level: Level,
    pub text: String,
}

/// A line as a value: its level and its characters.
pub struct LineView {
    pub level: Level,
    pub text: Seq<char>,
}

impl View for LogLine {
    type V = LineView;

    open spec fn view(&self) -> LineView {
        LineView { level: self.level, text: self.text@ }
    }
}

/// Some lines as a value.
pub open spec fn lines_view(lines: Seq<LogLine>) -> Seq<LineView> {
    lines.map_values(|line: LogLine| line@)
}

/// The view of a line has its level and its characters, and that of some lines each
/// of them in its place.
pub proof fn law_views_keep_lines(lines: Seq<LogLine>, i: int)
    requires
        0 <= i < lines.len(),
    ensures
        lines_view(lines).len() == lines.len(),
        lines_view(lines)[i].level == lines[i].level,
        lines_view(lines)[i].text == lines[i].text@,
{
}

} // verus!
