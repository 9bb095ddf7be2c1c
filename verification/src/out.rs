//! The reporting sink: lines with a level and an indentation, collected in
//! the order in which they are reported.

use vstd::prelude::*;

use crate::text;

verus! {

/// How a line is to be shown.
#[derive(Clone, Copy, Debug, PartialEq, Eq, Structural)]
pub enum Level {
    /// Plain text.
    Blank,
    Info,
    Warn,
    Error,
}

/// One reported line.
#[derive(Clone, Debug, PartialEq, Eq)]
pub struct Line {
    /// Number of indentation steps before the text.
    pub indent: usize,
    pub level: Level,
    pub text: String,
}

/// Mathematical value of a [`Line`].
pub struct LineModel {
    pub indent: usize,
    pub level: Level,
    pub text: Seq<char>,
}

impl View for Line {
    type V = LineModel;

    open spec fn view(&self) -> LineModel {
        LineModel { indent: self.indent, level: self.level, text: self.text@ }
    }
}

/// The values of a list of lines.
pub open spec fn line_models(v: Seq<Line>) -> Seq<LineModel> {
    v.map_values(|l: Line| l@)
}

/// The indentation after entering a sub-report that changes it by
/// `change`: it stays within what a `usize` holds.
pub open spec fn entered(indent: usize, change: isize) -> usize {
    if indent + change < 0 {
        0usize
    } else if indent + change > usize::MAX {
        usize::MAX
    } else {
        (indent + change) as usize
    }
}

/// The indentation after leaving a sub-report that had changed it by
/// `change`.
pub open spec fn left(indent: usize, change: isize) -> usize {
    if indent - change < 0 {
        0usize
    } else if indent - change > usize::MAX {
        usize::MAX
    } else {
        (indent - change) as usize
    }
}

/// The blanks that stand before a line: two for each step.
pub open spec fn spec_prefix(indent: nat) -> Seq<char>
    decreases indent,
{
    if indent == 0 {
        Seq::empty()
    } else {
        spec_prefix((indent - 1) as nat).push(' ').push(' ')
    }
}

fn shifted(indent: usize, change: isize, back: bool) -> (r: usize)
    ensures
        r == if back {
            left(indent, change)
        } else {
            entered(indent, change)
        },
{
    let up = (change >= 0) != back;
    let size: usize = if change >= 0 {
        change as usize
    } else if change == isize::MIN {
        (isize::MAX as usize) + 1
    } else {
        (-change) as usize
    };
    if up {
        if indent > usize::MAX - size {
            usize::MAX
        } else {
            indent + size
        }
    } else {
        if size > indent {
            0
        } else {
            indent - size
        }
    }
}

/// The lines of a report and the indentation of the next one.
#[derive(Clone, Debug, PartialEq, Eq)]
pub struct Out {
    pub indent: usize,
    pub lines: Vec<Line>,
}

impl View for Out {
    type V = Seq<LineModel>;

    /// The lines that were reported, first to last.
    open spec fn view(&self) -> Seq<LineModel> {
        line_models(self.lines@)
    }
}

impl Out {
    /// A report without lines, at no indentation.
    pub fn new() -> (r: Out)
        ensures
            r.indent == 0,
            r.lines@.len() == 0,
            r@ == Seq::<LineModel>::empty(),
    {
        let r = Out { indent: 0, lines: Vec::new() };
        assert(r@ =~= Seq::<LineModel>::empty());
        r
    }

    /// Enters a sub-report: the lines that follow are indented by `change`
    /// steps more.
    pub fn indent(&mut self, change: isize)
        ensures
            final(self).indent == entered(old(self).indent, change),
            final(self).lines == old(self).lines,
            final(self)@ == old(self)@,
    {
        self.indent = shifted(self.indent, change, false);
    }

    /// Leaves the sub-report that was entered with `change`.
    pub fn leave(&mut self, change: isize)
        ensures
            final(self).indent == left(old(self).indent, change),
            final(self).lines == old(self).lines,
            final(self)@ == old(self)@,
    {
        self.indent = shifted(self.indent, change, true);
    }

    /// Reports a line at the current indentation.
    pub fn line(&mut self, level: Level, text: &str)
        ensures
            final(self).indent == old(self).indent,
            final(self).lines@.len() == old(self).lines@.len() + 1,
            final(self).lines@.drop_last() == old(self).lines@,
            final(self)@ == old(self)@.push(
                LineModel { indent: old(self).indent, level: level, text: text@ },
            ),
    {
        self.lines.push(Line { indent: self.indent, level, text: text::string(&text::chars(text)) });
        assert(self@ =~= old(self)@.push(
            LineModel { indent: old(self).indent, level, text: text@ },
        ));
    }

    /// Reports a plain line.
    pub fn blank(&mut self, text: &str)
        ensures
            final(self).indent == old(self).indent,
            final(self).lines@.len() == old(self).lines@.len() + 1,
            final(self).lines@.drop_last() == old(self).lines@,
            final(self)@ == old(self)@.push(
                LineModel { indent: old(self).indent, level: Level::Blank, text: text@ },
            ),
    {
        self.line(Level::Blank, text);
    }

    /// Reports a line of information.
    pub fn info(&mut self, text: &str)
        ensures
            final(self).indent == old(self).indent,
            final(self).lines@.len() == old(self).lines@.len() + 1,
            final(self).lines@.drop_last() == old(self).lines@,
            final(self)@ == old(self)@.push(
                LineModel { indent: old(self).indent, level: Level::Info, text: text@ },
            ),
    {
        self.line(Level::Info, text);
    }

    /// Reports a warning.
    pub fn warn(&mut self, text: &str)
        ensures
            final(self).indent == old(self).indent,
            final(self).lines@.len() == old(self).lines@.len() + 1,
            final(self).lines@.drop_last() == old(self).lines@,
            final(self)@ == old(self)@.push(
                LineModel { indent: old(self).indent, level: Level::Warn, text: text@ },
            ),
    {
        self.line(Level::Warn, text);
    }

    /// Reports an error.
    pub fn error(&mut self, text: &str)
        ensures
            final(self).indent == old(self).indent,
            final(self).lines@.len() == old(self).lines@.len() + 1,
            final(self).lines@.drop_last() == old(self).lines@,
            final(self)@ == old(self)@.push(
                LineModel { indent: old(self).indent, level: Level::Error, text: text@ },
            ),
    {
        self.line(Level::Error, text);
    }
}

impl Line {
    /// The blanks that stand before the line's text.
    pub fn prefix(&self) -> (r: String)
        ensures
            r@ == spec_prefix(self.indent as nat),
    {
        let mut out: Vec<char> = Vec::new();
        let mut i: usize = 0;
        while i < self.indent
            invariant
                i <= self.indent,
                out@ == spec_prefix(i as nat),
            decreases self.indent - i,
        {
            out.push(' ');
            out.push(' ');
            i += 1;
        }
        text::string(&out)
    }
}

/// Leaving a sub-report restores the indentation that it was entered at,
/// as long as entering did not run into either end of the range.
pub proof fn lemma_leave_restores(indent: usize, change: isize)
    requires
        0 <= indent + change <= usize::MAX,
    ensures
        left(entered(indent, change), change) == indent,
{
}

/// The blanks before a line are two for each step of its indentation.
pub proof fn lemma_prefix_len(indent: nat)
    ensures
        spec_prefix(indent).len() == 2 * indent,
    decreases indent,
{
    if indent > 0 {
        lemma_prefix_len((indent - 1) as nat);
    }
}

} // verus!
