//! The last lines that a host wrote to its standard error.

use crate::text::{concat, join, joined, joining_adds_part_by_part, texts};
use vstd::prelude::*;

verus! {

/// How many lines are kept.
pub const STDERR_LINES_KEPT: usize = 200;

/// The last lines, oldest first.
pub struct StderrTail {
    lines: Vec<String>,
}

impl View for StderrTail {
    type V = Seq<Seq<char>>;

    closed spec fn view(&self) -> Seq<Seq<char>> {
        texts(self.lines@)
    }
}

/// The last lines of all that were written.
pub open spec fn last_lines(written: Seq<Seq<char>>) -> Seq<Seq<char>> {
    if written.len() <= STDERR_LINES_KEPT {
        written
    } else {
        written.skip(written.len() - STDERR_LINES_KEPT)
    }
}

/// The lines kept once `line` was written after those kept before.
pub open spec fn with_line(kept: Seq<Seq<char>>, line: Seq<char>) -> Seq<Seq<char>> {
    if kept.len() >= STDERR_LINES_KEPT {
        kept.drop_first().push(line)
    } else {
        kept.push(line)
    }
}

/// The lines kept once all of `written` was written, one by one, to a host that had written
/// nothing.
pub open spec fn kept_of(written: Seq<Seq<char>>) -> Seq<Seq<char>>
    decreases written.len(),
{
    if written.len() == 0 {
        Seq::empty()
    } else {
        with_line(kept_of(written.drop_last()), written.last())
    }
}

/// What an error message says of the lines.
pub open spec fn stderr_text(lines: Seq<Seq<char>>) -> Seq<char> {
    if lines.len() == 0 {
        Seq::empty()
    } else {
        " stderr: "@ + joined(lines, " | "@)
    }
}

impl StderrTail {
    /// No line was written.
    pub fn new() -> (tail: Self)
        ensures
            tail@ == Seq::<Seq<char>>::empty(),
    {
        let tail = StderrTail { lines: Vec::new() };
        assert(tail@ == Seq::<Seq<char>>::empty());
        tail
    }

    /// Keeps `line`, and drops the oldest line where there are enough.
    pub fn push(&mut self, line: String)
        ensures
            final(self)@ == with_line(old(self)@, line@),
    {
        if self.lines.len() >= STDERR_LINES_KEPT {
            self.lines.remove(0);
            assert(texts(self.lines@) == old(self)@.drop_first());
        }
        let ghost kept = texts(self.lines@);
        self.lines.push(line);
        assert(texts(self.lines@) == kept.push(line@));
    }

    /// What an error message says of the lines: nothing where there are none.
    pub fn summary(&self) -> (text: String)
        ensures
            text@ == stderr_text(self@),
    {
        if self.lines.is_empty() {
            String::new()
        } else {
            concat(" stderr: ", join(&self.lines, " | ").as_str())
        }
    }
}

/// However much is written, the lines kept are the last ones, in the order in which they were
/// written.
pub proof fn the_last_lines_are_kept(written: Seq<Seq<char>>)
    ensures
        kept_of(written) == last_lines(written),
        kept_of(written).len() <= STDERR_LINES_KEPT,
    decreases written.len(),
{
    if written.len() > 0 {
        let before = written.drop_last();
        the_last_lines_are_kept(before);
        assert(kept_of(written) == last_lines(written));
    }
}

/// A written line is kept behind the lines kept before it; where those are two hundred, the oldest
/// of them makes room.
pub proof fn a_written_line_is_kept(kept: Seq<Seq<char>>, line: Seq<char>)
    ensures
        with_line(kept, line).last() == line,
        kept.len() < 200 ==> with_line(kept, line).drop_last() == kept,
        kept.len() >= 200 ==> with_line(kept, line).drop_last() == kept.drop_first(),
        kept.len() <= 200 ==> with_line(kept, line).len() <= 200,
{
}

/// After any number of lines, the last two hundred of them are kept, each in its place.
pub proof fn the_lines_kept_are_the_last_written(written: Seq<Seq<char>>)
    ensures
        written.len() <= 200 ==> kept_of(written) == written,
        written.len() > 200 ==> kept_of(written).len() == 200,
        forall|i: int|
            0 <= i < kept_of(written).len() ==> #[trigger] kept_of(written)[i] == written[written.len()
                - kept_of(written).len() + i],
{
    the_last_lines_are_kept(written);
}

/// An error message tells every line whole, in order: it says nothing where there is none, opens
/// with the first line, and adds each further one behind a bar.
pub proof fn an_error_message_tells_every_line(lines: Seq<Seq<char>>, line: Seq<char>)
    ensures
        stderr_text(Seq::empty()).len() == 0,
        lines.len() == 0 ==> stderr_text(lines.push(line)) == " stderr: "@ + line,
        lines.len() > 0 ==> stderr_text(lines.push(line)) == stderr_text(lines) + " | "@ + line,
{
    joining_adds_part_by_part(lines, line, " | "@);
    if lines.len() > 0 {
        let told = joined(lines, " | "@);
        assert(" stderr: "@ + (told + " | "@ + line) == " stderr: "@ + told + " | "@ + line);
    }
}

} // verus!
