//! The capability shared by every demonstration.

use vstd::prelude::*;

verus! {

/// The text of a list of lines, line by line.
pub open spec fn lines_view(lines: Seq<String>) -> Seq<Seq<char>> {
    lines.map_values(|s: String| s@)
}

/// The text of two lists of lines, one after the other, is the text of the
/// first followed by the text of the second.
pub proof fn lemma_lines_view_concat(a: Seq<String>, b: Seq<String>)
    ensures
        lines_view(a + b) == lines_view(a) + lines_view(b),
{
    assert(lines_view(a + b) =~= lines_view(a) + lines_view(b));
}

/// Something that can be run and hands back the lines it produced.
pub trait IRunner {
    /// The lines that one run produces, first to last.
    spec fn output(&self) -> Seq<Seq<char>>;

    /// Runs the demonstration once and returns its lines in order.
    fn run(&self) -> (lines: Vec<String>)
        ensures
            lines_view(lines@) == self.output(),
            lines@.len() >= 1,
    ;
}

} // verus!
