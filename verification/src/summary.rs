//! The summary of completed operations that commands print at their end.

use vstd::prelude::*;
use crate::colors;
use crate::output::{coloring_for, coloring_for_spec, paint, painted, stdout_is_terminal};
use crate::text::views;
use crate::timing::{duration_text, elapsed_since, format_duration, instant_now, is_duration_text};

verus! {

/// Operation summary with colored output.
pub struct OperationSummary {
    operations: Vec<String>,
    start_time: std::time::Instant,
}

impl View for OperationSummary {
    type V = Seq<Seq<char>>;

    /// The operations recorded so far, in the order they were added.
    closed spec fn view(&self) -> Seq<Seq<char>> {
        views(self.operations@)
    }
}

/// The line that the summary prints for one operation.
pub open spec fn summary_item(op: Seq<char>, on: bool) -> Seq<char> {
    "   "@ + painted("• "@ + op, colors::GREEN@, on)
}

/// The lines that the summary prints for the given operations, elapsed
/// time text and coloring; nothing when no operation was recorded.
pub open spec fn summary_lines(ops: Seq<Seq<char>>, time: Seq<char>, on: bool) -> Seq<Seq<char>> {
    if ops.len() == 0 {
        seq![]
    } else {
        seq!["\n"@ + painted("🎉 Summary:"@, colors::BOLD@, on)]
            + ops.map_values(|op: Seq<char>| summary_item(op, on))
            + seq!["   "@ + painted("Total time: "@ + time, colors::GRAY@, on)]
    }
}

fn indented(text: &str, color: &str, on: bool) -> (res: String)
    ensures
        res@ == "   "@ + painted(text@, color@, on),
{
    let mut s = String::from_str("   ");
    let p = paint(text, color, on);
    s.append(p.as_str());
    s
}

impl OperationSummary {
    /// When the summary was started: the time that the total printed at
    /// its end is measured from.
    pub closed spec fn started(&self) -> std::time::Instant {
        self.start_time
    }

    pub fn new() -> (res: Self)
        ensures
            res@ == Seq::<Seq<char>>::empty(),
    {
        let res = OperationSummary { operations: Vec::new(), start_time: instant_now() };
        assert(res@ =~= Seq::<Seq<char>>::empty());
        res
    }

    pub fn add_operation(&mut self, operation: &str)
        ensures
            final(self)@ == old(self)@.push(operation@),
            final(self).started() == old(self).started(),
    {
        self.operations.push(String::from_str(operation));
        assert(views(self.operations@) =~= views(old(self).operations@).push(operation@));
    }

    /// The operations recorded so far.
    pub fn operations(&self) -> (res: &Vec<String>)
        ensures
            views(res@) == self@,
    {
        &self.operations
    }

    /// The lines to print, given the elapsed time and whether to color.
    pub fn render(&self, secs: u64, nanos: u32, on: bool) -> (res: Vec<String>)
        requires
            nanos < 1_000_000_000,
        ensures
            views(res@) == summary_lines(self@, duration_text(secs, nanos), on),
    {
        let mut lines: Vec<String> = Vec::new();
        if self.operations.len() == 0 {
            assert(views(lines@) =~= summary_lines(self@, duration_text(secs, nanos), on));
            return lines;
        }
        let mut head = String::from_str("\n");
        let title = paint("🎉 Summary:", colors::BOLD, on);
        head.append(title.as_str());
        lines.push(head);
        let ghost ops = self@;
        let mut i: usize = 0;
        while i < self.operations.len()
            invariant
                i <= self.operations.len(),
                ops == self@,
                ops == views(self.operations@),
                lines.len() == i + 1,
                views(lines@) =~= seq!["\n"@ + painted("🎉 Summary:"@, colors::BOLD@, on)] + ops.take(i as int).map_values(|op: Seq<char>| summary_item(op, on)),
            decreases self.operations.len() - i,
        {
            let mut item = String::from_str("• ");
            item.append(self.operations[i].as_str());
            let line = indented(item.as_str(), colors::GREEN, on);
            let ghost old_lines = views(lines@);
            assert(ops[i as int] == self.operations@[i as int]@);
            assert(item@ == "• "@ + ops[i as int]);
            assert(line@ == "   "@ + painted("• "@ + ops[i as int], colors::GREEN@, on));
            assert(line@ == summary_item(ops[i as int], on));
            lines.push(line);
            assert(views(lines@) =~= old_lines.push(summary_item(ops[i as int], on)));
            assert(ops.take(i + 1).map_values(|op: Seq<char>| summary_item(op, on)) =~= ops.take(i as int).map_values(|op: Seq<char>| summary_item(op, on)).push(summary_item(ops[i as int], on)));
            i = i + 1;
        }
        assert(ops.take(self.operations.len() as int) =~= ops);
        let time = format_duration(secs, nanos);
        let mut total = String::from_str("Total time: ");
        total.append(time.as_str());
        let last = indented(total.as_str(), colors::GRAY, on);
        lines.push(last);
        assert(views(lines@) =~= summary_lines(self@, duration_text(secs, nanos), on));
        lines
    }

    /// The lines that printing the summary shows now; `no_color` tells
    /// whether `NO_COLOR` is set.
    pub fn print_lines(&self, no_color: bool) -> (res: Vec<String>)
        ensures
            exists|time: Seq<char>, is_terminal: bool| #![trigger summary_lines(self@, time, coloring_for_spec(no_color, is_terminal))]
                is_duration_text(time) && views(res@) == summary_lines(self@, time, coloring_for_spec(no_color, is_terminal)),
    {
        let (secs, nanos) = elapsed_since(&self.start_time);
        let is_terminal = stdout_is_terminal();
        let on = coloring_for(no_color, is_terminal);
        let lines = self.render(secs, nanos, on);
        assert(is_duration_text(duration_text(secs, nanos)));
        assert(views(lines@) == summary_lines(self@, duration_text(secs, nanos), coloring_for_spec(no_color, is_terminal)));
        lines
    }
}

} // verus!
