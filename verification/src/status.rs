//! The status line: one field per command, in order.

use crate::config::{command_views, ActiveCommand, CommandView};
use crate::text::{first_line, first_line_of};
use vstd::prelude::*;
use vstd::string::StringExecFns;

verus! {

/// The field of one command: the first line of its cached output, followed
/// by the delimiter.
pub open spec fn field_text(command: CommandView, delimiter: Seq<char>) -> Seq<char> {
    first_line(command.output) + delimiter
}

/// The status line of `commands`: their fields one after the other, in order.
/// Every field ends with the delimiter, the last one too.
pub open spec fn status_text(commands: Seq<CommandView>, delimiter: Seq<char>) -> Seq<char>
    decreases commands.len(),
{
    if commands.len() == 0 {
        Seq::empty()
    } else {
        status_text(commands.drop_last(), delimiter) + field_text(commands.last(), delimiter)
    }
}

/// The status line of no command is empty, and one more command adds its
/// field at the end.
pub proof fn lemma_status_text_push(
    commands: Seq<CommandView>,
    command: CommandView,
    delimiter: Seq<char>,
)
    ensures
        status_text(Seq::empty(), delimiter) == Seq::<char>::empty(),
        status_text(commands.push(command), delimiter) == status_text(commands, delimiter)
            + field_text(command, delimiter),
{
    assert(commands.push(command).drop_last() == commands);
}

/// Assembles the status line from the cached outputs of `commands`.
pub fn status_line(commands: &Vec<ActiveCommand>, delimiter: &str) -> (line: String)
    ensures
        line@ == status_text(command_views(commands@), delimiter@),
{
    let mut line = String::new();
    let mut i: usize = 0;
    while i < commands.len()
        invariant
            i <= commands.len(),
            line@ == status_text(command_views(commands@).take(i as int), delimiter@),
        decreases commands.len() - i,
    {
        let field = first_line_of(commands[i].output.as_str());
        line.append(field.as_str());
        line.append(delimiter);
        proof {
            let views = command_views(commands@);
            assert(views.take(i as int + 1) == views.take(i as int).push(views[i as int]));
            lemma_status_text_push(views.take(i as int), views[i as int], delimiter@);
        }
        i = i + 1;
    }
    assert(command_views(commands@).take(i as int) == command_views(commands@));
    line
}

} // verus!
