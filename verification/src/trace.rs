//! The trace line: what is written to the terminal before an action runs.
//!
//! The text of the line is fixed here: the display text in a highlight color,
//! then a newline. Where the line is written to is the caller's choice: the
//! tracer hands it to a printer of the caller's, then runs the action.

use crate::render::{render, rendered, rendered_adds_only_spaces};
use crate::text::texts;
use vstd::prelude::*;

verus! {

/// The escape sequence that switches the highlight color on.
pub open spec fn highlight_on() -> Seq<char> {
    seq!['\u{1b}', '[', '3', '3', 'm']
}

/// The escape sequence that switches every color off.
pub open spec fn highlight_off() -> Seq<char> {
    seq!['\u{1b}', '[', '0', 'm']
}

/// `text` as one highlighted line: color on, the text, color off, newline.
pub open spec fn highlighted(text: Seq<char>) -> Seq<char> {
    highlight_on() + text + highlight_off() + seq!['\n']
}

/// `text` ends in a newline and holds no other.
pub open spec fn is_one_line(text: Seq<char>) -> bool {
    text.len() > 0 && text.last() == '\n' && !text.drop_last().contains('\n')
}

/// Highlighting a text that holds no newline gives exactly one line.
pub proof fn highlighted_is_one_line(text: Seq<char>)
    requires
        !text.contains('\n'),
    ensures
        is_one_line(highlighted(text)),
{
    let line = highlighted(text);
    let body = line.drop_last();
    assert(body =~= highlight_on() + text + highlight_off());
    if body.contains('\n') {
        let at = choose|at: int| 0 <= at < body.len() && body[at] == '\n';
        if at < 5 {
            assert(highlight_on()[at] == '\n');
        } else if at < 5 + text.len() {
            assert(text[at - 5] == '\n');
        } else {
            assert(highlight_off()[at - 5 - text.len()] == '\n');
        }
    }
}

/// The trace line of tokens that hold no newline is exactly one line.
pub proof fn trace_line_is_one_line(tokens: Seq<Seq<char>>)
    requires
        forall|i: int| 0 <= i < tokens.len() ==> !(#[trigger] tokens[i]).contains('\n'),
    ensures
        is_one_line(highlighted(rendered(tokens))),
{
    rendered_adds_only_spaces(tokens, '\n');
    highlighted_is_one_line(rendered(tokens));
}

/// Returns `text` as one highlighted line, ready to be written as it is.
pub fn highlight(text: &str) -> (line: String)
    ensures
        line@ == highlighted(text@),
{
    let mut line = String::new();
    line.append("\x1b[33m");
    line.append(text);
    line.append("\x1b[0m");
    line.append("\n");
    proof {
        reveal_strlit("\x1b[33m");
        reveal_strlit("\x1b[0m");
        reveal_strlit("\n");
        assert("\x1b[33m"@ =~= highlight_on());
        assert("\x1b[0m"@ =~= highlight_off());
        assert("\n"@ =~= seq!['\n']);
        assert(line@ =~= highlighted(text@));
    }
    line
}

/// Returns the trace line of the action that `tokens` describe: their display
/// line, highlighted.
pub fn trace_line(tokens: &[&str]) -> (line: String)
    ensures
        line@ == highlighted(rendered(texts(tokens@))),
{
    let display = render(tokens);
    highlight(display.as_str())
}

/// Hands `text`, as one highlighted line, to `print`.
pub fn echo<P: FnOnce(String)>(text: &str, print: P)
    requires
        forall|line: String| line@ == highlighted(text@) ==> print.requires((line,)),
    ensures
        exists|line: String| line@ == highlighted(text@) && print.ensures((line,), ()),
{
    let line = highlight(text);
    print(line);
}

/// Echoes an action, then runs it: hands the trace line of `tokens` to
/// `print`, then calls `action`, once, and returns what it returned, be that
/// nothing, a value or a failure.
///
/// The action is handed what the printer gave back. So the line is printed
/// before the action begins, and is there even if the action fails.
pub fn trace<T, R, P: FnOnce(String) -> R, A: FnOnce(R) -> T>(
    tokens: &[&str],
    print: P,
    action: A,
) -> (out: T)
    requires
        forall|line: String|
            line@ == highlighted(rendered(texts(tokens@))) ==> print.requires((line,)),
        forall|line: String, done: R|
            line@ == highlighted(rendered(texts(tokens@))) && print.ensures((line,), done)
                ==> action.requires((done,)),
    ensures
        exists|line: String, done: R|
            line@ == highlighted(rendered(texts(tokens@))) && print.ensures((line,), done)
                && action.ensures((done,), out),
{
    let line = trace_line(tokens);
    let done = print(line);
    action(done)
}

} // verus!
