//! The decision step of the read-classify-print loop. Each line of input is
//! handled independently: the step takes the outcome of one read and says
//! what the shell does next — print a farewell and stop, print a response
//! block and go on, or go on silently.

use vstd::prelude::*;

use crate::responder::{classify, classify_command, response, response_text, Command};
use crate::text::{eq_ci, eq_ignore_case, starts_with_ci, trim, trim_spaces};

verus! {

/// The outcome of one attempt to read a line of input.
pub enum Event {
    /// A line was read; it may still carry its newline and other whitespace.
    Line(String),
    /// The input stream ended with no bytes available.
    EndOfInput,
    /// The read failed; treated exactly like the end of input.
    ReadError,
}

/// What the shell does after one read.
pub enum Action {
    /// Print the message and stop.
    Quit(String),
    /// Print the message and read the next line.
    Respond(String),
    /// Print nothing and read the next line.
    Continue,
}

/// A line asks the shell to stop when its trimmed value is `exit` or `quit`,
/// in any case.
pub open spec fn is_exit(line: Seq<char>) -> bool {
    eq_ci(trim(line), "exit"@) || eq_ci(trim(line), "quit"@)
}

/// The farewell printed when the shell stops on an exit command.
pub open spec fn farewell() -> Seq<char> {
    "Goodbye!"@
}

/// The farewell printed when the input ends or a read fails; the leading
/// newline closes the line the prompt was written on.
pub open spec fn farewell_after_eof() -> Seq<char> {
    "\nGoodbye!"@
}

/// The prompt written, without a newline, before each read.
pub fn prompt() -> (r: &'static str)
    ensures
        r@ == "sql> "@,
{
    "sql> "
}

/// One turn of the shell loop. The end of input and a read error end the
/// shell with the farewell; an exit command ends it likewise; a blank line
/// is ignored; any other line gets the response block of its category.
pub fn shell_step(e: &Event) -> (a: Action)
    ensures
        match e {
            Event::EndOfInput => a matches Action::Quit(m) && m@ == farewell_after_eof(),
            Event::ReadError => a matches Action::Quit(m) && m@ == farewell_after_eof(),
            Event::Line(l) => {
                if is_exit(l@) {
                    a matches Action::Quit(m) && m@ == farewell()
                } else if trim(l@).len() == 0 {
                    a matches Action::Continue
                } else {
                    a matches Action::Respond(m) && m@ == response(classify(trim(l@)))
                }
            },
        },
{
    match e {
        Event::EndOfInput => Action::Quit("\nGoodbye!".to_owned()),
        Event::ReadError => Action::Quit("\nGoodbye!".to_owned()),
        Event::Line(l) => {
            let cmd = trim_spaces(l.as_str());
            if eq_ignore_case(cmd, "exit") || eq_ignore_case(cmd, "quit") {
                Action::Quit("Goodbye!".to_owned())
            } else if cmd.unicode_len() == 0 {
                Action::Continue
            } else {
                Action::Respond(response_text(classify_command(cmd)).to_owned())
            }
        },
    }
}

/// Every line whose trimmed value begins, case-insensitively, with `select`
/// is answered with the fixed table block — whatever follows the keyword.
/// Such a line is never an exit command and never blank.
pub proof fn lemma_select_gets_the_table(line: Seq<char>)
    requires
        starts_with_ci(trim(line), "select"@),
    ensures
        !is_exit(line),
        trim(line).len() > 0,
        classify(trim(line)) == Command::Select,
{
    reveal_strlit("select");
    reveal_strlit("exit");
    reveal_strlit("quit");
}

} // verus!
