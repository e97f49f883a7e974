//! The rules of the read-eval-print loop: what a line of input asks for.
//!
//! Reading lines and printing results stay with the caller. The loop shows
//! [`PROMPT`], reads a line, and does what [`Repl::interpret`] says of it,
//! until that is to quit; then it shows [`FAREWELL`].

use vstd::prelude::*;
use vstd::string::StringExecFns;

verus! {

/// What the loop shows before it reads a line.
pub const PROMPT: &'static str = "> ";

/// What the loop shows when it ends.
pub const FAREWELL: &'static str = "\nGoodbye!";

/// Whether `c` is white space: one of the 25 characters to which Unicode
/// gives the property White_Space, which `str::trim` goes by.
pub open spec fn white_space(c: char) -> bool {
    ||| ('\u{9}' <= c && c <= '\u{d}')
    ||| c == ' '
    ||| c == '\u{85}'
    ||| c == '\u{a0}'
    ||| c == '\u{1680}'
    ||| ('\u{2000}' <= c && c <= '\u{200a}')
    ||| c == '\u{2028}'
    ||| c == '\u{2029}'
    ||| c == '\u{202f}'
    ||| c == '\u{205f}'
    ||| c == '\u{3000}'
}

/// What `str::to_lowercase` makes of a text: its lowercase equivalent.
pub uninterp spec fn lowercased(text: Seq<char>) -> Seq<char>;

/// How many characters of white space `text` starts with.
pub open spec fn leading_space(text: Seq<char>) -> nat
    decreases text.len(),
{
    if text.len() > 0 && white_space(text[0]) {
        1 + leading_space(text.skip(1))
    } else {
        0
    }
}

/// How many characters of white space `text` ends with.
pub open spec fn trailing_space(text: Seq<char>) -> nat
    decreases text.len(),
{
    if text.len() > 0 && white_space(text.last()) {
        1 + trailing_space(text.drop_last())
    } else {
        0
    }
}

/// The text without the white space at its start and at its end.
pub open spec fn trimmed(text: Seq<char>) -> Seq<char> {
    let rest = text.skip(leading_space(text) as int);
    rest.take(rest.len() - trailing_space(rest))
}

/// Calls `str::trim`. The claim: the result is the text without the white
/// space at its start and at its end, white space being what Unicode calls
/// so.
#[verifier::external_body]
fn trim_text(text: &str) -> (result: String)
    ensures
        result@ == trimmed(text@),
{
    text.trim().to_owned()
}

/// Calls `str::to_lowercase`. The claim: the result is a function of the
/// text alone, named by [`lowercased`].
#[verifier::external_body]
fn lowercase_text(text: &str) -> (result: String)
    ensures
        result@ == lowercased(text@),
{
    text.to_lowercase()
}

/// What one step of the loop has to do.
#[derive(Debug, PartialEq, Eq)]
pub enum ReplStep {
    /// Leave the loop.
    Quit,
    /// Execute the command and show its results, then read on.
    Execute(String),
}

/// The mathematical value of a [`ReplStep`].
pub enum ReplStepModel {
    Quit,
    Execute(Seq<char>),
}

impl View for ReplStep {
    type V = ReplStepModel;

    open spec fn view(&self) -> ReplStepModel {
        match self {
            ReplStep::Quit => ReplStepModel::Quit,
            ReplStep::Execute(command) => ReplStepModel::Execute(command@),
        }
    }
}

/// Whether `word` is one of the words that end the loop.
pub open spec fn is_exit_word(word: Seq<char>) -> bool {
    word == "exit"@ || word == "bye"@ || word == "q"@ || word == "quit"@
}

/// What a command asks for, given its lowercase form: to quit where that
/// form is an exit word, and to be executed as it stands otherwise.
pub open spec fn step_for(command: Seq<char>, lowered: Seq<char>) -> ReplStepModel {
    if is_exit_word(lowered) {
        ReplStepModel::Quit
    } else {
        ReplStepModel::Execute(command)
    }
}

/// What a line of input asks for; no line, the end of the input, asks to
/// quit.
pub open spec fn step_for_line(line: Option<Seq<char>>) -> ReplStepModel {
    match line {
        Some(text) => step_for(trimmed(text), lowercased(trimmed(text))),
        None => ReplStepModel::Quit,
    }
}

/// The read-eval-print loop's rules.
#[derive(Debug)]
pub struct Repl {}

impl Repl {
    /// Whether `word` is `exit`, `bye`, `q` or `quit`.
    pub fn ends_the_loop(word: &String) -> (ends: bool)
        ensures
            ends == is_exit_word(word@),
    {
        *word == String::from_str("exit") || *word == String::from_str("bye") || *word
            == String::from_str("q") || *word == String::from_str("quit")
    }

    /// What the command `command` asks for, given its lowercase form
    /// `lowered`.
    pub fn classify(command: String, lowered: &String) -> (step: ReplStep)
        ensures
            step@ == step_for(command@, lowered@),
    {
        if Repl::ends_the_loop(lowered) {
            ReplStep::Quit
        } else {
            ReplStep::Execute(command)
        }
    }

    /// What the line `line` asks for. White space around the line does not
    /// count, nor does the case of an exit word; the end of the input asks
    /// to quit.
    pub fn interpret(line: Option<&str>) -> (step: ReplStep)
        ensures
            step@ == step_for_line(
                match line {
                    Some(text) => Some(text@),
                    None => None,
                },
            ),
    {
        match line {
            Some(text) => {
                let command = trim_text(text);
                let lowered = lowercase_text(command.as_str());
                Repl::classify(command, &lowered)
            },
            None => ReplStep::Quit,
        }
    }
}

} // verus!
