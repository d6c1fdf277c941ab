//! The text written for one failed attempt.

use vstd::prelude::*;
use vstd::string::StringExecFns;

verus! {

/// The line that names what was tried and why it failed, newline included.
pub open spec fn error_line(input: Seq<char>, error: Seq<char>) -> Seq<char> {
    "Error with input "@ + input + ": "@ + error + "\n"@
}

/// The prompt that asks for a correction. No newline follows it.
pub open spec fn prompt_text() -> Seq<char> {
    "Fix: "@
}

/// What is written when `input` has failed with `error`: the error line,
/// then the prompt, and nothing after it.
pub open spec fn report_text(input: Seq<char>, error: Seq<char>) -> Seq<char> {
    error_line(input, error) + prompt_text()
}

/// Builds the report for `input` and `error`, both already rendered as text.
pub fn report(input: &str, error: &str) -> (text: String)
    ensures
        text@ == report_text(input@, error@),
{
    let mut text = String::from_str("Error with input ");
    text.append(input);
    text.append(": ");
    text.append(error);
    text.append("\n");
    text.append("Fix: ");
    text
}

/// A report holds 25 characters besides the two texts it quotes, opens with
/// `Error with input `, and closes with `Fix: `: its last character is the
/// space of the prompt, never a newline.
pub proof fn lemma_report_shape(input: Seq<char>, error: Seq<char>)
    ensures
        report_text(input, error).len() == input.len() + error.len() + 25,
        "Error with input "@.is_prefix_of(report_text(input, error)),
        "Fix: "@.is_suffix_of(report_text(input, error)),
        report_text(input, error).last() == ' ',
{
    reveal_strlit("Error with input ");
    reveal_strlit(": ");
    reveal_strlit("\n");
    reveal_strlit("Fix: ");
    let text = report_text(input, error);
    assert(text.subrange(0, 17) =~= "Error with input "@);
    assert(text.subrange(text.len() - 5, text.len() as int) =~= "Fix: "@);
}

} // verus!
