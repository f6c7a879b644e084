//! What the program is asked to do on its command line.

use vstd::prelude::*;
use vstd::string::*;

verus! {

/// The exit status of an invocation that was answered with the usage
/// message: showing how the program is used counts as a success.
pub const USAGE_EXIT_STATUS: i32 = 0;

/// What an invocation asks for.
#[derive(Clone, Debug, PartialEq, Eq)]
pub enum Invocation {
    /// Show this usage message, and classify nothing.
    Usage(String),
    /// Classify this sentence.
    Classify(String),
}

/// An [`Invocation`] with its text as a sequence of characters.
pub enum InvocationView {
    Usage(Seq<char>),
    Classify(Seq<char>),
}

impl View for Invocation {
    type V = InvocationView;

    open spec fn view(&self) -> InvocationView {
        match self {
            Invocation::Usage(message) => InvocationView::Usage(message@),
            Invocation::Classify(sentence) => InvocationView::Classify(sentence@),
        }
    }
}

/// The usage message of the program that was started as `program`.
pub open spec fn usage_text(program: Seq<char>) -> Seq<char> {
    "Usage: "@ + program + " \"Input sentence\""@
}

/// What the program `program` is asked for by the arguments `args` that
/// follow its name: to classify the one sentence, or, with no argument or
/// with more than one, to show how it is used.
pub open spec fn invocation_of(program: Seq<char>, args: Seq<String>) -> InvocationView {
    if args.len() == 1 {
        InvocationView::Classify(args[0]@)
    } else {
        InvocationView::Usage(usage_text(program))
    }
}

/// The usage message of the program that was started as `program`.
pub fn usage_message(program: &str) -> (message: String)
    ensures
        message@ == usage_text(program@),
{
    let mut message = String::from_str("Usage: ");
    message.append(program);
    message.append(" \"Input sentence\"");
    message
}

/// Reads the arguments `args` that follow the name `program` on the command
/// line.
pub fn parse_args(program: &str, args: &Vec<String>) -> (invocation: Invocation)
    ensures
        invocation@ == invocation_of(program@, args@),
{
    if args.len() == 1 {
        Invocation::Classify(args[0].clone())
    } else {
        Invocation::Usage(usage_message(program))
    }
}

/// With no argument or with more than one the program shows how it is used
/// and classifies nothing, and the message holds the name under which the
/// program was started: the name stands in it behind the seven characters of
/// `Usage: `.
pub proof fn lemma_usage_names_the_program(program: Seq<char>, args: Seq<String>)
    requires
        args.len() != 1,
    ensures
        invocation_of(program, args) == InvocationView::Usage(usage_text(program)),
        usage_text(program).len() >= 7 + program.len(),
        usage_text(program).subrange(7, 7 + program.len() as int) == program,
{
    reveal_strlit("Usage: ");
    assert(usage_text(program).subrange(7, 7 + program.len() as int) =~= program);
}

} // verus!
