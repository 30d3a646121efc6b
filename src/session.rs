//! What a line typed at the terminal asks for, and what is shown in reply.
use vstd::prelude::*;
use crate::message::{opt_text, trim_text, trimmed};

verus! {

/// What the user asked for with one line of input.
pub enum Command {
    /// End the session.
    Quit,
    /// Send this text as the next user message.
    Send(String),
}

/// The inputs that end a session.
pub open spec fn is_sentinel(t: Seq<char>) -> bool {
    t == "q"@ || t == "quit"@ || t == "exit"@
}

/// The text shown when the latest response has no reply.
pub const NO_RESPONSE: &'static str = "No response found";

/// The command that already trimmed text stands for: a sentinel ends the
/// session, anything else is sent as it is.
pub fn command_of(text: String) -> (r: Command)
    ensures
        (r is Quit) == is_sentinel(text@),
        r is Send ==> r->Send_0@ == text@,
{
    let q = "q".to_owned();
    let quit = "quit".to_owned();
    let exit = "exit".to_owned();
    if text == q || text == quit || text == exit {
        Command::Quit
    } else {
        Command::Send(text)
    }
}

/// The command that a line of input stands for, once trimmed.
pub fn parse_command(line: &str) -> (r: Command)
    ensures
        (r is Quit) == is_sentinel(trimmed(line@)),
        r is Send ==> r->Send_0@ == trimmed(line@),
{
    command_of(trim_text(line))
}

/// The system instruction that already trimmed text stands for: none when
/// it is blank.
pub fn instruction_of(text: String) -> (r: Option<String>)
    ensures
        opt_text(r) == (if text@.len() == 0 { None } else { Some(text@) }),
{
    if text.as_str().is_empty() {
        None
    } else {
        Some(text)
    }
}

/// The system instruction that a line of input gives, once trimmed; none
/// when it is blank.
pub fn parse_system_instruction(line: &str) -> (r: Option<String>)
    ensures
        opt_text(r) == (if trimmed(line@).len() == 0 { None } else { Some(trimmed(line@)) }),
{
    instruction_of(trim_text(line))
}

/// The text to show for the latest reply: the reply itself, or a notice that
/// there is none.
pub fn answer_text(reply: Option<String>) -> (r: String)
    ensures
        r@ == (match opt_text(reply) {
            Some(t) => t,
            None => NO_RESPONSE@,
        }),
{
    match reply {
        Some(t) => t,
        None => NO_RESPONSE.to_owned(),
    }
}

} // verus!
