use vstd::prelude::*;

verus! {

/// The errors a command reports to its caller.
#[derive(Debug)]
pub enum CadencyError {
    Environment(String),
    Start,
    Runtime(String),
    Join,
    Response,
    Command { message: String },
    ResponseBuilder,
}

/// `r` is the command error whose message reads `text`.
pub open spec fn is_command_error<T>(r: Result<T, CadencyError>, text: Seq<char>) -> bool {
    &&& r is Err
    &&& r->Err_0 is Command
    &&& r->Err_0->Command_message@ == text
}

/// A command error with the given message.
pub fn command_error(message: &str) -> (r: CadencyError)
    ensures
        r is Command,
        r->Command_message@ == message@,
{
    CadencyError::Command { message: String::from_str(message) }
}

} // verus!
