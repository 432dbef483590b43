//! The command descriptor that the extension hands back to the host: a
//! program name, an ordered argument list, and an environment mapping.

use vstd::prelude::*;

verus! {

/// What the host is told to run as the language server: a program, its
/// arguments in order, and environment variable bindings.
pub struct Command {
    pub command: String,
    pub args: Vec<String>,
    pub env: Vec<(String, String)>,
}

/// The mathematical shape of a [`Command`]: the program name and each
/// argument and environment binding as character sequences.
#[verifier::ext_equal]
pub struct CommandModel {
    pub program: Seq<char>,
    pub args: Seq<Seq<char>>,
    pub env: Seq<(Seq<char>, Seq<char>)>,
}

impl View for Command {
    type V = CommandModel;

    open spec fn view(&self) -> CommandModel {
        CommandModel {
            program: self.command@,
            args: self.args@.map_values(|a: String| a@),
            env: self.env@.map_values(|e: (String, String)| (e.0@, e.1@)),
        }
    }
}

} // verus!
