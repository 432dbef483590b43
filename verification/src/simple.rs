//! The plain variant of the extension: it holds no state and answers the
//! command-resolution hook with one fixed placeholder command, whatever
//! language server is asked for.

use vstd::prelude::*;

use crate::command::{Command, CommandModel};

verus! {

/// The fixed argument the placeholder command prints.
pub open spec fn loaded_message() -> Seq<char> {
    "Kilocode AI Extension Loaded - Sidecar at http://localhost:3001"@
}

/// What the hook returns, as a function of the requested language-server
/// identifier: the same fixed `echo` command with an empty environment,
/// whatever that identifier is.
pub open spec fn hook_command_model(language_server_id: Seq<char>) -> CommandModel {
    CommandModel {
        program: "echo"@,
        args: seq![loaded_message()],
        env: Seq::empty(),
    }
}

/// The hook's result never depends on its input: any two language-server
/// identifiers resolve to the same command.
pub proof fn lemma_hook_command_independent_of_input(id1: Seq<char>, id2: Seq<char>)
    ensures
        hook_command_model(id1) == hook_command_model(id2),
{
    assert(hook_command_model(id1) =~~= hook_command_model(id2));
}

/// The plain extension variant: no held resources, no configuration.
pub struct KilocodeExtension {
}

impl KilocodeExtension {
    pub fn new() -> (ext: Self) {
        KilocodeExtension {}
    }

    /// Answer the host's request for the language-server command. The
    /// requested identifier is ignored: the hook always succeeds and always
    /// returns the fixed placeholder command.
    pub fn language_server_command(&self, language_server_id: &str) -> (r: Result<
        Command,
        String,
    >)
        ensures
            r is Ok,
            (r->Ok_0)@ == hook_command_model(language_server_id@),
    {
        let mut args: Vec<String> = Vec::new();
        args.push(
            "Kilocode AI Extension Loaded - Sidecar at http://localhost:3001".to_owned(),
        );
        let cmd = Command { command: "echo".to_owned(), args, env: Vec::new() };
        proof {
            assert(cmd@ =~~= hook_command_model(language_server_id@));
        }
        Ok(cmd)
    }
}

} // verus!
