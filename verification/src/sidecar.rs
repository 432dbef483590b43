//! The sidecar variant of the extension: besides answering the
//! command-resolution hook with a fixed placeholder command, it keeps at
//! most one handle to a spawned placeholder subprocess, created on the
//! first hook invocation and discarded at teardown.
//!
//! The spawn itself is the host glue's work. This module decides: whether a
//! spawn is needed, which command to spawn, how the held handle changes for
//! each spawn outcome, and that teardown clears the handle.

use vstd::prelude::*;
use vstd::string::StringExecFns;

use crate::command::{Command, CommandModel};

verus! {

/// The service port the sidecar is meant to listen on.
pub const SERVICE_PORT: u16 = 3001;

/// The fixed argument of the command the hook returns.
pub open spec fn ready_message() -> Seq<char> {
    "Kilocode AI Assistant Ready"@
}

/// The fixed argument of the placeholder process the extension spawns.
pub open spec fn spawn_message() -> Seq<char> {
    "Kilocode sidecar would start here"@
}

/// The prefix of the error reported when the spawn itself fails.
pub open spec fn failure_prefix() -> Seq<char> {
    "Failed to start sidecar: "@
}

/// The sidecar variant of the extension: the handle of the placeholder
/// subprocess, if one is held, and the configured service port. At most one
/// handle is held at a time.
pub struct KilocodeExtension {
    /// The host glue's name for the spawned subprocess, while one is held.
    pub sidecar_process: Option<u64>,
    pub service_port: u16,
}

/// The view of a spawn outcome: the handle the host glue obtained, or the
/// operating system's description of why the spawn failed.
pub open spec fn outcome_view(outcome: Result<u64, String>) -> Result<u64, Seq<char>> {
    match outcome {
        Ok(id) => Ok(id),
        Err(detail) => Err(detail@),
    }
}

/// How one "ensure started" step changes the held handle: a handle already
/// held stays as it is, and only its absence lets a spawn outcome decide —
/// a successful spawn's handle is stored, a failed spawn leaves none held.
pub open spec fn ensure_step(handle: Option<u64>, outcome: Result<u64, Seq<char>>) -> Option<
    u64,
> {
    if handle is Some {
        handle
    } else {
        match outcome {
            Ok(id) => Some(id),
            Err(_) => None,
        }
    }
}

/// While a handle is held, "ensure started" is a no-op: whatever a spawn
/// event would report, the step keeps the held handle unchanged.
pub proof fn lemma_ensure_no_op_while_running(handle: Option<u64>, outcome: Result<
    u64,
    Seq<char>,
>)
    requires
        handle is Some,
    ensures
        ensure_step(handle, outcome) == handle,
{
}

/// "Ensure started" is idempotent: once a step leaves a handle held, a
/// second step in sequence changes nothing, so exactly one handle is held.
pub proof fn lemma_ensure_started_idempotent(
    handle: Option<u64>,
    first: Result<u64, Seq<char>>,
    second: Result<u64, Seq<char>>,
)
    requires
        ensure_step(handle, first) is Some,
    ensures
        ensure_step(ensure_step(handle, first), second) == ensure_step(handle, first),
{
}

impl KilocodeExtension {
    pub fn new() -> (ext: Self)
        ensures
            ext.sidecar_process is None,
            ext.service_port == SERVICE_PORT,
    {
        KilocodeExtension { sidecar_process: None, service_port: SERVICE_PORT }
    }

    /// Whether "ensure started" must spawn the placeholder process: only
    /// when no handle is held yet.
    pub fn needs_spawn(&self) -> (r: bool)
        ensures
            r == (self.sidecar_process is None),
    {
        self.sidecar_process.is_none()
    }

    /// The fixed diagnostic command the extension spawns as its placeholder
    /// sidecar process.
    pub fn spawn_command(&self) -> (c: Command)
        ensures
            c@ == spawn_command_model(),
    {
        let mut args: Vec<String> = Vec::new();
        args.push("Kilocode sidecar would start here".to_owned());
        let c = Command { command: "echo".to_owned(), args, env: Vec::new() };
        proof {
            assert(c@ =~~= spawn_command_model());
        }
        c
    }

    /// Finish an "ensure started" step with what the host glue's spawn
    /// attempt produced. A handle obtained is stored; a spawn failure
    /// leaves no handle held and is surfaced as a descriptive error.
    pub fn record_spawn_outcome(&mut self, outcome: Result<u64, String>) -> (r: Result<
        (),
        String,
    >)
        requires
            old(self).sidecar_process is None,
        ensures
            final(self).sidecar_process == ensure_step(
                old(self).sidecar_process,
                outcome_view(outcome),
            ),
            final(self).service_port == old(self).service_port,
            r is Ok <==> outcome is Ok,
            outcome is Err ==> (r->Err_0)@ == failure_prefix() + (outcome->Err_0)@,
    {
        match outcome {
            Ok(id) => {
                self.sidecar_process = Some(id);
                Ok(())
            },
            Err(detail) => {
                let message = String::from_str("Failed to start sidecar: ").concat(
                    detail.as_str(),
                );
                Err(message)
            },
        }
    }

    /// Answer the host's request for the language-server command. The
    /// requested identifier and the outcome of the preceding "ensure
    /// started" step are both ignored: the hook always succeeds and always
    /// returns the fixed placeholder command, so an ensure failure is never
    /// propagated to the host.
    pub fn language_server_command(
        &self,
        language_server_id: &str,
        ensure_outcome: Result<(), String>,
    ) -> (r: Result<Command, String>)
        ensures
            r is Ok,
            (r->Ok_0)@ == hook_command_model(language_server_id@, outcome_view_unit(
                ensure_outcome,
            )),
    {
        let mut args: Vec<String> = Vec::new();
        args.push("Kilocode AI Assistant Ready".to_owned());
        let cmd = Command { command: "echo".to_owned(), args, env: Vec::new() };
        proof {
            assert(cmd@ =~~= hook_command_model(
                language_server_id@,
                outcome_view_unit(ensure_outcome),
            ));
        }
        Ok(cmd)
    }

    /// Tear the extension down: give the held handle, if any, back to the
    /// host glue so it can signal the process, and hold none afterwards —
    /// whatever becomes of the termination attempt.
    pub fn teardown(&mut self) -> (r: Option<u64>)
        ensures
            final(self).sidecar_process is None,
            r == old(self).sidecar_process,
            final(self).service_port == old(self).service_port,
    {
        let handle = self.sidecar_process;
        self.sidecar_process = None;
        handle
    }
}

/// The view of an "ensure started" result handed to the hook.
pub open spec fn outcome_view_unit(outcome: Result<(), String>) -> Result<(), Seq<char>> {
    match outcome {
        Ok(u) => Ok(u),
        Err(detail) => Err(detail@),
    }
}

/// What the hook returns, as a function of the requested language-server
/// identifier and the outcome of the preceding "ensure started" step: the
/// same fixed `echo` command with an empty environment, whatever both are.
pub open spec fn hook_command_model(
    language_server_id: Seq<char>,
    ensure_outcome: Result<(), Seq<char>>,
) -> CommandModel {
    CommandModel { program: "echo"@, args: seq![ready_message()], env: Seq::empty() }
}

/// The fixed command the extension spawns: `echo` with one diagnostic
/// argument and an empty environment.
pub open spec fn spawn_command_model() -> CommandModel {
    CommandModel { program: "echo"@, args: seq![spawn_message()], env: Seq::empty() }
}

/// The hook's result never depends on its inputs: any two language-server
/// identifiers, and any two "ensure started" outcomes — success or a spawn
/// failure — resolve to the same command.
pub proof fn lemma_hook_command_independent_of_input(
    id1: Seq<char>,
    id2: Seq<char>,
    outcome1: Result<(), Seq<char>>,
    outcome2: Result<(), Seq<char>>,
)
    ensures
        hook_command_model(id1, outcome1) == hook_command_model(id2, outcome2),
{
    assert(hook_command_model(id1, outcome1) =~~= hook_command_model(id2, outcome2));
}

} // verus!
