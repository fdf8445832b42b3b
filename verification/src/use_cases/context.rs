//! Per-invocation execution metadata.

use vstd::prelude::*;

verus! {

/// Identifies the logical command being executed.
#[derive(Debug, Clone, Copy, PartialEq, Eq, Structural)]
pub enum CommandName {
    Build,
    Test,
    Dump,
    Syntax,
    Launch,
}

/// The stable label of a command.
pub open spec fn command_label(c: CommandName) -> Seq<char> {
    match c {
        CommandName::Build => "build"@,
        CommandName::Test => "test"@,
        CommandName::Dump => "dump"@,
        CommandName::Syntax => "syntax"@,
        CommandName::Launch => "launch"@,
    }
}

impl CommandName {
    /// Returns the stable command label used in logs and CLI envelopes.
    pub fn as_str(self) -> (s: &'static str)
        ensures
            s@ == command_label(self),
    {
        match self {
            CommandName::Build => "build",
            CommandName::Test => "test",
            CommandName::Dump => "dump",
            CommandName::Syntax => "syntax",
            CommandName::Launch => "launch",
        }
    }
}

/// Describes the transport that invoked the use case.
#[derive(Debug, Clone, Copy, PartialEq, Eq, Structural)]
pub enum ExecutionTransport {
    Cli,
    McpStdio,
    McpHttp,
}

/// Per-invocation metadata passed into transport-neutral use cases.
#[derive(Debug, Clone, Copy, PartialEq, Eq, Structural)]
pub struct ExecutionContext {
    command: CommandName,
    transport: ExecutionTransport,
}

impl ExecutionContext {
    pub closed spec fn spec_command(self) -> CommandName {
        self.command
    }

    pub closed spec fn spec_transport(self) -> ExecutionTransport {
        self.transport
    }

    /// Creates a CLI execution context for the specified command.
    pub fn cli(command: CommandName) -> (c: Self)
        ensures
            c.spec_command() == command,
            c.spec_transport() == ExecutionTransport::Cli,
    {
        ExecutionContext { command, transport: ExecutionTransport::Cli }
    }

    /// Returns the command being executed.
    pub fn command(self) -> (c: CommandName)
        ensures
            c == self.spec_command(),
    {
        self.command
    }

    /// Returns the transport that initiated this execution.
    pub fn transport(self) -> (t: ExecutionTransport)
        ensures
            t == self.spec_transport(),
    {
        self.transport
    }
}

} // verus!
