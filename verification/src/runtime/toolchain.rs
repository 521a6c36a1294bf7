//! The external commands of a deployment: what each one runs, and what its
//! outcome means.

use crate::error::Error;
use crate::generated::{
    ActivationCommand, ActivationKind, ActivationRecord, BuildCommand, BuildLog, BuildRecord,
    ClosurePath, CopyCommand, CopyRecord, GenerationIdentifier, HorizonView, TargetNode,
    Toolchain,
};
use crate::text::{chars_of, concat, decimal, decimal_text, push_text, text_of, texts, trim, trimmed};
use vstd::prelude::*;

verus! {

/// Whether commands are run or only named.
#[derive(Clone, Copy, Debug, PartialEq, Eq, Structural)]
pub enum ToolchainMode {
    /// Every command is echoed.
    Sandbox,
    /// Commands are run by the shell.
    Production,
}

/// The commands and the mode they are run in.
#[derive(Debug, PartialEq, Eq)]
pub struct ProcessToolchain {
    pub toolchain: Toolchain,
    pub mode: ToolchainMode,
}

impl Clone for ProcessToolchain {
    fn clone(&self) -> (r: Self)
        ensures
            r == *self,
    {
        ProcessToolchain { toolchain: self.toolchain.clone(), mode: self.mode }
    }
}

/// A program and its arguments.
#[derive(Debug, PartialEq, Eq)]
pub struct ToolCommand {
    pub program: String,
    pub arguments: Vec<String>,
}

/// What a command that was run came to: what it printed, or how it failed.
pub type ToolOutcome = Result<(String, String), String>;

/// The arguments of a configured command in a mode.
pub open spec fn tool_arguments(
    mode: ToolchainMode,
    command: Seq<char>,
    argument: Seq<char>,
) -> Seq<Seq<char>> {
    match mode {
        ToolchainMode::Sandbox => seq!["sandbox:"@ + command + ":"@ + argument],
        ToolchainMode::Production => seq!["-c"@, command + " "@ + argument],
    }
}

impl ToolCommand {
    /// The command runs `command` on `argument` in `mode`.
    pub open spec fn runs(&self, mode: ToolchainMode, command: Seq<char>, argument: Seq<char>) -> bool {
        &&& self.program@ == (match mode {
            ToolchainMode::Sandbox => "echo"@,
            ToolchainMode::Production => "sh"@,
        })
        &&& texts(self.arguments@) == tool_arguments(mode, command, argument)
    }
}

/// The name of an activation kind.
pub open spec fn kind_text(kind: ActivationKind) -> Seq<char> {
    match kind {
        ActivationKind::Switch => "Switch"@,
        ActivationKind::Boot => "Boot"@,
        ActivationKind::Test => "Test"@,
    }
}

fn kind_name(kind: ActivationKind) -> (r: &'static str)
    ensures
        r@ == kind_text(kind),
{
    match kind {
        ActivationKind::Switch => "Switch",
        ActivationKind::Boot => "Boot",
        ActivationKind::Test => "Test",
    }
}

/// An exit code as failures name it.
pub open spec fn code_text(code: Option<i32>) -> Seq<char> {
    match code {
        None => "None"@,
        Some(value) => if value < 0 {
            "Some(-"@ + decimal((-value) as nat) + ")"@
        } else {
            "Some("@ + decimal(value as nat) + ")"@
        },
    }
}

fn code_name(code: Option<i32>) -> (r: String)
    ensures
        r@ == code_text(code),
{
    match code {
        None => "None".to_string(),
        Some(value) => {
            let (head, size): (&str, u64) = if value < 0 {
                ("Some(-", (-(value as i64)) as u64)
            } else {
                ("Some(", value as u64)
            };
            let number = decimal_text(size);
            let open = concat(head, number.as_str());
            concat(open.as_str(), ")")
        },
    }
}

fn trimmed_text(text: &str) -> (r: String)
    ensures
        r@ == trim(text@),
{
    text_of(&trimmed(&chars_of(text)))
}

/// What a finished process means: its trimmed output, or its code and what it
/// printed as errors.
pub fn process_outcome(success: bool, code: Option<i32>, stdout: &str, stderr: &str) -> (r:
    ToolOutcome)
    ensures
        success ==> (r matches Ok((out, log)) && out@ == trim(stdout@) && log@ == trim(stderr@)),
        !success ==> (r matches Err(detail) && detail@ == "exit "@ + code_text(code) + ": "@
            + stderr@),
{
    if success {
        Ok((trimmed_text(stdout), trimmed_text(stderr)))
    } else {
        let number = code_name(code);
        let head = concat("exit ", number.as_str());
        let open = concat(head.as_str(), ": ");
        Err(concat(open.as_str(), stderr))
    }
}

/// What a process that could not be started means.
pub fn spawn_failure(error: &str) -> (r: ToolOutcome)
    ensures
        r matches Err(detail) && detail@ == "spawn failed: "@ + error@,
{
    Err(concat("spawn failed: ", error))
}

fn named_failure(command: &str, detail: &str) -> (r: String)
    ensures
        r@ == command@ + ": "@ + detail@,
{
    let head = concat(command, ": ");
    concat(head.as_str(), detail)
}

impl ProcessToolchain {
    /// The commands in `toolchain`, run in `mode`.
    pub fn new(toolchain: Toolchain, mode: ToolchainMode) -> (r: Self)
        ensures
            r.toolchain == toolchain,
            r.mode == mode,
    {
        ProcessToolchain { toolchain, mode }
    }

    /// The commands.
    pub fn toolchain(&self) -> (r: &Toolchain)
        ensures
            *r == self.toolchain,
    {
        &self.toolchain
    }

    /// The mode.
    pub fn mode(&self) -> (r: ToolchainMode)
        ensures
            r == self.mode,
    {
        self.mode
    }

    /// Runs a configured command on an argument.
    pub fn command(&self, command_text: &str, argument: &str) -> (r: ToolCommand)
        ensures
            r.runs(self.mode, command_text@, argument@),
    {
        let mut arguments: Vec<String> = Vec::new();
        assert(texts(arguments@) =~= Seq::<Seq<char>>::empty());
        match self.mode {
            ToolchainMode::Sandbox => {
                let head = concat("sandbox:", command_text);
                let open = concat(head.as_str(), ":");
                let whole = concat(open.as_str(), argument);
                push_text(&mut arguments, whole.as_str());
                assert(texts(arguments@) =~= tool_arguments(
                    self.mode,
                    command_text@,
                    argument@,
                ));
                ToolCommand { program: "echo".to_string(), arguments }
            },
            ToolchainMode::Production => {
                let head = concat(command_text, " ");
                let whole = concat(head.as_str(), argument);
                push_text(&mut arguments, "-c");
                push_text(&mut arguments, whole.as_str());
                assert(texts(arguments@) =~= tool_arguments(
                    self.mode,
                    command_text@,
                    argument@,
                ));
                ToolCommand { program: "sh".to_string(), arguments }
            },
        }
    }

    /// Builds a view of the cluster.
    pub fn build_invocation(&self, horizon_view: &HorizonView) -> (r: ToolCommand)
        ensures
            r.runs(self.mode, self.toolchain.build_command@, horizon_view@),
    {
        self.command(self.toolchain.build_command.0.as_str(), horizon_view.0.as_str())
    }

    /// What a build came to: the closure is what it printed, its log what it
    /// printed as errors.
    pub fn execute_build(&self, generation: GenerationIdentifier, outcome: ToolOutcome) -> (r:
        Result<BuildRecord, Error>)
        ensures
            match outcome {
                Ok((closure_path, log)) => r == Ok::<BuildRecord, Error>(
                    BuildRecord {
                        generation_identifier: generation,
                        closure_path: ClosurePath(closure_path),
                        build_log: BuildLog(log),
                    },
                ),
                Err(detail) => r matches Err(Error::BuildFailed(text)) && text@
                    == self.toolchain.build_command@ + ": "@ + detail@,
            },
    {
        match outcome {
            Ok((closure_path, log)) => Ok(
                BuildRecord {
                    generation_identifier: generation,
                    closure_path: ClosurePath(closure_path),
                    build_log: BuildLog(log),
                },
            ),
            Err(detail) => Err(
                Error::BuildFailed(
                    named_failure(self.toolchain.build_command.0.as_str(), detail.as_str()),
                ),
            ),
        }
    }

    /// Copies a closure to a node.
    pub fn copy_invocation(&self, build: &BuildRecord, target_node: &TargetNode) -> (r: ToolCommand)
        ensures
            r.runs(
                self.mode,
                self.toolchain.copy_command@,
                build.closure_path@ + "::"@ + target_node@,
            ),
    {
        let head = concat(build.closure_path.0.as_str(), "::");
        let argument = concat(head.as_str(), target_node.0.as_str());
        self.command(self.toolchain.copy_command.0.as_str(), argument.as_str())
    }

    /// What a copy came to.
    pub fn execute_copy(
        &self,
        build: &BuildRecord,
        target_node: TargetNode,
        outcome: ToolOutcome,
    ) -> (r: Result<CopyRecord, Error>)
        ensures
            match outcome {
                Ok(_) => r == Ok::<CopyRecord, Error>(
                    CopyRecord {
                        generation_identifier: build.generation_identifier,
                        target_node,
                        closure_path: build.closure_path,
                    },
                ),
                Err(detail) => r matches Err(Error::CopyFailed(text)) && text@
                    == self.toolchain.copy_command@ + ": "@ + detail@,
            },
    {
        match outcome {
            Ok(_) => Ok(
                CopyRecord {
                    generation_identifier: build.generation_identifier,
                    target_node,
                    closure_path: build.closure_path.clone(),
                },
            ),
            Err(detail) => Err(
                Error::CopyFailed(
                    named_failure(self.toolchain.copy_command.0.as_str(), detail.as_str()),
                ),
            ),
        }
    }

    /// Puts a copied closure into effect.
    pub fn activation_invocation(&self, copy: &CopyRecord, activation_kind: ActivationKind) -> (r:
        ToolCommand)
        ensures
            r.runs(
                self.mode,
                self.toolchain.activation_command@,
                copy.closure_path@ + "::"@ + copy.target_node@ + "::"@ + kind_text(
                    activation_kind,
                ),
            ),
    {
        let head = concat(copy.closure_path.0.as_str(), "::");
        let open = concat(head.as_str(), copy.target_node.0.as_str());
        let next = concat(open.as_str(), "::");
        let argument = concat(next.as_str(), kind_name(activation_kind));
        self.command(self.toolchain.activation_command.0.as_str(), argument.as_str())
    }

    /// What an activation came to.
    pub fn execute_activation(
        &self,
        copy: &CopyRecord,
        activation_kind: ActivationKind,
        outcome: ToolOutcome,
    ) -> (r: Result<ActivationRecord, Error>)
        ensures
            match outcome {
                Ok(_) => r == Ok::<ActivationRecord, Error>(
                    ActivationRecord {
                        generation_identifier: copy.generation_identifier,
                        target_node: copy.target_node,
                        activation_kind,
                    },
                ),
                Err(detail) => r matches Err(Error::ActivationFailed(text)) && text@
                    == self.toolchain.activation_command@ + ": "@ + detail@,
            },
    {
        match outcome {
            Ok(_) => Ok(
                ActivationRecord {
                    generation_identifier: copy.generation_identifier,
                    target_node: copy.target_node.clone(),
                    activation_kind,
                },
            ),
            Err(detail) => Err(
                Error::ActivationFailed(
                    named_failure(self.toolchain.activation_command.0.as_str(), detail.as_str()),
                ),
            ),
        }
    }

    /// Pins a build: its own generation is the one that is pinned.
    pub fn execute_pin(&self, build: &BuildRecord) -> (r: GenerationIdentifier)
        ensures
            r == build.generation_identifier,
    {
        build.generation_identifier
    }
}

impl Toolchain {
    /// The commands of a sandbox.
    pub fn sandbox_default() -> (r: Self)
        ensures
            r.build_command@ == "nix-build-sandbox"@,
            r.copy_command@ == "nix-copy-sandbox"@,
            r.activation_command@ == "nixos-rebuild-sandbox"@,
    {
        Toolchain {
            build_command: BuildCommand("nix-build-sandbox".to_string()),
            copy_command: CopyCommand("nix-copy-sandbox".to_string()),
            activation_command: ActivationCommand("nixos-rebuild-sandbox".to_string()),
        }
    }
}

} // verus!
