//! Invocations of Nix and SSH, and what is read from their output.

use crate::runtime_flow::{BuildTarget, ExtraSubstituter, FlakeInputOverride};
use crate::schema_runtime::flake_policy::EvalRefresh;
use crate::text::{
    char_views, chars_of, concat, join, joined, push_text, split, split_all, text_of, texts, trim,
    trimmed,
};
use vstd::prelude::*;

verus! {

/// A program and its arguments.
#[derive(Debug, PartialEq, Eq)]
pub struct NixCommand {
    pub program: String,
    pub arguments: Vec<String>,
}

/// The program and arguments of an invocation.
pub struct NixCommandView {
    pub program: Seq<char>,
    pub arguments: Seq<Seq<char>>,
}

impl View for NixCommand {
    type V = NixCommandView;

    open spec fn view(&self) -> NixCommandView {
        NixCommandView { program: self.program@, arguments: texts(self.arguments@) }
    }
}

/// The cache locations of `substituters`.
pub open spec fn substituter_urls(substituters: Seq<ExtraSubstituter>) -> Seq<Seq<char>> {
    substituters.map_values(|substituter: ExtraSubstituter| substituter.url@)
}

/// The signing keys of `substituters`.
pub open spec fn substituter_keys(substituters: Seq<ExtraSubstituter>) -> Seq<Seq<char>> {
    substituters.map_values(|substituter: ExtraSubstituter| substituter.public_key@)
}

/// The options that let a build use `substituters`; none where there are none.
pub open spec fn substituter_arguments(substituters: Seq<ExtraSubstituter>) -> Seq<Seq<char>> {
    if substituters.len() == 0 {
        Seq::empty()
    } else {
        seq![
            "--option"@,
            "extra-substituters"@,
            joined(substituter_urls(substituters), " "@),
            "--option"@,
            "extra-trusted-public-keys"@,
            joined(substituter_keys(substituters), " "@),
        ]
    }
}

/// The options that replace flake inputs.
pub open spec fn override_arguments(overrides: Seq<FlakeInputOverride>) -> Seq<Seq<char>>
    decreases overrides.len(),
{
    if overrides.len() == 0 {
        Seq::empty()
    } else {
        override_arguments(overrides.drop_last()) + seq![
            "--override-input"@,
            overrides.last().string@,
            overrides.last().flake_input_reference.url@ + "?narHash="@
                + overrides.last().flake_input_reference.nix_archive_hash@,
        ]
    }
}

/// The arguments of an evaluation to a derivation path.
pub open spec fn eval_arguments(
    attribute: Seq<char>,
    overrides: Seq<FlakeInputOverride>,
    refresh: EvalRefresh,
) -> Seq<Seq<char>> {
    let head = if refresh == EvalRefresh::ForceRefresh {
        seq!["eval"@, "--refresh"@, "--raw"@]
    } else {
        seq!["eval"@, "--raw"@]
    };
    (head + override_arguments(overrides)).push(attribute + ".drvPath"@)
}

/// The installable that stands for every output of a derivation.
pub open spec fn output_installable(closure_path: Seq<char>) -> Seq<char> {
    closure_path + "^*"@
}

/// The first line of `output` without surrounding white space.
pub open spec fn first_line(output: Seq<char>) -> Seq<char> {
    trim(split(output, '\n')[0])
}

/// How many of `lines` hold more than white space.
pub open spec fn count_filled(lines: Seq<Seq<char>>) -> nat
    decreases lines.len(),
{
    if lines.len() == 0 {
        0
    } else if trim(lines.last()).len() == 0 {
        count_filled(lines.drop_last())
    } else {
        count_filled(lines.drop_last()) + 1
    }
}

impl NixCommand {
    /// Pairs a program with its arguments.
    pub fn new(program: String, arguments: Vec<String>) -> (r: Self)
        ensures
            r.program == program,
            r.arguments == arguments,
    {
        NixCommand { program, arguments }
    }

    /// Asks Nix what a flake resolves to.
    pub fn flake_metadata(flake: &str) -> (r: Self)
        ensures
            r@.program == "nix"@,
            r@.arguments == seq!["flake"@, "metadata"@, "--json"@, flake@],
    {
        let mut arguments: Vec<String> = Vec::new();
        push_text(&mut arguments, "flake");
        push_text(&mut arguments, "metadata");
        push_text(&mut arguments, "--json");
        push_text(&mut arguments, flake);
        NixCommand::new("nix".to_owned(), arguments)
    }

    /// Evaluates `attribute` to its derivation path. The evaluation always runs
    /// against the local store: `target` adds nothing.
    pub fn eval_drv_path(
        attribute: &str,
        overrides: &[FlakeInputOverride],
        target: &BuildTarget,
        refresh: EvalRefresh,
    ) -> (r: Self)
        ensures
            r@.program == "nix"@,
            r@.arguments == eval_arguments(attribute@, overrides@, refresh),
    {
        let _ = target;
        let mut arguments: Vec<String> = Vec::new();
        push_text(&mut arguments, "eval");
        if refresh.adds_refresh_flag() {
            push_text(&mut arguments, "--refresh");
        }
        push_text(&mut arguments, "--raw");
        let ghost head = texts(arguments@);
        let mut options = Self::override_input_options(overrides);
        let ghost tail = texts(options@);
        arguments.append(&mut options);
        assert(texts(arguments@) =~= head + tail);
        push_text(&mut arguments, concat(attribute, ".drvPath").as_str());
        NixCommand::new("nix".to_owned(), arguments)
    }

    /// Hashes the directory at `path` the way Nix hashes a source.
    pub fn hash_path(path: &str) -> (r: Self)
        ensures
            r@.program == "nix"@,
            r@.arguments == seq!["hash"@, "path"@, "--type"@, "sha256"@, "--sri"@, path@],
    {
        let mut arguments: Vec<String> = Vec::new();
        push_text(&mut arguments, "hash");
        push_text(&mut arguments, "path");
        push_text(&mut arguments, "--type");
        push_text(&mut arguments, "sha256");
        push_text(&mut arguments, "--sri");
        push_text(&mut arguments, path);
        NixCommand::new("nix".to_owned(), arguments)
    }

    /// Realises every output of the derivation at `closure_path` locally.
    pub fn build_closure(closure_path: &str, substituters: &[ExtraSubstituter]) -> (r: Self)
        ensures
            r@.program == "nix"@,
            r@.arguments == seq![
                "build"@,
                "--no-link"@,
                "--print-out-paths"@,
                output_installable(closure_path@),
            ] + substituter_arguments(substituters@),
    {
        let mut arguments: Vec<String> = Vec::new();
        push_text(&mut arguments, "build");
        push_text(&mut arguments, "--no-link");
        push_text(&mut arguments, "--print-out-paths");
        push_text(&mut arguments, Self::output_installable(closure_path).as_str());
        let ghost head = texts(arguments@);
        let mut options = Self::substituter_options(substituters);
        let ghost tail = texts(options@);
        arguments.append(&mut options);
        assert(texts(arguments@) =~= head + tail);
        NixCommand::new("nix".to_owned(), arguments)
    }

    /// Builds exactly `installable`.
    pub fn build_check(installable: &str) -> (r: Self)
        ensures
            r@.program == "nix"@,
            r@.arguments == seq!["build"@, "--no-link"@, "--print-out-paths"@, installable@],
    {
        let mut arguments: Vec<String> = Vec::new();
        push_text(&mut arguments, "build");
        push_text(&mut arguments, "--no-link");
        push_text(&mut arguments, "--print-out-paths");
        push_text(&mut arguments, installable);
        NixCommand::new("nix".to_owned(), arguments)
    }

    /// Realises every output of the derivation at `closure_path` on the named
    /// builders only.
    pub fn build_closure_remote(
        closure_path: &str,
        builder_spec: &str,
        substituters: &[ExtraSubstituter],
    ) -> (r: Self)
        ensures
            r@.program == "nix"@,
            r@.arguments == seq![
                "build"@,
                "--no-link"@,
                "--print-out-paths"@,
                "--option"@,
                "max-jobs"@,
                "0"@,
                "--builders"@,
                builder_spec@,
                output_installable(closure_path@),
            ] + substituter_arguments(substituters@),
    {
        let mut arguments: Vec<String> = Vec::new();
        push_text(&mut arguments, "build");
        push_text(&mut arguments, "--no-link");
        push_text(&mut arguments, "--print-out-paths");
        push_text(&mut arguments, "--option");
        push_text(&mut arguments, "max-jobs");
        push_text(&mut arguments, "0");
        push_text(&mut arguments, "--builders");
        push_text(&mut arguments, builder_spec);
        push_text(&mut arguments, Self::output_installable(closure_path).as_str());
        let ghost head = texts(arguments@);
        let mut options = Self::substituter_options(substituters);
        let ghost tail = texts(options@);
        arguments.append(&mut options);
        assert(texts(arguments@) =~= head + tail);
        NixCommand::new("nix".to_owned(), arguments)
    }

    /// The installable that stands for every output of a derivation.
    pub fn output_installable(closure_path: &str) -> (r: String)
        ensures
            r@ == output_installable(closure_path@),
    {
        concat(closure_path, "^*")
    }

    /// The options that let a build use `substituters`.
    pub fn substituter_options(substituters: &[ExtraSubstituter]) -> (r: Vec<String>)
        ensures
            texts(r@) == substituter_arguments(substituters@),
    {
        let mut arguments: Vec<String> = Vec::new();
        if substituters.len() == 0 {
            assert(texts(arguments@) =~= Seq::<Seq<char>>::empty());
            return arguments;
        }
        let mut urls: Vec<String> = Vec::new();
        let mut public_keys: Vec<String> = Vec::new();
        let mut i: usize = 0;
        while i < substituters.len()
            invariant
                i <= substituters.len(),
                texts(urls@) == substituter_urls(substituters@.take(i as int)),
                texts(public_keys@) == substituter_keys(substituters@.take(i as int)),
            decreases substituters.len() - i,
        {
            assert(substituters@.take(i + 1) =~= substituters@.take(i as int).push(
                substituters@[i as int],
            ));
            push_text(&mut urls, substituters[i].url.as_str());
            push_text(&mut public_keys, substituters[i].public_key.as_str());
            assert(substituter_urls(substituters@.take(i + 1)) =~= texts(urls@));
            assert(substituter_keys(substituters@.take(i + 1)) =~= texts(public_keys@));
            i = i + 1;
        }
        assert(substituters@.take(i as int) =~= substituters@);
        push_text(&mut arguments, "--option");
        push_text(&mut arguments, "extra-substituters");
        push_text(&mut arguments, join(&urls, " ").as_str());
        push_text(&mut arguments, "--option");
        push_text(&mut arguments, "extra-trusted-public-keys");
        push_text(&mut arguments, join(&public_keys, " ").as_str());
        assert(texts(arguments@) =~= substituter_arguments(substituters@));
        arguments
    }

    /// The options that replace flake inputs.
    pub fn override_input_options(overrides: &[FlakeInputOverride]) -> (r: Vec<String>)
        ensures
            texts(r@) == override_arguments(overrides@),
    {
        let mut arguments: Vec<String> = Vec::new();
        let mut i: usize = 0;
        assert(texts(arguments@) =~= Seq::<Seq<char>>::empty());
        while i < overrides.len()
            invariant
                i <= overrides.len(),
                texts(arguments@) == override_arguments(overrides@.take(i as int)),
            decreases overrides.len() - i,
        {
            let ghost before = overrides@.take(i as int);
            let ghost after = overrides@.take(i + 1);
            assert(after.drop_last() =~= before);
            assert(after.last() == overrides@[i as int]);
            let reference = concat(
                concat(overrides[i].flake_input_reference.url.as_str(), "?narHash=").as_str(),
                overrides[i].flake_input_reference.nix_archive_hash.as_str(),
            );
            push_text(&mut arguments, "--override-input");
            push_text(&mut arguments, overrides[i].string.as_str());
            push_text(&mut arguments, reference.as_str());
            assert(texts(arguments@) =~= override_arguments(after));
            i = i + 1;
        }
        assert(overrides@.take(i as int) =~= overrides@);
        arguments
    }

    /// Collects garbage on a node.
    pub fn collect_garbage(node_name: &str) -> (r: Self)
        ensures
            r@.program == "ssh"@,
            r@.arguments == seq![node_name@, "nix-store --gc"@],
    {
        let mut arguments: Vec<String> = Vec::new();
        push_text(&mut arguments, node_name);
        push_text(&mut arguments, "nix-store --gc");
        NixCommand::new("ssh".to_owned(), arguments)
    }

    /// Asks for the short host name.
    pub fn short_hostname() -> (r: Self)
        ensures
            r@.program == "hostname"@,
            r@.arguments == seq!["-s"@],
    {
        let mut arguments: Vec<String> = Vec::new();
        push_text(&mut arguments, "-s");
        NixCommand::new("hostname".to_owned(), arguments)
    }

    /// What is reported of a run that exited with `status` and wrote `stderr`.
    pub fn failure_detail(&self, status: &str, stderr: &str) -> (r: String)
        ensures
            r@ == self.program@ + " "@ + joined(texts(self.arguments@), " "@) + " exited with "@
                + status@ + ": "@ + trim(stderr@),
    {
        let mut text = self.program.clone();
        text.append(" ");
        text.append(self.joined_arguments().as_str());
        text.append(" exited with ");
        text.append(status);
        text.append(": ");
        text.append(text_of(&trimmed(&chars_of(stderr))).as_str());
        text
    }

    /// The first line of `output` without surrounding white space.
    pub fn first_line(output: &str) -> (r: String)
        ensures
            r@ == first_line(output@),
    {
        let lines = split_all(&chars_of(output), '\n');
        assert(char_views(lines@)[0] == lines@[0]@);
        text_of(&trimmed(&lines[0]))
    }

    /// The first line of `output`, or `fallback` where it is blank.
    pub fn first_line_or(output: &str, fallback: &str) -> (r: String)
        ensures
            r@ == (if first_line(output@).len() == 0 {
                fallback@
            } else {
                first_line(output@)
            }),
    {
        let line = Self::first_line(output);
        if line.as_str().is_empty() {
            fallback.to_owned()
        } else {
            line
        }
    }

    /// How many lines of `output` hold more than white space.
    pub fn count_lines(output: &str) -> (r: u64)
        ensures
            r == count_filled(split(output@, '\n')),
    {
        let lines = split_all(&chars_of(output), '\n');
        let ghost all = split(output@, '\n');
        let mut count: u64 = 0;
        let mut i: usize = 0;
        while i < lines.len()
            invariant
                i <= lines.len(),
                char_views(lines@) == all,
                count == count_filled(all.take(i as int)),
                count <= i,
            decreases lines.len() - i,
        {
            assert(char_views(lines@)[i as int] == lines@[i as int]@);
            assert(all.take(i + 1).drop_last() =~= all.take(i as int));
            assert(all.take(i + 1).last() == lines@[i as int]@);
            if trimmed(&lines[i]).len() > 0 {
                count = count + 1;
            }
            i = i + 1;
        }
        assert(all.take(i as int) =~= all);
        count
    }

    /// The program name.
    pub fn program(&self) -> (r: &str)
        ensures
            r@ == self.program@,
    {
        self.program.as_str()
    }

    /// The arguments joined by single spaces.
    pub fn joined_arguments(&self) -> (r: String)
        ensures
            r@ == joined(texts(self.arguments@), " "@),
    {
        join(&self.arguments, " ")
    }
}

} // verus!
