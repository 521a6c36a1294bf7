//! Rules on text: names, paths, quoting and policies.

use lojix::paths::{components_of, file_name, join_path, parent};
use lojix::schema_runtime::flake_policy::{immutable_revision, FlakeReferencePolicy};
use lojix::schema_runtime::materialization::{input_override, GeneratedInputName, NarHash};
use lojix::schema_runtime::nix_command::NixCommand;
use lojix::schema_runtime::shell::ShellArgument;
use lojix::schema_runtime::ssh_target::SshTarget;
use lojix::schema_runtime::store_path::canonical_nix_store_root;
use lojix::text::{credential_like, decimal_text, join};

#[test]
fn numbers_are_written_in_decimal() {
    assert_eq!(decimal_text(0), "0");
    assert_eq!(decimal_text(10), "10");
    assert_eq!(decimal_text(18446744073709551615), "18446744073709551615");
}

#[test]
fn texts_are_joined() {
    assert_eq!(lojix::text::concat("a", "\u{e9}b"), "a\u{e9}b");
    assert_eq!(join(&vec!["a".to_string(), "".to_string(), "b".to_string()], ","), "a,,b");
    assert_eq!(join(&Vec::new(), ","), "");
}

#[test]
fn credentials_are_recognized_in_any_case() {
    assert!(credential_like("release-SECRET"));
    assert!(credential_like("apiKEY"));
    assert!(!credential_like("release/v0.4"));
}

#[test]
fn paths_are_taken_apart_as_the_file_system_does() {
    assert_eq!(join_path("/a", "b"), "/a/b");
    assert_eq!(join_path("/a/", "b"), "/a/b");
    assert_eq!(join_path("/a", "/b"), "/b");
    assert_eq!(parent("/a/b"), Some("/a".to_string()));
    assert_eq!(parent("/"), None);
    assert_eq!(file_name("/a/b.datom"), Some("b.datom".to_string()));
    assert_eq!(file_name("/a/.."), None);
    assert_eq!(components_of("/a//b/"), vec!["a".to_string(), "b".to_string()]);
}

#[test]
fn shell_arguments_are_quoted() {
    let text = |value: &str| ShellArgument::new(value.to_string()).to_command_text();
    assert_eq!(text("/nix/store/a-b_c.d=e:f#g+h,1"), "/nix/store/a-b_c.d=e:f#g+h,1");
    assert_eq!(text(""), "''");
    assert_eq!(text("two words"), "'two words'");
    assert_eq!(text("it's"), "'it'\\''s'");
}

#[test]
fn store_roots_are_canonical() {
    assert!(canonical_nix_store_root("/nix/store/aaaaaaaaaaaaaaaaaaaaaaaaaaaaaaaa-toplevel"));
    assert!(!canonical_nix_store_root("/nix/store/aaaaaaaaaaaaaaaaaaaaaaaaaaaaaaaa-private-secret"));
    assert!(!canonical_nix_store_root("/nix/store/aaaa-toplevel"));
    assert!(!canonical_nix_store_root("/nix/store/aaaaaaaaaaaaaaaaaaaaaaaaaaaaaaaa-a/b"));
    assert!(!canonical_nix_store_root(""));
}

#[test]
fn revisions_are_forty_hexadecimal_digits() {
    let revision = "0123456789abcdef0123456789abcdef01234567";
    assert_eq!(immutable_revision(revision).expect("a revision").payload(), revision);
    assert!(immutable_revision("0123456789ABCDEF0123456789abcdef01234567").is_none());
    assert!(immutable_revision("0123").is_none());
    let pinned = format!("github:owner/repo?rev={revision}");
    assert_eq!(
        FlakeReferencePolicy::new(&pinned).immutable_revision().expect("a pin").payload(),
        revision
    );
    assert!(FlakeReferencePolicy::new("github:owner/repo").immutable_revision().is_none());
}

#[test]
fn percent_signs_are_decoded_once() {
    assert_eq!(FlakeReferencePolicy::percent_decode_once("a%2Fb"), Some("a/b".to_string()));
    assert_eq!(FlakeReferencePolicy::percent_decode_once("a%252F"), None);
    assert_eq!(FlakeReferencePolicy::percent_decode_once("a%2"), None);
    assert_eq!(FlakeReferencePolicy::percent_decode_once("a%ZZ"), None);
    assert_eq!(FlakeReferencePolicy::percent_decode_once("%FF"), None);
    assert_eq!(FlakeReferencePolicy::percent_decode_once("%C3%A9"), Some("\u{e9}".to_string()));
}

#[test]
fn hashes_are_escaped_in_queries() {
    let hash = NarHash("sha256-a+b/c=".to_string());
    assert_eq!(hash.as_url_query_value(), "sha256-a%2Bb%2Fc%3D");
    let given = input_override(GeneratedInputName::Secrets, "/inputs/secrets", &hash);
    assert_eq!(given.string, "secrets");
    assert_eq!(given.flake_input_reference.url, "path:/inputs/secrets");
    assert_eq!(given.flake_input_reference.nix_archive_hash, "sha256-a%2Bb%2Fc%3D");
}

#[test]
fn outputs_are_read_by_lines() {
    assert_eq!(NixCommand::first_line(" /nix/store/a \nrest"), "/nix/store/a");
    assert_eq!(NixCommand::first_line_or("\n", "fallback"), "fallback");
    assert_eq!(NixCommand::first_line_or("x\n", "fallback"), "x");
    assert_eq!(NixCommand::count_lines("a\n \nb"), 2);
    let command = NixCommand::new("nix".to_string(), vec!["build".to_string(), "x".to_string()]);
    assert_eq!(
        command.failure_detail("exit status: 1", " broken \n"),
        "nix build x exited with exit status: 1: broken"
    );
}

#[test]
fn destinations_name_a_login_and_a_host() {
    assert_eq!(SshTarget::validate_ssh_destination("root@host.invalid"), Ok(()));
    assert!(SshTarget::validate_ssh_destination("root").is_err());
    assert!(SshTarget::validate_ssh_destination("-oProxyCommand=x@host").is_err());
    assert_eq!(SshTarget::validate_nix_store_uri("ssh-ng://host.invalid"), Ok(()));
    assert!(SshTarget::validate_nix_store_uri("host.invalid").is_err());
}
