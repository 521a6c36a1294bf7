//! The request-owned route to a deployment target, and copying a closure along it.

use crate::runtime_flow::{CopyClosureCommand, DeploymentTransport};
use crate::schema_runtime::nix_command::{NixCommand, NixCommandView};
use crate::schema_runtime::shell::ShellCommand;
use crate::text::{
    ascii_blank, ascii_control, begins_with, chars_of, contains_char, is_ascii_blank,
    is_ascii_control, is_text, push_text, split_at_first, split_once, starts_with, texts,
};
use vstd::prelude::*;

verus! {

/// Text without blanks and control characters.
pub open spec fn is_unspaced(s: Seq<char>) -> bool {
    forall|i: int|
        0 <= i < s.len() ==> !is_ascii_blank(#[trigger] s[i]) && !is_ascii_control(s[i])
}

/// Whether `v` holds neither blanks nor control characters.
pub fn unspaced(v: &Vec<char>) -> (r: bool)
    ensures
        r == is_unspaced(v@),
{
    let mut i: usize = 0;
    while i < v.len()
        invariant
            i <= v.len(),
            forall|j: int|
                0 <= j < i ==> !is_ascii_blank(#[trigger] v@[j]) && !is_ascii_control(v@[j]),
        decreases v.len() - i,
    {
        let c = v[i];
        if ascii_blank(c) || ascii_control(c) {
            assert(is_ascii_blank(v@[i as int]) || is_ascii_control(v@[i as int]));
            return false;
        }
        i = i + 1;
    }
    true
}

/// A nonempty `ssh-ng://` location without blanks and control characters.
pub open spec fn is_store_uri(s: Seq<char>) -> bool {
    starts_with(s, "ssh-ng://"@) && s.len() != "ssh-ng://"@.len() && is_unspaced(s)
}

/// Text that SSH takes as one destination rather than an option.
pub open spec fn is_destination_text(s: Seq<char>) -> bool {
    s.len() > 0 && !starts_with(s, "-"@) && is_unspaced(s)
}

/// `<login>@<host>`, both nonempty, with one `@`.
pub open spec fn is_ssh_destination(s: Seq<char>) -> bool {
    is_destination_text(s) && match split_once(s, '@') {
        Some((login, host)) => login.len() > 0 && host.len() > 0 && !host.contains('@'),
        None => false,
    }
}

/// What an unusable store location is answered.
pub open spec fn store_uri_fault() -> Seq<char> {
    "deployment nix_store_uri must be a nonempty ssh-ng URI without whitespace or controls"@
}

/// What an unusable SSH destination is answered.
pub open spec fn ssh_destination_fault(s: Seq<char>) -> Seq<char> {
    if !is_destination_text(s) {
        "deployment ssh_destination must be a nonempty SSH destination without whitespace or controls"@
    } else if split_once(s, '@') is None {
        "deployment ssh_destination must contain an explicit login and host"@
    } else {
        "deployment ssh_destination must contain exactly one nonempty login and host"@
    }
}

/// The login of a destination.
pub open spec fn login_of(destination: Seq<char>) -> Seq<char> {
    match split_once(destination, '@') {
        Some((login, _)) => login,
        None => destination,
    }
}

/// What the SSH login may do for a user's environment.
#[derive(Clone, Copy, Debug, PartialEq, Eq, Structural)]
pub enum RemoteUserActivationAuthority {
    MatchedUser,
    RootMediated,
    UnprivilegedMismatch,
}

/// The authority that `login` carries for `user`.
pub open spec fn authority_of(
    login: Seq<char>,
    user: Seq<char>,
) -> RemoteUserActivationAuthority {
    if login == user {
        RemoteUserActivationAuthority::MatchedUser
    } else if login == "root"@ {
        RemoteUserActivationAuthority::RootMediated
    } else {
        RemoteUserActivationAuthority::UnprivilegedMismatch
    }
}

/// The invocation that runs `script` at `destination`.
pub open spec fn remote_command(destination: Seq<char>, script: Seq<char>) -> NixCommandView {
    NixCommandView {
        program: "ssh"@,
        arguments: seq!["-o"@, "BatchMode=yes"@, destination, script],
    }
}

/// A validated route: Nix copies to the store location, SSH activates at the
/// destination. Both are used exactly as requested.
#[derive(Debug, PartialEq, Eq)]
pub struct SshTarget {
    pub nix_store_uri: String,
    pub ssh_destination: String,
}

impl Clone for SshTarget {
    fn clone(&self) -> (r: Self)
        ensures
            r == *self,
    {
        SshTarget {
            nix_store_uri: self.nix_store_uri.clone(),
            ssh_destination: self.ssh_destination.clone(),
        }
    }
}

impl SshTarget {
    /// Both parts of the route are usable.
    pub open spec fn is_valid(&self) -> bool {
        is_store_uri(self.nix_store_uri@) && is_ssh_destination(self.ssh_destination@)
    }

    /// Takes a route as requested, where both its parts are usable.
    pub fn from_transport(transport: &DeploymentTransport) -> (r: Result<Self, String>)
        ensures
            r is Ok <==> is_store_uri(transport.nix_store_uri@) && is_ssh_destination(
                transport.ssh_destination@,
            ),
            r matches Ok(target) ==> target.is_valid() && target.nix_store_uri
                == transport.nix_store_uri.0 && target.ssh_destination
                == transport.ssh_destination.0,
            r matches Err(fault) ==> fault@ == (if !is_store_uri(transport.nix_store_uri@) {
                store_uri_fault()
            } else {
                ssh_destination_fault(transport.ssh_destination@)
            }),
    {
        let nix_store_uri = transport.nix_store_uri.0.clone();
        let ssh_destination = transport.ssh_destination.0.clone();
        match Self::validate_nix_store_uri(nix_store_uri.as_str()) {
            Err(fault) => Err(fault),
            Ok(()) => match Self::validate_ssh_destination(ssh_destination.as_str()) {
                Err(fault) => Err(fault),
                Ok(()) => Ok(SshTarget { nix_store_uri, ssh_destination }),
            },
        }
    }

    /// Checks a store location.
    pub fn validate_nix_store_uri(value: &str) -> (r: Result<(), String>)
        ensures
            r is Ok <==> is_store_uri(value@),
            r matches Err(fault) ==> fault@ == store_uri_fault(),
    {
        let v = chars_of(value);
        proof {
            reveal_strlit("ssh-ng://");
        }
        if !begins_with(&v, "ssh-ng://") || v.len() == 9 || !unspaced(&v) {
            return Err(
                "deployment nix_store_uri must be a nonempty ssh-ng URI without whitespace or controls".to_owned(),
            );
        }
        Ok(())
    }

    /// Checks an SSH destination.
    pub fn validate_ssh_destination(value: &str) -> (r: Result<(), String>)
        ensures
            r is Ok <==> is_ssh_destination(value@),
            r matches Err(fault) ==> fault@ == ssh_destination_fault(value@),
    {
        let v = chars_of(value);
        if v.len() == 0 || begins_with(&v, "-") || !unspaced(&v) {
            return Err(
                "deployment ssh_destination must be a nonempty SSH destination without whitespace or controls".to_owned(),
            );
        }
        match split_at_first(&v, '@') {
            None => Err(
                "deployment ssh_destination must contain an explicit login and host".to_owned(),
            ),
            Some((login, host)) => {
                if login.len() == 0 || host.len() == 0 || contains_char(&host, '@') {
                    Err(
                        "deployment ssh_destination must contain exactly one nonempty login and host".to_owned(),
                    )
                } else {
                    Ok(())
                }
            },
        }
    }

    /// What the login of this route may do for `user`.
    pub fn user_environment_activation_authority(
        &self,
        user: &str,
    ) -> (r: RemoteUserActivationAuthority)
        requires
            self.is_valid(),
        ensures
            r == authority_of(login_of(self.ssh_destination@), user@),
    {
        match split_at_first(&chars_of(self.ssh_destination.as_str()), '@') {
            Some((login, _)) => {
                if is_text(&login, user) {
                    RemoteUserActivationAuthority::MatchedUser
                } else if is_text(&login, "root") {
                    RemoteUserActivationAuthority::RootMediated
                } else {
                    RemoteUserActivationAuthority::UnprivilegedMismatch
                }
            },
            None => RemoteUserActivationAuthority::UnprivilegedMismatch,
        }
    }

    /// Runs a shell command at the destination.
    pub fn remote_invocation(&self, command: ShellCommand) -> (r: NixCommand)
        ensures
            r@ == remote_command(self.ssh_destination@, command.0@),
    {
        let mut arguments: Vec<String> = Vec::new();
        push_text(&mut arguments, "-o");
        push_text(&mut arguments, "BatchMode=yes");
        push_text(&mut arguments, self.ssh_destination.as_str());
        push_text(&mut arguments, command.into_text().as_str());
        assert(texts(arguments@) =~= remote_command(self.ssh_destination@, command.0@).arguments);
        NixCommand::new("ssh".to_owned(), arguments)
    }
}

/// A realised closure on its way to the target's store.
#[derive(Debug, PartialEq, Eq)]
pub struct ClosureCopy {
    pub store_path: String,
    pub target: SshTarget,
}

impl ClosureCopy {
    /// Takes the closure and the route of a copy command.
    pub fn from_command(command: &CopyClosureCommand) -> (r: Result<Self, String>)
        ensures
            r is Ok <==> is_store_uri(command.deployment_transport.nix_store_uri@)
                && is_ssh_destination(command.deployment_transport.ssh_destination@),
            r matches Ok(copy) ==> {
                &&& copy.store_path == command.closure_path.0
                &&& copy.target.is_valid()
                &&& copy.target.nix_store_uri == command.deployment_transport.nix_store_uri.0
                &&& copy.target.ssh_destination == command.deployment_transport.ssh_destination.0
            },
            r matches Err(fault) ==> fault@ == (if !is_store_uri(
                command.deployment_transport.nix_store_uri@,
            ) {
                store_uri_fault()
            } else {
                ssh_destination_fault(command.deployment_transport.ssh_destination@)
            }),
    {
        match SshTarget::from_transport(&command.deployment_transport) {
            Ok(target) => Ok(ClosureCopy { store_path: command.closure_path.0.clone(), target }),
            Err(fault) => Err(fault),
        }
    }

    /// Copies the closure; the target may substitute paths it can fetch itself.
    pub fn invocation(&self) -> (r: NixCommand)
        ensures
            r@.program == "nix"@,
            r@.arguments == seq![
                "copy"@,
                "--substitute-on-destination"@,
                "--to"@,
                self.target.nix_store_uri@,
                self.store_path@,
            ],
    {
        let mut arguments: Vec<String> = Vec::new();
        push_text(&mut arguments, "copy");
        push_text(&mut arguments, "--substitute-on-destination");
        push_text(&mut arguments, "--to");
        push_text(&mut arguments, self.target.nix_store_uri.as_str());
        push_text(&mut arguments, self.store_path.as_str());
        NixCommand::new("nix".to_owned(), arguments)
    }
}

} // verus!
