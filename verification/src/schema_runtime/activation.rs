//! Putting a closure into effect on its target.

use crate::paths::{join_path, path_join};
use crate::runtime_flow::{
    ActivateGenerationCommand, ActivationBackend, ActivationProfile, UserEnvironmentAction,
};
use crate::runtime_model::{
    ActivationEffect, DeploymentIdentifier, GenerationSlot, HostDeployAction, NodeName,
};
use crate::schema_runtime::nix_command::{NixCommand, NixCommandView};
use crate::schema_runtime::shell::{shell_word, ShellArgument, ShellCommand};
use crate::schema_runtime::ssh_target::{
    authority_of, is_ssh_destination, is_store_uri, login_of, remote_command,
    ssh_destination_fault, store_uri_fault, RemoteUserActivationAuthority, SshTarget,
};
use crate::text::{concat, decimal, decimal_text, lemma_decimal_injective, push_text, texts};
use vstd::prelude::*;

verus! {

// ---- names and scripts --------------------------------------------------------

/// The transient unit that schedules a boot-once deployment.
pub open spec fn boot_once_unit_text(deployment: u64) -> Seq<char> {
    "lojix-boot-once-deploy-"@ + decimal(deployment as nat)
}

/// The transient unit that switches the daemon's own host.
pub open spec fn self_switch_unit_text(deployment: u64) -> Seq<char> {
    "lojix-self-switch-deploy-"@ + decimal(deployment as nat)
}

impl DeploymentIdentifier {
    /// The transient unit that schedules this deployment for one boot.
    pub fn boot_once_unit_name(&self) -> (r: String)
        ensures
            r@ == boot_once_unit_text(self.0),
    {
        concat("lojix-boot-once-deploy-", decimal_text(self.0).as_str())
    }
}

/// The `switch-to-configuration` action of a foreground activation.
pub open spec fn action_word(action: HostDeployAction) -> Option<Seq<char>> {
    match action {
        HostDeployAction::SetBootProfile => Some("boot"@),
        HostDeployAction::ActivateNow => Some("switch"@),
        HostDeployAction::TestActivation => Some("test"@),
        HostDeployAction::ScheduleBootOnce | HostDeployAction::Evaluate
        | HostDeployAction::Realize => None,
    }
}

/// The remote command of a foreground activation.
pub open spec fn foreground_script(action: HostDeployAction, store: Seq<char>) -> Seq<char> {
    let switch = store + "/bin/switch-to-configuration "@ + action_word(action)->0;
    if action == HostDeployAction::TestActivation {
        switch
    } else {
        "nix-env -p /nix/var/nix/profiles/system --set "@ + store + " && "@ + switch
    }
}

/// The script that boots the closure once and falls back to the running entry.
pub open spec fn boot_once_text(store: Seq<char>) -> Seq<char> {
    "export PATH=/run/current-system/sw/bin:/run/wrappers/bin:$PATH\nset -eu\nCLOSURE='"@ + store
        + "'\nOLD=$(bootctl status | awk -F': *' '/Current Entry:/ {print $2}')\n[ -n \"$OLD\" ]\nnix-env -p /nix/var/nix/profiles/system --set \"$CLOSURE\"\n\"$CLOSURE/bin/switch-to-configuration\" boot\nNEW=$(awk '$1 == \"default\" {print $2; exit}' /boot/loader/loader.conf)\n[ -n \"$NEW\" ]\n[ -f \"/boot/loader/entries/$NEW\" ]\n[ \"$NEW\" != \"$OLD\" ]\nbootctl set-default \"$OLD\"\nbootctl set-oneshot \"$NEW\"\necho \"boot-once: oneshot=$NEW persistent-default=$OLD (=running generation)\"\n"@
}

/// The script that switches the daemon's own host and releases the boot loader
/// to its configuration.
pub open spec fn self_switch_text(store: Seq<char>) -> Seq<char> {
    "export PATH=/run/current-system/sw/bin:/run/wrappers/bin:$PATH\nset -eu\nnix-env -p /nix/var/nix/profiles/system --set "@
        + store + "\n"@ + store
        + "/bin/switch-to-configuration switch\nbootctl set-default ''\nbootctl set-oneshot ''\n"@
}

/// The command that runs `script` in a transient unit owned by the service manager.
pub open spec fn detached_text(unit: Seq<char>, script: Seq<char>) -> Seq<char> {
    "systemd-run --unit="@ + unit + " --collect --wait --service-type=oneshot /bin/sh -c "@
        + shell_word(script)
}

// ---- host activation ------------------------------------------------------------

/// Activation of a host closure.
#[derive(Debug, PartialEq, Eq)]
pub struct HostActivation {
    pub deployment_identifier: DeploymentIdentifier,
    pub target: SshTarget,
    pub node_name: NodeName,
    /// The node that the dispatching daemon runs on, where it is known.
    pub daemon_host: Option<NodeName>,
    pub store_path: String,
    pub action: HostDeployAction,
}

impl HostActivation {
    /// Whether the activation switches the very host that the daemon runs on.
    pub open spec fn is_self_switch(&self) -> bool {
        self.action == HostDeployAction::ActivateNow && match self.daemon_host {
            Some(host) => host@ == self.node_name@,
            None => false,
        }
    }

    /// The invocations that perform this activation, in order.
    pub open spec fn planned(&self) -> Option<Seq<NixCommandView>> {
        let destination = self.target.ssh_destination@;
        if self.is_self_switch() {
            Some(
                seq![
                    remote_command(
                        destination,
                        detached_text(
                            self_switch_unit_text(self.deployment_identifier.0),
                            self_switch_text(self.store_path@),
                        ),
                    ),
                ],
            )
        } else if self.action == HostDeployAction::ScheduleBootOnce {
            Some(
                seq![
                    remote_command(
                        destination,
                        detached_text(
                            boot_once_unit_text(self.deployment_identifier.0),
                            boot_once_text(self.store_path@),
                        ),
                    ),
                ],
            )
        } else if action_word(self.action) is None {
            None
        } else {
            let switch = remote_command(
                destination,
                foreground_script(self.action, self.store_path@),
            );
            if self.action == HostDeployAction::TestActivation {
                Some(seq![switch])
            } else {
                Some(
                    seq![
                        switch,
                        remote_command(destination, "bootctl set-default ''"@),
                        remote_command(destination, "bootctl set-oneshot ''"@),
                    ],
                )
            }
        }
    }

    /// The foreground activation; nothing for the actions that have none.
    pub fn ssh_invocation(&self) -> (r: Option<NixCommand>)
        ensures
            r is Some <==> action_word(self.action) is Some,
            r matches Some(command) ==> command@ == remote_command(
                self.target.ssh_destination@,
                foreground_script(self.action, self.store_path@),
            ),
    {
        let word = match self.action {
            HostDeployAction::SetBootProfile => "boot",
            HostDeployAction::ActivateNow => "switch",
            HostDeployAction::TestActivation => "test",
            HostDeployAction::ScheduleBootOnce | HostDeployAction::Evaluate
            | HostDeployAction::Realize => {
                return None;
            },
        };
        let switch = concat(
            concat(self.store_path.as_str(), "/bin/switch-to-configuration ").as_str(),
            word,
        );
        let script = if self.action == HostDeployAction::TestActivation {
            switch
        } else {
            let mut text = "nix-env -p /nix/var/nix/profiles/system --set ".to_owned();
            text.append(self.store_path.as_str());
            text.append(" && ");
            text.append(switch.as_str());
            text
        };
        Some(self.target.remote_invocation(ShellCommand::from_raw(script)))
    }

    /// The transient unit of a boot-once activation.
    pub fn unit_name(&self) -> (r: String)
        ensures
            r@ == boot_once_unit_text(self.deployment_identifier.0),
    {
        self.deployment_identifier.boot_once_unit_name()
    }

    /// The script of a boot-once activation.
    pub fn boot_once_script(&self) -> (r: String)
        ensures
            r@ == boot_once_text(self.store_path@),
    {
        let mut text =
            "export PATH=/run/current-system/sw/bin:/run/wrappers/bin:$PATH\nset -eu\nCLOSURE='".to_owned();
        text.append(self.store_path.as_str());
        text.append(
            "'\nOLD=$(bootctl status | awk -F': *' '/Current Entry:/ {print $2}')\n[ -n \"$OLD\" ]\nnix-env -p /nix/var/nix/profiles/system --set \"$CLOSURE\"\n\"$CLOSURE/bin/switch-to-configuration\" boot\nNEW=$(awk '$1 == \"default\" {print $2; exit}' /boot/loader/loader.conf)\n[ -n \"$NEW\" ]\n[ -f \"/boot/loader/entries/$NEW\" ]\n[ \"$NEW\" != \"$OLD\" ]\nbootctl set-default \"$OLD\"\nbootctl set-oneshot \"$NEW\"\necho \"boot-once: oneshot=$NEW persistent-default=$OLD (=running generation)\"\n",
        );
        text
    }

    /// Runs the boot-once script in the unit `unit_name`.
    pub fn systemd_run_invocation(&self, unit_name: &str) -> (r: NixCommand)
        ensures
            r@ == remote_command(
                self.target.ssh_destination@,
                detached_text(unit_name@, boot_once_text(self.store_path@)),
            ),
    {
        self.detached_invocation(unit_name, self.boot_once_script())
    }

    /// Runs `script` in a transient unit that outlives the SSH connection.
    pub fn detached_invocation(&self, unit_name: &str, script: String) -> (r: NixCommand)
        ensures
            r@ == remote_command(
                self.target.ssh_destination@,
                detached_text(unit_name@, script@),
            ),
    {
        let mut text = "systemd-run --unit=".to_owned();
        text.append(unit_name);
        text.append(" --collect --wait --service-type=oneshot /bin/sh -c ");
        text.append(ShellArgument::new(script).to_command_text().as_str());
        self.target.remote_invocation(ShellCommand::from_raw(text))
    }

    /// Whether the activation must outlive the daemon that dispatches it.
    pub fn runs_detached_self_switch(&self) -> (r: bool)
        ensures
            r == self.is_self_switch(),
    {
        match (self.action, &self.daemon_host) {
            (HostDeployAction::ActivateNow, Some(host)) => *host == self.node_name,
            _ => false,
        }
    }

    /// The transient unit of a self-switch.
    pub fn self_switch_unit_name(&self) -> (r: String)
        ensures
            r@ == self_switch_unit_text(self.deployment_identifier.0),
    {
        concat("lojix-self-switch-deploy-", decimal_text(self.deployment_identifier.0).as_str())
    }

    /// The script of a self-switch.
    pub fn self_switch_script(&self) -> (r: String)
        ensures
            r@ == self_switch_text(self.store_path@),
    {
        let mut text =
            "export PATH=/run/current-system/sw/bin:/run/wrappers/bin:$PATH\nset -eu\nnix-env -p /nix/var/nix/profiles/system --set ".to_owned();
        text.append(self.store_path.as_str());
        text.append("\n");
        text.append(self.store_path.as_str());
        text.append(
            "/bin/switch-to-configuration switch\nbootctl set-default ''\nbootctl set-oneshot ''\n",
        );
        text
    }

    /// Whether the boot loader's overrides are cleared after the activation.
    pub fn requires_efi_reconcile(&self) -> (r: bool)
        ensures
            r == (self.action == HostDeployAction::SetBootProfile || self.action
                == HostDeployAction::ActivateNow),
            self.planned() is Some && !self.is_self_switch() ==> r == (self.planned()->0.len()
                == 3),
    {
        match self.action {
            HostDeployAction::SetBootProfile | HostDeployAction::ActivateNow => true,
            _ => false,
        }
    }

    /// Clears the persistent boot override.
    pub fn step_clear_efi_default_invocation(&self) -> (r: NixCommand)
        ensures
            r@ == remote_command(self.target.ssh_destination@, "bootctl set-default ''"@),
    {
        self.target.remote_invocation(ShellCommand::from_raw("bootctl set-default ''".to_owned()))
    }

    /// Clears the one-shot boot override.
    pub fn step_clear_efi_oneshot_invocation(&self) -> (r: NixCommand)
        ensures
            r@ == remote_command(self.target.ssh_destination@, "bootctl set-oneshot ''"@),
    {
        self.target.remote_invocation(ShellCommand::from_raw("bootctl set-oneshot ''".to_owned()))
    }

    /// The invocations to run one after the other, each only if the one before
    /// succeeded.
    pub fn invocations(&self) -> (r: Result<Vec<NixCommand>, String>)
        ensures
            r is Ok <==> self.planned() is Some,
            r matches Ok(commands) ==> command_views(commands@) == self.planned()->0,
            r matches Err(fault) ==> fault@ == "no simple activation for action "@
                + host_action_text(self.action),
    {
        let mut commands: Vec<NixCommand> = Vec::new();
        if self.runs_detached_self_switch() {
            let unit_name = self.self_switch_unit_name();
            commands.push(self.detached_invocation(unit_name.as_str(), self.self_switch_script()));
        } else if self.action == HostDeployAction::ScheduleBootOnce {
            let unit_name = self.unit_name();
            commands.push(self.systemd_run_invocation(unit_name.as_str()));
        } else {
            match self.ssh_invocation() {
                Some(invocation) => {
                    commands.push(invocation);
                },
                None => {
                    return Err(
                        concat("no simple activation for action ", host_action_name(self.action)),
                    );
                },
            }
            if self.requires_efi_reconcile() {
                commands.push(self.step_clear_efi_default_invocation());
                commands.push(self.step_clear_efi_oneshot_invocation());
            }
        }
        assert(command_views(commands@) =~= self.planned()->0);
        Ok(commands)
    }
}

/// The views of a list of invocations.
pub open spec fn command_views(commands: Seq<NixCommand>) -> Seq<NixCommandView> {
    commands.map_values(|command: NixCommand| command@)
}

/// The name of a host action.
pub open spec fn host_action_text(action: HostDeployAction) -> Seq<char> {
    match action {
        HostDeployAction::Evaluate => "Evaluate"@,
        HostDeployAction::Realize => "Realize"@,
        HostDeployAction::SetBootProfile => "SetBootProfile"@,
        HostDeployAction::ActivateNow => "ActivateNow"@,
        HostDeployAction::TestActivation => "TestActivation"@,
        HostDeployAction::ScheduleBootOnce => "ScheduleBootOnce"@,
    }
}

/// The name of a host action.
pub fn host_action_name(action: HostDeployAction) -> (r: &'static str)
    ensures
        r@ == host_action_text(action),
{
    match action {
        HostDeployAction::Evaluate => "Evaluate",
        HostDeployAction::Realize => "Realize",
        HostDeployAction::SetBootProfile => "SetBootProfile",
        HostDeployAction::ActivateNow => "ActivateNow",
        HostDeployAction::TestActivation => "TestActivation",
        HostDeployAction::ScheduleBootOnce => "ScheduleBootOnce",
    }
}

// ---- user environment activation ----------------------------------------------------

/// The profile of a user environment, relative to the user's home.
pub open spec fn home_profile() -> Seq<char> {
    ".local/state/nix/profiles/home-manager"@
}

/// The remote command that points the user's profile at `store`.
pub open spec fn profile_script(store: Seq<char>) -> Seq<char> {
    "nix-env -p \"$HOME/.local/state/nix/profiles/home-manager\" --set "@ + shell_word(store)
}

/// The remote command that activates `store` for the user.
pub open spec fn activate_script(store: Seq<char>) -> Seq<char> {
    shell_word(store + "/activate"@)
}

/// `script` run as `user` through a login of that user.
pub open spec fn mediated_script(script: Seq<char>, user: Seq<char>) -> Seq<char> {
    "runuser --login --command "@ + shell_word(script) + " "@ + shell_word(user)
}

/// One step of a user environment activation.
#[derive(Clone, Copy, Debug, PartialEq, Eq, Structural)]
pub enum UserEnvironmentStep {
    SetProfile,
    Activate,
}

/// Activation of a user environment closure.
#[derive(Debug, PartialEq, Eq)]
pub struct UserEnvironmentActivation {
    pub node_name: NodeName,
    pub authority: RemoteUserActivationAuthority,
    pub target: SshTarget,
    pub user: String,
    pub store_path: String,
    pub mode: UserEnvironmentAction,
}

impl UserEnvironmentActivation {
    /// The invocation of `script` that the login's authority allows.
    pub open spec fn authorized(&self, script: Seq<char>) -> Option<NixCommandView> {
        match self.authority {
            RemoteUserActivationAuthority::MatchedUser => Some(
                remote_command(self.target.ssh_destination@, script),
            ),
            RemoteUserActivationAuthority::RootMediated => Some(
                remote_command(self.target.ssh_destination@, mediated_script(script, self.user@)),
            ),
            RemoteUserActivationAuthority::UnprivilegedMismatch => None,
        }
    }

    /// Points the profile under `home` at the closure, without SSH.
    pub fn local_profile_invocation(&self, home: &str) -> (r: NixCommand)
        ensures
            r@.program == "nix-env"@,
            r@.arguments == seq![
                "-p"@,
                path_join(home@, home_profile()),
                "--set"@,
                self.store_path@,
            ],
    {
        let mut arguments: Vec<String> = Vec::new();
        push_text(&mut arguments, "-p");
        push_text(
            &mut arguments,
            join_path(home, ".local/state/nix/profiles/home-manager").as_str(),
        );
        push_text(&mut arguments, "--set");
        push_text(&mut arguments, self.store_path.as_str());
        NixCommand::new("nix-env".to_owned(), arguments)
    }

    /// Activates the closure without SSH.
    pub fn local_activate_invocation(&self) -> (r: NixCommand)
        ensures
            r@.program == self.store_path@ + "/activate"@,
            r@.arguments == Seq::<Seq<char>>::empty(),
    {
        let arguments: Vec<String> = Vec::new();
        assert(texts(arguments@) =~= Seq::<Seq<char>>::empty());
        NixCommand::new(concat(self.store_path.as_str(), "/activate"), arguments)
    }

    /// Points the user's profile at the closure over SSH.
    pub fn remote_profile_invocation(&self) -> (r: Result<NixCommand, String>)
        ensures
            r is Ok <==> self.authorized(profile_script(self.store_path@)) is Some,
            r matches Ok(command) ==> command@ == self.authorized(
                profile_script(self.store_path@),
            )->0,
            r matches Err(fault) ==> fault@ == authority_fault(),
    {
        let script = concat(
            "nix-env -p \"$HOME/.local/state/nix/profiles/home-manager\" --set ",
            ShellArgument::new(self.store_path.clone()).to_command_text().as_str(),
        );
        self.remote_invocation(ShellCommand::from_raw(script))
    }

    /// Activates the closure for the user over SSH.
    pub fn remote_activate_invocation(&self) -> (r: Result<NixCommand, String>)
        ensures
            r is Ok <==> self.authorized(activate_script(self.store_path@)) is Some,
            r matches Ok(command) ==> command@ == self.authorized(
                activate_script(self.store_path@),
            )->0,
            r matches Err(fault) ==> fault@ == authority_fault(),
    {
        let script = ShellArgument::new(
            concat(self.store_path.as_str(), "/activate"),
        ).to_command_text();
        self.remote_invocation(ShellCommand::from_raw(script))
    }

    /// Runs `command` as far as the login's authority allows.
    pub fn remote_invocation(&self, command: ShellCommand) -> (r: Result<NixCommand, String>)
        ensures
            r is Ok <==> self.authorized(command.0@) is Some,
            r matches Ok(invocation) ==> invocation@ == self.authorized(command.0@)->0,
            r matches Err(fault) ==> fault@ == authority_fault(),
    {
        match self.authority {
            RemoteUserActivationAuthority::MatchedUser => Ok(
                self.target.remote_invocation(command),
            ),
            RemoteUserActivationAuthority::RootMediated => Ok(
                self.root_mediated_invocation(command),
            ),
            RemoteUserActivationAuthority::UnprivilegedMismatch => Err(
                "remote Home Manager activation login differs from the target user and is not root".to_owned(),
            ),
        }
    }

    /// Runs `command` as the user through a root login.
    pub fn root_mediated_invocation(&self, command: ShellCommand) -> (r: NixCommand)
        ensures
            r@ == remote_command(
                self.target.ssh_destination@,
                mediated_script(command.0@, self.user@),
            ),
    {
        let mut text = "runuser --login --command ".to_owned();
        text.append(ShellArgument::new(command.into_text()).to_command_text().as_str());
        text.append(" ");
        text.append(ShellArgument::new(self.user.clone()).to_command_text().as_str());
        self.target.remote_invocation(ShellCommand::from_raw(text))
    }

    /// The steps to take, in order: a profile is set before it is activated.
    pub open spec fn planned_steps(&self) -> Seq<UserEnvironmentStep> {
        match self.mode {
            UserEnvironmentAction::Realize => Seq::empty(),
            UserEnvironmentAction::SetProfile => seq![UserEnvironmentStep::SetProfile],
            UserEnvironmentAction::ActivateNow => seq![
                UserEnvironmentStep::SetProfile,
                UserEnvironmentStep::Activate,
            ],
        }
    }

    /// The steps to take one after the other, each only if the one before succeeded.
    pub fn steps(&self) -> (r: Vec<UserEnvironmentStep>)
        ensures
            r@ == self.planned_steps(),
    {
        let mut steps: Vec<UserEnvironmentStep> = Vec::new();
        match self.mode {
            UserEnvironmentAction::Realize => {},
            UserEnvironmentAction::SetProfile => {
                steps.push(UserEnvironmentStep::SetProfile);
            },
            UserEnvironmentAction::ActivateNow => {
                steps.push(UserEnvironmentStep::SetProfile);
                steps.push(UserEnvironmentStep::Activate);
            },
        }
        assert(steps@ =~= self.planned_steps());
        steps
    }

    /// Whether the dispatcher already is the user on the target node.
    pub fn is_local_context(
        &self,
        current_user: Option<&str>,
        current_node: Option<&str>,
    ) -> (r: bool)
        ensures
            r == match (current_user, current_node) {
                (Some(user), Some(node)) => user@ == self.user@ && node@ == self.node_name@,
                _ => false,
            },
    {
        match (current_user, current_node) {
            (Some(user), Some(node)) => {
                user.to_owned() == self.user && node.to_owned() == self.node_name.0
            },
            _ => false,
        }
    }

    /// The command of one step, where it can be taken.
    pub open spec fn step_command(
        &self,
        step: UserEnvironmentStep,
        local: bool,
        home: Option<Seq<char>>,
    ) -> Option<NixCommandView> {
        match (step, local) {
            (UserEnvironmentStep::SetProfile, false) => self.authorized(
                profile_script(self.store_path@),
            ),
            (UserEnvironmentStep::Activate, false) => self.authorized(
                activate_script(self.store_path@),
            ),
            (UserEnvironmentStep::SetProfile, true) => match home {
                Some(directory) => Some(
                    NixCommandView {
                        program: "nix-env"@,
                        arguments: seq![
                            "-p"@,
                            path_join(directory, home_profile()),
                            "--set"@,
                            self.store_path@,
                        ],
                    },
                ),
                None => None,
            },
            (UserEnvironmentStep::Activate, true) => Some(
                NixCommandView {
                    program: self.store_path@ + "/activate"@,
                    arguments: Seq::empty(),
                },
            ),
        }
    }

    /// The invocation of one step. A local step runs without SSH; setting a
    /// local profile needs the user's home.
    pub fn step_invocation(
        &self,
        step: UserEnvironmentStep,
        local: bool,
        home: Option<&str>,
    ) -> (r: Result<NixCommand, String>)
        ensures
            ({
                let home = match home {
                    Some(directory) => Some(directory@),
                    None => None,
                };
                &&& r is Ok <==> self.step_command(step, local, home) is Some
                &&& r matches Ok(command) ==> command@ == self.step_command(step, local, home)->0
                &&& r matches Err(fault) ==> fault@ == (if local {
                    "HOME is unset for local home activation"@
                } else {
                    authority_fault()
                })
            }),
    {
        match (step, local) {
            (UserEnvironmentStep::SetProfile, false) => self.remote_profile_invocation(),
            (UserEnvironmentStep::Activate, false) => self.remote_activate_invocation(),
            (UserEnvironmentStep::SetProfile, true) => match home {
                Some(directory) => Ok(self.local_profile_invocation(directory)),
                None => Err("HOME is unset for local home activation".to_owned()),
            },
            (UserEnvironmentStep::Activate, true) => Ok(self.local_activate_invocation()),
        }
    }
}

/// What an activation is answered whose login may not act for the user.
pub open spec fn authority_fault() -> Seq<char> {
    "remote Home Manager activation login differs from the target user and is not root"@
}

// ---- either activation ------------------------------------------------------------------

/// An activation of either environment.
#[derive(Debug, PartialEq, Eq)]
pub enum Activation {
    Host(HostActivation),
    UserEnvironment(UserEnvironmentActivation),
}

/// Whether the backend can activate the profile.
pub open spec fn backend_supports(backend: ActivationBackend, profile: ActivationProfile) -> bool {
    match profile {
        ActivationProfile::Host(_) => backend == ActivationBackend::NixosSystemdBootV1,
        ActivationProfile::UserEnvironment(_) => backend
            == ActivationBackend::HomeManagerNixProfileV1,
    }
}

impl Activation {
    /// Takes an activation command. `daemon_host` is the node the daemon runs
    /// on; `user_name_fault` is why the cluster's naming rules refuse the
    /// profile's user name, where they do.
    pub fn from_command(
        command: &ActivateGenerationCommand,
        daemon_host: Option<&NodeName>,
        user_name_fault: Option<String>,
    ) -> (r: Result<Self, String>)
        ensures
            r is Ok <==> {
                &&& is_store_uri(command.deployment_transport.nix_store_uri@)
                &&& is_ssh_destination(command.deployment_transport.ssh_destination@)
                &&& backend_supports(command.activation_backend, command.activation_profile)
                &&& command.activation_profile is UserEnvironment ==> user_name_fault is None
            },
            r matches Ok(activation) ==> match (activation, command.activation_profile) {
                (Activation::Host(host), ActivationProfile::Host(action)) => {
                    &&& host.deployment_identifier == command.deployment_identifier
                    &&& host.target.is_valid()
                    &&& host.target.nix_store_uri == command.deployment_transport.nix_store_uri.0
                    &&& host.target.ssh_destination
                        == command.deployment_transport.ssh_destination.0
                    &&& host.node_name == command.node_name
                    &&& host.daemon_host == (match daemon_host {
                        Some(node) => Some(*node),
                        None => None,
                    })
                    &&& host.store_path == command.closure_path.0
                    &&& host.action == action
                },
                (
                    Activation::UserEnvironment(user),
                    ActivationProfile::UserEnvironment(profile),
                ) => {
                    &&& user.node_name == command.node_name
                    &&& user.target.is_valid()
                    &&& user.target.nix_store_uri == command.deployment_transport.nix_store_uri.0
                    &&& user.target.ssh_destination
                        == command.deployment_transport.ssh_destination.0
                    &&& user.authority == authority_of(
                        login_of(command.deployment_transport.ssh_destination@),
                        profile.user_name@,
                    )
                    &&& user.user == profile.user_name.0
                    &&& user.store_path == command.closure_path.0
                    &&& user.mode == profile.user_environment_action
                },
                _ => false,
            },
            r matches Err(fault) ==> fault@ == (if !is_store_uri(
                command.deployment_transport.nix_store_uri@,
            ) {
                store_uri_fault()
            } else if !is_ssh_destination(command.deployment_transport.ssh_destination@) {
                ssh_destination_fault(command.deployment_transport.ssh_destination@)
            } else if !backend_supports(command.activation_backend, command.activation_profile) {
                "activation backend does not support the requested activation profile"@
            } else {
                "invalid user name for home activation: "@ + user_name_fault->0@
            }),
    {
        let target = match SshTarget::from_transport(&command.deployment_transport) {
            Ok(target) => target,
            Err(fault) => {
                return Err(fault);
            },
        };
        let store_path = command.closure_path.0.clone();
        match (command.activation_backend, &command.activation_profile) {
            (ActivationBackend::NixosSystemdBootV1, ActivationProfile::Host(action)) => {
                let daemon_host: Option<NodeName> = match daemon_host {
                    Some(node) => Some(node.clone()),
                    None => None,
                };
                Ok(
                    Activation::Host(
                        HostActivation {
                            deployment_identifier: command.deployment_identifier.clone(),
                            target,
                            node_name: command.node_name.clone(),
                            daemon_host,
                            store_path,
                            action: *action,
                        },
                    ),
                )
            },
            (
                ActivationBackend::HomeManagerNixProfileV1,
                ActivationProfile::UserEnvironment(profile),
            ) => {
                match user_name_fault {
                    Some(fault) => Err(
                        concat("invalid user name for home activation: ", fault.as_str()),
                    ),
                    None => {
                        let authority = target.user_environment_activation_authority(
                            profile.user_name.0.as_str(),
                        );
                        Ok(
                            Activation::UserEnvironment(
                                UserEnvironmentActivation {
                                    node_name: command.node_name.clone(),
                                    authority,
                                    target,
                                    user: profile.user_name.0.clone(),
                                    store_path,
                                    mode: profile.user_environment_action,
                                },
                            ),
                        )
                    },
                }
            },
            _ => Err(
                "activation backend does not support the requested activation profile".to_owned(),
            ),
        }
    }
}

/// The slot that a generation takes when it is put into effect.
pub open spec fn slot_of(effect: ActivationEffect) -> GenerationSlot {
    match effect {
        ActivationEffect::LiveActivation => GenerationSlot::Current,
        ActivationEffect::BootProfile => GenerationSlot::BootPending,
        ActivationEffect::TestActivation => GenerationSlot::Recent,
        ActivationEffect::BootOnceProfile => GenerationSlot::BootPending,
        ActivationEffect::ProfileOnly => GenerationSlot::Current,
    }
}

/// The slot that a generation takes when it is put into effect.
pub fn activation_slot(effect: &ActivationEffect) -> (r: GenerationSlot)
    ensures
        r == slot_of(*effect),
{
    match *effect {
        ActivationEffect::LiveActivation => GenerationSlot::Current,
        ActivationEffect::BootProfile => GenerationSlot::BootPending,
        ActivationEffect::TestActivation => GenerationSlot::Recent,
        ActivationEffect::BootOnceProfile => GenerationSlot::BootPending,
        ActivationEffect::ProfileOnly => GenerationSlot::Current,
    }
}

// ---- laws ------------------------------------------------------------------------------

/// Two deployments never share a boot-once unit.
pub proof fn law_boot_once_units_are_distinct(first: u64, second: u64)
    requires
        boot_once_unit_text(first) == boot_once_unit_text(second),
    ensures
        first == second,
{
    let prefix = "lojix-boot-once-deploy-"@;
    assert(boot_once_unit_text(first).skip(prefix.len() as int) =~= decimal(first as nat));
    assert(boot_once_unit_text(second).skip(prefix.len() as int) =~= decimal(second as nat));
    lemma_decimal_injective(first as nat, second as nat);
}

/// Two deployments never share a self-switch unit.
pub proof fn law_self_switch_units_are_distinct(first: u64, second: u64)
    requires
        self_switch_unit_text(first) == self_switch_unit_text(second),
    ensures
        first == second,
{
    let prefix = "lojix-self-switch-deploy-"@;
    assert(self_switch_unit_text(first).skip(prefix.len() as int) =~= decimal(first as nat));
    assert(self_switch_unit_text(second).skip(prefix.len() as int) =~= decimal(second as nat));
    lemma_decimal_injective(first as nat, second as nat);
}

/// A boot-once unit and a self-switch unit never share a name.
pub proof fn law_boot_once_and_self_switch_units_differ(first: u64, second: u64)
    ensures
        boot_once_unit_text(first) != self_switch_unit_text(second),
{
    reveal_strlit("lojix-boot-once-deploy-");
    reveal_strlit("lojix-self-switch-deploy-");
    assert(boot_once_unit_text(first)[6] == 'b');
    assert(self_switch_unit_text(second)[6] == 's');
}

/// Only a switch of the daemon's own host leaves the foreground, besides a
/// boot-once schedule; every other activating action starts with the foreground
/// command over SSH.
pub proof fn law_foreground_unless_own_host_or_boot_once(activation: HostActivation)
    requires
        action_word(activation.action) is Some,
        !activation.is_self_switch(),
    ensures
        activation.planned() is Some,
        activation.planned()->0[0] == remote_command(
            activation.target.ssh_destination@,
            foreground_script(activation.action, activation.store_path@),
        ),
{
}

} // verus!
