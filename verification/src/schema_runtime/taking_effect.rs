//! What it comes to when a generation takes effect: the commands that are run on its
//! target, and the slot that it takes.

use crate::paths::path_join;
use crate::runtime_flow::{ActivateGenerationCommand, UserEnvironmentAction};
use crate::runtime_model::{HostDeployAction, NodeName};
use crate::schema_runtime::activation::{
    activate_script, Activation, authority_fault, boot_once_text, home_profile, host_action_text,
    HostActivation, profile_script, self_switch_text, UserEnvironmentActivation,
    UserEnvironmentStep,
};
use crate::schema_runtime::effects::is_activation_of;
use crate::schema_runtime::nix_command::NixCommandView;
use crate::schema_runtime::shell::{
    is_bare_word, is_shell_safe, law_shell_reads_the_argument_back, quote_body, shell_reads,
    shell_word,
};
use crate::schema_runtime::ssh_target::RemoteUserActivationAuthority;
use crate::text::{decimal, is_alphanumeric, lemma_first_offset_unique, split_once};
use vstd::prelude::*;

verus! {

// ---- hosts ----------------------------------------------------------------------------------

/// `command` runs `script` at `destination`, over SSH and without asking anything.
pub open spec fn runs_remotely(
    command: NixCommandView,
    destination: Seq<char>,
    script: Seq<char>,
) -> bool {
    &&& command.program == "ssh"@
    &&& command.arguments.len() == 4
    &&& command.arguments[0] == "-o"@
    &&& command.arguments[1] == "BatchMode=yes"@
    &&& command.arguments[2] == destination
    &&& command.arguments[3] == script
}

/// Whether the target is the host that the daemon itself runs on.
pub open spec fn is_own_host(activation: HostActivation) -> bool {
    activation.daemon_host matches Some(host) && host@ == activation.node_name@
}

/// Whether some command of `commands` runs `script`.
pub open spec fn has_script(commands: Seq<NixCommandView>, script: Seq<char>) -> bool {
    exists|i: int|
        0 <= i < commands.len() && (#[trigger] commands[i]).arguments.last() == script
}

/// A host activation consists of commands unless nothing is to take effect.
pub proof fn law_only_evaluation_and_realisation_run_nothing(activation: HostActivation)
    ensures
        activation.planned() is None <==> activation.action == HostDeployAction::Evaluate
            || activation.action == HostDeployAction::Realize,
{
}

/// Every command of a host activation runs over SSH on its target.
pub proof fn law_host_commands_run_on_the_target(activation: HostActivation, i: int)
    requires
        activation.planned() is Some,
        0 <= i < activation.planned()->0.len(),
    ensures
        runs_remotely(
            activation.planned()->0[i],
            activation.target.ssh_destination@,
            activation.planned()->0[i].arguments[3],
        ),
{
}

/// The choices that an earlier deployment left in the boot loader's variables are
/// cleared after every foreground switch that changes what boots next, the default
/// first, and by nothing else: a test activation and a scheduled boot leave them.
pub proof fn law_boot_choices_are_cleared_after_a_switch(activation: HostActivation)
    requires
        activation.planned() is Some,
    ensures
        ({
            let commands = activation.planned()->0;
            let own = activation.action == HostDeployAction::ActivateNow && is_own_host(activation);
            let changes = activation.action == HostDeployAction::SetBootProfile
                || activation.action == HostDeployAction::ActivateNow;
            &&& has_script(commands, "bootctl set-default ''"@) <==> changes && !own
            &&& has_script(commands, "bootctl set-oneshot ''"@) <==> changes && !own
            &&& commands.len() == (if changes && !own {
                3nat
            } else {
                1
            })
            &&& changes && !own ==> runs_remotely(
                commands[1],
                activation.target.ssh_destination@,
                "bootctl set-default ''"@,
            ) && runs_remotely(
                commands[2],
                activation.target.ssh_destination@,
                "bootctl set-oneshot ''"@,
            )
        }),
{
    let commands = activation.planned()->0;
    let script = commands[0].arguments[3];
    reveal_strlit("bootctl set-default ''");
    reveal_strlit("bootctl set-oneshot ''");
    reveal_strlit("systemd-run --unit=");
    reveal_strlit("nix-env -p /nix/var/nix/profiles/system --set ");
    reveal_strlit("test");
    assert(commands[0].arguments.last() == script);
    if activation.is_self_switch() || activation.action == HostDeployAction::ScheduleBootOnce {
        assert(script[0] == 's');
    } else if activation.action == HostDeployAction::TestActivation {
        assert(script.last() == 't');
    } else {
        assert(script[0] == 'n');
        assert(commands[1].arguments.last() == "bootctl set-default ''"@);
        assert(commands[2].arguments.last() == "bootctl set-oneshot ''"@);
    }
}

/// What a foreground activation runs first: the closure becomes the system profile
/// unless it is only tested, and its own switch is run for what was asked.
pub proof fn law_a_foreground_switch_runs_the_closure(activation: HostActivation)
    requires
        activation.planned() is Some,
        activation.action != HostDeployAction::ScheduleBootOnce,
        activation.action == HostDeployAction::ActivateNow ==> !is_own_host(activation),
    ensures
        ({
            let store = activation.store_path@;
            let script = activation.planned()->0[0].arguments[3];
            let profile = "nix-env -p /nix/var/nix/profiles/system --set "@ + store;
            match activation.action {
                HostDeployAction::TestActivation => script == store
                    + "/bin/switch-to-configuration "@ + "test"@,
                HostDeployAction::SetBootProfile => script == profile + " && "@ + (store
                    + "/bin/switch-to-configuration "@ + "boot"@),
                HostDeployAction::ActivateNow => script == profile + " && "@ + (store
                    + "/bin/switch-to-configuration "@ + "switch"@),
                _ => false,
            }
        }),
{
}

/// `text` is the command that runs `script` in a transient unit and waits for it.
pub open spec fn runs_in_unit(text: Seq<char>, unit: Seq<char>, script: Seq<char>) -> bool {
    exists|word: Seq<char>|
        text == "systemd-run --unit="@ + unit
            + " --collect --wait --service-type=oneshot /bin/sh -c "@ + word && #[trigger]
            shell_reads(word, false) == Some(script)
}

/// The daemon's own host is switched from a unit of its own, which outlives the daemon:
/// the unit sets the profile, switches, and clears both boot choices as the foreground
/// commands would.
pub proof fn law_an_own_host_is_switched_from_a_unit(
    activation: HostActivation,
    foreground: HostActivation,
)
    requires
        activation.action == HostDeployAction::ActivateNow,
        is_own_host(activation),
        foreground.action == HostDeployAction::ActivateNow,
        !is_own_host(foreground),
    ensures
        activation.planned() matches Some(commands) && {
            let store = activation.store_path@;
            let clearing = foreground.planned()->0;
            let head =
                "export PATH=/run/current-system/sw/bin:/run/wrappers/bin:$PATH\nset -eu\nnix-env -p /nix/var/nix/profiles/system --set "@;
            &&& commands.len() == 1
            &&& runs_in_unit(
                commands[0].arguments[3],
                "lojix-self-switch-deploy-"@ + decimal(activation.deployment_identifier.0 as nat),
                head + store + "\n"@ + store + "/bin/switch-to-configuration switch\n"@
                    + clearing[1].arguments[3] + "\n"@ + clearing[2].arguments[3] + "\n"@,
            )
        },
{
    let store = activation.store_path@;
    let script = self_switch_text(store);
    law_shell_reads_the_argument_back(script);
    let clearing = foreground.planned()->0;
    reveal_strlit("/bin/switch-to-configuration switch\nbootctl set-default ''\nbootctl set-oneshot ''\n");
    reveal_strlit("/bin/switch-to-configuration switch\n");
    reveal_strlit("bootctl set-default ''");
    reveal_strlit("bootctl set-oneshot ''");
    reveal_strlit("\n");
    assert("/bin/switch-to-configuration switch\nbootctl set-default ''\nbootctl set-oneshot ''\n"@
        =~= "/bin/switch-to-configuration switch\n"@ + "bootctl set-default ''"@ + "\n"@
        + "bootctl set-oneshot ''"@ + "\n"@);
    let head =
        "export PATH=/run/current-system/sw/bin:/run/wrappers/bin:$PATH\nset -eu\nnix-env -p /nix/var/nix/profiles/system --set "@;
    assert(script =~= head + store + "\n"@ + store + "/bin/switch-to-configuration switch\n"@
        + "bootctl set-default ''"@ + "\n"@ + "bootctl set-oneshot ''"@ + "\n"@);
    assert(clearing[1].arguments[3] == "bootctl set-default ''"@);
    assert(clearing[2].arguments[3] == "bootctl set-oneshot ''"@);
}

/// A scheduled boot is arranged from a unit of its own, whichever host it is for: the
/// unit refuses to go on without a running entry, installs the closure, and leaves the
/// running entry the default and the new one for the next boot alone.
pub proof fn law_a_scheduled_boot_is_arranged_from_a_unit(activation: HostActivation)
    requires
        activation.action == HostDeployAction::ScheduleBootOnce,
    ensures
        activation.planned() matches Some(commands) && {
            &&& commands.len() == 1
            &&& runs_in_unit(
                commands[0].arguments[3],
                "lojix-boot-once-deploy-"@ + decimal(activation.deployment_identifier.0 as nat),
                "export PATH=/run/current-system/sw/bin:/run/wrappers/bin:$PATH\nset -eu\nCLOSURE='"@
                    + activation.store_path@
                    + "'\nOLD=$(bootctl status | awk -F': *' '/Current Entry:/ {print $2}')\n[ -n \"$OLD\" ]\nnix-env -p /nix/var/nix/profiles/system --set \"$CLOSURE\"\n\"$CLOSURE/bin/switch-to-configuration\" boot\nNEW=$(awk '$1 == \"default\" {print $2; exit}' /boot/loader/loader.conf)\n[ -n \"$NEW\" ]\n[ -f \"/boot/loader/entries/$NEW\" ]\n[ \"$NEW\" != \"$OLD\" ]\nbootctl set-default \"$OLD\"\nbootctl set-oneshot \"$NEW\"\necho \"boot-once: oneshot=$NEW persistent-default=$OLD (=running generation)\"\n"@,
            )
        },
{
    law_shell_reads_the_argument_back(boot_once_text(activation.store_path@));
}

/// Only what the shell takes literally stands unquoted in a command text.
pub proof fn law_unquoted_words_hold_nothing_special(word: Seq<char>, i: int)
    requires
        0 <= i < word.len(),
        shell_word(word) == word,
    ensures
        is_alphanumeric(word[i]) || "-_./=:#+,"@.contains(word[i]),
        !" '\"$`\\;&|<>()*?[]~!{}\n\t"@.contains(word[i]),
{
    reveal_strlit("-_./=:#+,");
    reveal_strlit(" '\"$`\\;&|<>()*?[]~!{}\n\t");
    reveal_strlit("'");
    lemma_quoting_adds(word);
    assert(is_bare_word(word));
    assert(is_shell_safe(word[i]));
    let marks = "-_./=:#+,"@;
    assert(marks[0] == '-' && marks[1] == '_' && marks[2] == '.' && marks[3] == '/' && marks[4]
        == '=' && marks[5] == ':' && marks[6] == '#' && marks[7] == '+' && marks[8] == ',');
}

proof fn lemma_quoting_adds(word: Seq<char>)
    ensures
        quote_body(word).len() >= word.len(),
    decreases word.len(),
{
    reveal_strlit("'\\''");
    if word.len() > 0 {
        lemma_quoting_adds(word.skip(1));
    }
}

// ---- user environments ----------------------------------------------------------------------

/// A user environment that is only realised runs nothing. Otherwise its profile is
/// set, and it is activated after that exactly where activation was asked for.
pub proof fn law_a_profile_is_set_before_it_is_activated(activation: UserEnvironmentActivation)
    ensures
        ({
            let steps = activation.planned_steps();
            &&& steps.contains(UserEnvironmentStep::SetProfile) <==> activation.mode
                != UserEnvironmentAction::Realize
            &&& steps.contains(UserEnvironmentStep::Activate) <==> activation.mode
                == UserEnvironmentAction::ActivateNow
            &&& steps.len() > 0 ==> steps[0] == UserEnvironmentStep::SetProfile
            &&& steps.len() <= 2
            &&& steps.len() == 2 ==> steps[1] == UserEnvironmentStep::Activate
        }),
{
    let steps = activation.planned_steps();
    if activation.mode != UserEnvironmentAction::Realize {
        assert(steps[0] == UserEnvironmentStep::SetProfile);
    }
    if activation.mode == UserEnvironmentAction::ActivateNow {
        assert(steps[1] == UserEnvironmentStep::Activate);
    }
}

/// What may act for a user on the target: a login of the same name acts itself, `root`
/// acts through a login of the user, and any other login does nothing.
pub proof fn law_only_the_user_and_root_act_for_a_user(
    command: ActivateGenerationCommand,
    daemon_host: NodeName,
    activation: UserEnvironmentActivation,
    login: Seq<char>,
    host: Seq<char>,
    script: Seq<char>,
)
    requires
        is_activation_of(Activation::UserEnvironment(activation), command, daemon_host),
        command.deployment_transport.ssh_destination@ == login + seq!['@'] + host,
        !login.contains('@'),
    ensures
        ({
            let user = command.activation_profile->UserEnvironment_0.user_name@;
            let destination = login + seq!['@'] + host;
            match activation.authorized(script) {
                None => login != user && login != "root"@,
                Some(remote) => exists|text: Seq<char>|
                    {
                        &&& #[trigger] runs_remotely(remote, destination, text)
                        &&& login == user ==> text == script
                        &&& login != user ==> login == "root"@ && runs_as(text, user, script)
                    },
            }
        }),
{
    let user = activation.user@;
    let destination = activation.target.ssh_destination@;
    lemma_split_at(login, '@', host);
    match activation.authorized(script) {
        None => {},
        Some(remote) => {
            let text = remote.arguments[3];
            assert(runs_remotely(remote, destination, text));
            if login != user {
                law_shell_reads_the_argument_back(script);
                law_shell_reads_the_argument_back(user);
                assert(text == "runuser --login --command "@ + shell_word(script) + " "@
                    + shell_word(user));
            }
        },
    }
}

/// `text` runs `script` through a login of `user`.
pub open spec fn runs_as(text: Seq<char>, user: Seq<char>, script: Seq<char>) -> bool {
    exists|command: Seq<char>, name: Seq<char>|
        {
            &&& text == "runuser --login --command "@ + command + " "@ + name
            &&& #[trigger] shell_reads(command, false) == Some(script)
            &&& #[trigger] shell_reads(name, false) == Some(user)
        }
}

proof fn lemma_split_at(head: Seq<char>, mark: char, rest: Seq<char>)
    requires
        !head.contains(mark),
    ensures
        split_once(head + seq![mark] + rest, mark) == Some((head, rest)),
{
    let whole = head + seq![mark] + rest;
    let at = head.len() as int;
    assert forall|i: int| 0 <= i < at implies whole[i] != mark by {
        assert(whole[i] == head[i]);
        assert(head.contains(head[i]));
    }
    lemma_first_offset_unique(whole, mark, at);
    assert(whole.take(at) =~= head);
    assert(whole.skip(at + 1) =~= rest);
}

/// The profile that is set from afar is the one that is set at home: the same place
/// below the user's home, for the closure as the shell reads it.
pub proof fn law_user_scripts_name_the_closure(store: Seq<char>)
    ensures
        exists|word: Seq<char>|
            profile_script(store) == "nix-env -p \"$HOME/"@
                + ".local/state/nix/profiles/home-manager"@ + "\" --set "@ + word && #[trigger]
                shell_reads(word, false) == Some(store),
        home_profile() == ".local/state/nix/profiles/home-manager"@,
        shell_reads(activate_script(store), false) == Some(store + "/activate"@),
{
    law_shell_reads_the_argument_back(store);
    law_shell_reads_the_argument_back(store + "/activate"@);
    reveal_strlit("nix-env -p \"$HOME/.local/state/nix/profiles/home-manager\" --set ");
    reveal_strlit("nix-env -p \"$HOME/");
    reveal_strlit(".local/state/nix/profiles/home-manager");
    reveal_strlit("\" --set ");
    assert("nix-env -p \"$HOME/.local/state/nix/profiles/home-manager\" --set "@
        =~= "nix-env -p \"$HOME/"@ + ".local/state/nix/profiles/home-manager"@
        + "\" --set "@);
    assert(profile_script(store) == "nix-env -p \"$HOME/"@
        + ".local/state/nix/profiles/home-manager"@ + "\" --set "@ + shell_word(store));
}

// ---- what is told ---------------------------------------------------------------------------

/// What is told of an action that has no commands names the action.
pub proof fn law_actions_are_told_by_name(action: HostDeployAction)
    ensures
        host_action_text(action) == (match action {
            HostDeployAction::Evaluate => "Evaluate"@,
            HostDeployAction::Realize => "Realize"@,
            HostDeployAction::SetBootProfile => "SetBootProfile"@,
            HostDeployAction::ActivateNow => "ActivateNow"@,
            HostDeployAction::TestActivation => "TestActivation"@,
            HostDeployAction::ScheduleBootOnce => "ScheduleBootOnce"@,
        }),
{
}

/// What is told of a login that may not act for the user.
pub proof fn law_a_foreign_login_is_told_so()
    ensures
        authority_fault()
            == "remote Home Manager activation login differs from the target user and is not root"@,
{
}

/// What a step runs: where the user already is, the profile below the user's home is
/// set to the closure, and the closure's own activation is run; from afar the same is
/// run over SSH, as far as the login may act for the user.
pub proof fn law_a_step_runs_where_the_user_is(
    activation: UserEnvironmentActivation,
    step: UserEnvironmentStep,
    home: Seq<char>,
)
    ensures
        ({
            let store = activation.store_path@;
            let near = activation.step_command(step, true, Some(home));
            let far = activation.step_command(step, false, Some(home));
            &&& match step {
                UserEnvironmentStep::SetProfile => {
                    &&& near matches Some(command) && command.program == "nix-env"@
                        && command.arguments == seq![
                        "-p"@,
                        path_join(home, ".local/state/nix/profiles/home-manager"@),
                        "--set"@,
                        store,
                    ]
                    &&& activation.step_command(step, true, None) is None
                    &&& far == activation.authorized(
                        "nix-env -p \"$HOME/.local/state/nix/profiles/home-manager\" --set "@
                            + shell_word(store),
                    )
                },
                UserEnvironmentStep::Activate => {
                    &&& near matches Some(command) && command.program == store + "/activate"@
                        && command.arguments.len() == 0
                    &&& activation.step_command(step, true, None) == near
                    &&& far == activation.authorized(shell_word(store + "/activate"@))
                },
            }
            &&& activation.step_command(step, false, None) == far
            &&& far is None <==> activation.authority
                == RemoteUserActivationAuthority::UnprivilegedMismatch
        }),
{
}

} // verus!
