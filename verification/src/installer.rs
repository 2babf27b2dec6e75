//! Installing and enabling OpenSSH: which commands a system calls for.
//!
//! The caller finds out the system, asks the user where there is a choice,
//! and runs the commands. The library reads the distribution from the
//! release file and decides the commands.

use crate::text::{
    chars_of, find_char, line_stop, next_index, next_index_bounds, piece, same_text, trimmed,
    trimmed_form, views,
};
use vstd::prelude::*;

verus! {

/// What `str::to_lowercase` gives for a string.
pub uninterp spec fn lowercase_form(s: Seq<char>) -> Seq<char>;

/// Lowercases `s` with std's `str::to_lowercase`. The contract only names
/// the result.
#[verifier::external_body]
fn lowercase(s: &str) -> (r: String)
    ensures
        r@ == lowercase_form(s@),
{
    s.to_lowercase()
}

/// Whether `line` sets the field `ID`.
pub open spec fn sets_id(line: Seq<char>) -> bool {
    line.len() >= 3 && line[0] == 'I' && line[1] == 'D' && line[2] == '='
}

/// What a line that sets `ID` sets it to: what stands between its first
/// equals sign and its second, or the end of the line.
pub open spec fn id_value(line: Seq<char>) -> Seq<char>
    recommends
        sets_id(line),
{
    line.subrange(3, next_index(line, '=', 3))
}

/// The value of the first line at or behind `from` that sets `ID`.
pub open spec fn id_from(text: Seq<char>, from: int) -> Option<Seq<char>>
    decreases text.len() - from,
    via id_from_decreases
{
    if from < 0 || from >= text.len() {
        None
    } else {
        let line = text.subrange(from, line_stop(text, from));
        if sets_id(line) {
            Some(id_value(line))
        } else if next_index(text, '\n', from) >= text.len() {
            None
        } else {
            id_from(text, next_index(text, '\n', from) + 1)
        }
    }
}

#[via_fn]
proof fn id_from_decreases(text: Seq<char>, from: int) {
    if 0 <= from < text.len() {
        next_index_bounds(text, '\n', from);
        assert(next_index(text, '\n', from) + 1 > from);
    }
}

/// The raw distribution identifier of a release file: the value of its
/// first `ID` line, or nothing where it has none.
pub open spec fn release_id(text: Seq<char>) -> Seq<char> {
    match id_from(text, 0) {
        Some(value) => value,
        None => Seq::<char>::empty(),
    }
}

/// The raw distribution identifier that the release file `text` gives.
pub fn release_identifier(text: &str) -> (r: String)
    ensures
        r@ == release_id(text@),
{
    let chars = chars_of(text);
    let n: usize = chars.len();
    let mut from: usize = 0;
    while from < n
        invariant
            chars@ == text@,
            n == chars@.len(),
            from <= n,
            id_from(text@, 0) == id_from(text@, from as int),
        decreases n - from,
    {
        let end = find_char(&chars, '\n', from);
        proof {
            next_index_bounds(text@, '\n', from as int);
        }
        let stop: usize = if end < n && end > from && chars[end - 1] == '\r' {
            end - 1
        } else {
            end
        };
        let line = piece(&chars, from, stop);
        assert(stop == line_stop(text@, from as int));
        assert(line@ == text@.subrange(from as int, line_stop(text@, from as int)));
        if line.len() >= 3 && line[0] == 'I' && line[1] == 'D' && line[2] == '=' {
            let cut = find_char(&line, '=', 3);
            assert(sets_id(line@));
            assert(line@.subrange(3, cut as int) == text@.subrange(from + 3, from + cut));
            let value = text.substring_char(from + 3, from + cut);
            return String::from_str(value);
        }
        assert(!sets_id(line@));
        if end == n {
            assert(id_from(text@, from as int) == None::<Seq<char>>);
            assert(id_from(text@, n as int) == None::<Seq<char>>);
            from = n;
        } else {
            assert(id_from(text@, from as int) == id_from(text@, end + 1));
            from = end + 1;
        }
    }
    assert(id_from(text@, n as int) == None::<Seq<char>>);
    String::new()
}

/// The distribution that the release file `os_release` names: its raw
/// identifier in lower case.
pub fn get_linux_distro(os_release: &str) -> (r: String)
    ensures
        r@ == lowercase_form(release_id(os_release@)),
{
    let raw = release_identifier(os_release);
    lowercase(raw.as_str())
}

/// The description of the system taken from what `uname -srm` printed:
/// trimmed, in lower case.
pub fn get_linux_distro_uname(output: &str) -> (r: String)
    ensures
        r@ == lowercase_form(trimmed_form(output@)),
{
    let core = trimmed(output);
    lowercase(core.as_str())
}

/// What the user chose to install.
#[derive(Debug, Clone, Copy, PartialEq, Eq, Structural)]
pub enum Choice {
    /// The OpenSSH client.
    Client,
    /// The OpenSSH server.
    Server,
}

/// The choice that an answer names: `1` for the client, `2` for the server.
pub open spec fn choice_of(answer: Seq<char>) -> Option<Choice> {
    if answer == "1"@ {
        Some(Choice::Client)
    } else if answer == "2"@ {
        Some(Choice::Server)
    } else {
        None
    }
}

/// Reads an answer that has been trimmed.
pub fn choice_from(answer: &str) -> (r: Option<Choice>)
    ensures
        r == choice_of(answer@),
{
    if same_text(answer, "1") {
        Some(Choice::Client)
    } else if same_text(answer, "2") {
        Some(Choice::Server)
    } else {
        None
    }
}

/// Reads the line that the user typed: the white space around the answer
/// does not count.
pub fn read_choice(line: &str) -> (r: Option<Choice>)
    ensures
        r == choice_of(trimmed_form(line@)),
{
    let answer = trimmed(line);
    choice_from(answer.as_str())
}

/// What is to be done to install OpenSSH.
#[derive(Debug, PartialEq, Eq)]
pub enum InstallPlan {
    /// The operating system is not one that is provided for.
    UnsupportedSystem,
    /// The Linux distribution is not one that is provided for.
    UnsupportedDistribution,
    /// A choice was needed and the answer was neither `1` nor `2`.
    InvalidChoice,
    /// Run `command`, a program and its arguments, and then, however it
    /// went, enable the server where `enable` is set.
    Package { command: Vec<String>, enable: bool },
    /// Run `commands` in order, each only where the one before succeeded;
    /// they install `package` as a capability of Windows.
    Chain { commands: Vec<Vec<String>>, package: Choice },
}

/// An [`InstallPlan`] with its text as sequences of characters.
pub ghost enum InstallPlanView {
    UnsupportedSystem,
    UnsupportedDistribution,
    InvalidChoice,
    Package { command: Seq<Seq<char>>, enable: bool },
    Chain { commands: Seq<Seq<Seq<char>>>, package: Choice },
}

/// The views of the commands of `commands`, in order.
pub open spec fn command_views(commands: Seq<Vec<String>>) -> Seq<Seq<Seq<char>>> {
    Seq::new(commands.len(), |i: int| views(commands[i]@))
}

impl View for InstallPlan {
    type V = InstallPlanView;

    open spec fn view(&self) -> InstallPlanView {
        match self {
            InstallPlan::UnsupportedSystem => InstallPlanView::UnsupportedSystem,
            InstallPlan::UnsupportedDistribution => InstallPlanView::UnsupportedDistribution,
            InstallPlan::InvalidChoice => InstallPlanView::InvalidChoice,
            InstallPlan::Package { command, enable } => InstallPlanView::Package {
                command: views(command@),
                enable: *enable,
            },
            InstallPlan::Chain { commands, package } => InstallPlanView::Chain {
                commands: command_views(commands@),
                package: *package,
            },
        }
    }
}

/// Whether `distro` is installed to with `apt`.
pub open spec fn uses_apt(distro: Seq<char>) -> bool {
    distro == "debian"@ || distro == "ubuntu"@
}

/// Whether `distro` is installed to with `yum`.
pub open spec fn uses_yum(distro: Seq<char>) -> bool {
    distro == "fedora"@ || distro == "centos"@ || distro == "redhat"@
}

/// The command that installs `package` with the package tool `tool`.
pub open spec fn package_command(tool: Seq<char>, package: Seq<char>) -> Seq<Seq<char>> {
    seq!["sudo"@, tool, "install"@, "-y"@, package]
}

/// The command that looks for the OpenSSH capabilities of Windows.
pub open spec fn capability_check() -> Seq<Seq<char>> {
    seq![
        "PowerShell"@,
        "Get-WindowsCapability"@,
        "-Online"@,
        "|"@,
        "Where-Object"@,
        "Name"@,
        "-like"@,
        "'OpenSSH*'"@,
    ]
}

/// The command that adds the Windows capability `name`.
pub open spec fn capability_install(name: Seq<char>) -> Seq<Seq<char>> {
    seq!["PowerShell"@, "Add-WindowsCapability"@, "-Online"@, "-Name"@, name]
}

/// The commands that install a Windows capability: look, then add.
pub open spec fn capability_chain(name: Seq<char>) -> Seq<Seq<Seq<char>>> {
    seq![capability_check(), capability_install(name)]
}

/// The plan for a Linux distribution that offers client and server apart.
pub open spec fn choice_plan(
    tool: Seq<char>,
    client: Seq<char>,
    choice: Option<Choice>,
) -> InstallPlanView {
    match choice {
        Some(Choice::Client) => InstallPlanView::Package {
            command: package_command(tool, client),
            enable: false,
        },
        Some(Choice::Server) => InstallPlanView::Package {
            command: package_command(tool, "openssh-server"@),
            enable: true,
        },
        None => InstallPlanView::InvalidChoice,
    }
}

/// Whether installing on `system` with `distro` depends on the user's choice.
pub open spec fn choice_needed(system: Seq<char>, distro: Seq<char>) -> bool {
    if system == "linux"@ {
        uses_apt(distro) || uses_yum(distro)
    } else {
        system == "windows"@
    }
}

/// What installing OpenSSH on `system` asks for, given the distribution
/// where the system is Linux and the user's choice where one is needed.
pub open spec fn install_plan(
    system: Seq<char>,
    distro: Seq<char>,
    choice: Option<Choice>,
) -> InstallPlanView {
    if system == "linux"@ {
        if uses_apt(distro) {
            choice_plan("apt"@, "openssh-client"@, choice)
        } else if uses_yum(distro) {
            choice_plan("yum"@, "openssh-clients"@, choice)
        } else if distro == "arch"@ {
            InstallPlanView::Package {
                command: seq!["sudo"@, "pacman"@, "-S"@, "--noconfirm"@, "openssh"@],
                enable: true,
            }
        } else {
            InstallPlanView::UnsupportedDistribution
        }
    } else if system == "macos"@ {
        InstallPlanView::Package { command: seq!["brew"@, "install"@, "openssh"@], enable: true }
    } else if system == "windows"@ {
        match choice {
            Some(Choice::Client) => InstallPlanView::Chain {
                commands: capability_chain("OpenSSH.Client~~~~0.0.1.0"@),
                package: Choice::Client,
            },
            Some(Choice::Server) => InstallPlanView::Chain {
                commands: capability_chain("OpenSSH.Server~~~~0.0.1.0"@),
                package: Choice::Server,
            },
            None => InstallPlanView::InvalidChoice,
        }
    } else {
        InstallPlanView::UnsupportedSystem
    }
}

/// What installing the OpenSSH client alone asks for on `system`.
pub open spec fn client_plan(system: Seq<char>, distro: Seq<char>) -> InstallPlanView {
    if system == "linux"@ {
        if uses_apt(distro) {
            InstallPlanView::Package {
                command: package_command("apt"@, "openssh-client"@),
                enable: false,
            }
        } else if uses_yum(distro) {
            InstallPlanView::Package {
                command: package_command("yum"@, "openssh-clients"@),
                enable: false,
            }
        } else if distro == "arch"@ {
            InstallPlanView::Package {
                command: seq!["sudo"@, "pacman"@, "-S"@, "--noconfirm"@, "openssh"@],
                enable: false,
            }
        } else {
            InstallPlanView::UnsupportedDistribution
        }
    } else if system == "macos"@ {
        InstallPlanView::Package { command: seq!["brew"@, "install"@, "openssh"@], enable: false }
    } else if system == "windows"@ {
        InstallPlanView::Package { command: seq!["choco"@, "install"@, "openssh"@], enable: false }
    } else {
        InstallPlanView::UnsupportedSystem
    }
}

/// The commands that start the SSH server on `system` and keep it enabled,
/// each to run only where the one before succeeded; nothing for a system
/// that is not provided for.
pub open spec fn enable_chain(system: Seq<char>) -> Option<Seq<Seq<Seq<char>>>> {
    if system == "linux"@ {
        Some(
            seq![
                seq!["sudo"@, "systemctl"@, "start"@, "sshd"@],
                seq!["sudo"@, "systemctl"@, "enable"@, "sshd"@],
            ],
        )
    } else if system == "macos"@ {
        Some(seq![seq!["sudo"@, "systemsetup"@, "-setremotelogin"@, "on"@]])
    } else if system == "windows"@ {
        Some(
            seq![
                seq!["PowerShell"@, "Start-Service"@, "sshd"@],
                seq![
                    "PowerShell"@,
                    "Set-Service"@,
                    "-Name"@,
                    "sshd"@,
                    "-StartupType"@,
                    "'Automatic'"@,
                ],
            ],
        )
    } else {
        None
    }
}

/// A command of three words.
fn words3(a: &str, b: &str, c: &str) -> (r: Vec<String>)
    ensures
        views(r@) == seq![a@, b@, c@],
{
    let mut out: Vec<String> = Vec::new();
    out.push(String::from_str(a));
    out.push(String::from_str(b));
    out.push(String::from_str(c));
    assert(views(out@) == seq![a@, b@, c@]);
    out
}

/// A command of four words.
fn words4(a: &str, b: &str, c: &str, d: &str) -> (r: Vec<String>)
    ensures
        views(r@) == seq![a@, b@, c@, d@],
{
    let mut out = words3(a, b, c);
    let ghost before = views(out@);
    out.push(String::from_str(d));
    assert(views(out@) == before.push(d@));
    assert(views(out@) == seq![a@, b@, c@, d@]);
    out
}

/// A command of five words.
fn words5(a: &str, b: &str, c: &str, d: &str, e: &str) -> (r: Vec<String>)
    ensures
        views(r@) == seq![a@, b@, c@, d@, e@],
{
    let mut out = words4(a, b, c, d);
    let ghost before = views(out@);
    out.push(String::from_str(e));
    assert(views(out@) == before.push(e@));
    assert(views(out@) == seq![a@, b@, c@, d@, e@]);
    out
}

/// Two commands in order.
fn chain2(first: Vec<String>, second: Vec<String>) -> (r: Vec<Vec<String>>)
    ensures
        command_views(r@) == seq![views(first@), views(second@)],
{
    let mut out: Vec<Vec<String>> = Vec::new();
    out.push(first);
    out.push(second);
    assert(command_views(out@) == seq![views(first@), views(second@)]);
    out
}

/// The command that looks for the OpenSSH capabilities of Windows.
fn capability_check_command() -> (r: Vec<String>)
    ensures
        views(r@) == capability_check(),
{
    let mut out = words5("PowerShell", "Get-WindowsCapability", "-Online", "|", "Where-Object");
    let ghost five = views(out@);
    out.push(String::from_str("Name"));
    let ghost six = views(out@);
    assert(six == five.push("Name"@));
    out.push(String::from_str("-like"));
    let ghost seven = views(out@);
    assert(seven == six.push("-like"@));
    out.push(String::from_str("'OpenSSH*'"));
    assert(views(out@) == seven.push("'OpenSSH*'"@));
    assert(views(out@) == capability_check());
    out
}

/// The commands that install the Windows capability `name`.
fn capability_commands(name: &str) -> (r: Vec<Vec<String>>)
    ensures
        command_views(r@) == capability_chain(name@),
{
    let check = capability_check_command();
    let install = words5("PowerShell", "Add-WindowsCapability", "-Online", "-Name", name);
    chain2(check, install)
}

/// The commands that install the OpenSSH client of Windows.
pub fn install_windows_ssh_client() -> (r: Vec<Vec<String>>)
    ensures
        command_views(r@) == capability_chain("OpenSSH.Client~~~~0.0.1.0"@),
{
    capability_commands("OpenSSH.Client~~~~0.0.1.0")
}

/// The commands that install the OpenSSH server of Windows.
pub fn install_windows_ssh_server() -> (r: Vec<Vec<String>>)
    ensures
        command_views(r@) == capability_chain("OpenSSH.Server~~~~0.0.1.0"@),
{
    capability_commands("OpenSSH.Server~~~~0.0.1.0")
}

/// Whether `distro` is installed to with `apt`.
fn is_apt(distro: &str) -> (r: bool)
    ensures
        r == uses_apt(distro@),
{
    same_text(distro, "debian") || same_text(distro, "ubuntu")
}

/// Whether `distro` is installed to with `yum`.
fn is_yum(distro: &str) -> (r: bool)
    ensures
        r == uses_yum(distro@),
{
    same_text(distro, "fedora") || same_text(distro, "centos") || same_text(distro, "redhat")
}

/// Whether the user has to choose between client and server before
/// [`install_ssh`] can decide.
pub fn needs_choice(system: &str, distro: &str) -> (r: bool)
    ensures
        r == choice_needed(system@, distro@),
{
    if same_text(system, "linux") {
        is_apt(distro) || is_yum(distro)
    } else {
        same_text(system, "windows")
    }
}

/// The plan for a distribution that offers client and server apart.
fn plan_by_choice(tool: &str, client: &str, choice: Option<Choice>) -> (r: InstallPlan)
    ensures
        r@ == choice_plan(tool@, client@, choice),
{
    match choice {
        Some(Choice::Client) => InstallPlan::Package {
            command: words5("sudo", tool, "install", "-y", client),
            enable: false,
        },
        Some(Choice::Server) => InstallPlan::Package {
            command: words5("sudo", tool, "install", "-y", "openssh-server"),
            enable: true,
        },
        None => InstallPlan::InvalidChoice,
    }
}

/// Decides how OpenSSH is installed on `system`, whose distribution is
/// `distro` where it is Linux. `choice` is what the user chose, or nothing
/// where the answer named neither client nor server; it counts only where
/// [`needs_choice`] says so.
pub fn install_ssh(system: &str, distro: &str, choice: Option<Choice>) -> (r: InstallPlan)
    ensures
        r@ == install_plan(system@, distro@, choice),
{
    if same_text(system, "linux") {
        if is_apt(distro) {
            plan_by_choice("apt", "openssh-client", choice)
        } else if is_yum(distro) {
            plan_by_choice("yum", "openssh-clients", choice)
        } else if same_text(distro, "arch") {
            InstallPlan::Package {
                command: words5("sudo", "pacman", "-S", "--noconfirm", "openssh"),
                enable: true,
            }
        } else {
            InstallPlan::UnsupportedDistribution
        }
    } else if same_text(system, "macos") {
        InstallPlan::Package { command: words3("brew", "install", "openssh"), enable: true }
    } else if same_text(system, "windows") {
        match choice {
            Some(Choice::Client) => InstallPlan::Chain {
                commands: install_windows_ssh_client(),
                package: Choice::Client,
            },
            Some(Choice::Server) => InstallPlan::Chain {
                commands: install_windows_ssh_server(),
                package: Choice::Server,
            },
            None => InstallPlan::InvalidChoice,
        }
    } else {
        InstallPlan::UnsupportedSystem
    }
}

/// Decides how the OpenSSH client alone is installed on `system`.
pub fn install_ssh_client(system: &str, distro: &str) -> (r: InstallPlan)
    ensures
        r@ == client_plan(system@, distro@),
{
    if same_text(system, "linux") {
        if is_apt(distro) {
            InstallPlan::Package {
                command: words5("sudo", "apt", "install", "-y", "openssh-client"),
                enable: false,
            }
        } else if is_yum(distro) {
            InstallPlan::Package {
                command: words5("sudo", "yum", "install", "-y", "openssh-clients"),
                enable: false,
            }
        } else if same_text(distro, "arch") {
            InstallPlan::Package {
                command: words5("sudo", "pacman", "-S", "--noconfirm", "openssh"),
                enable: false,
            }
        } else {
            InstallPlan::UnsupportedDistribution
        }
    } else if same_text(system, "macos") {
        InstallPlan::Package { command: words3("brew", "install", "openssh"), enable: false }
    } else if same_text(system, "windows") {
        InstallPlan::Package { command: words3("choco", "install", "openssh"), enable: false }
    } else {
        InstallPlan::UnsupportedSystem
    }
}

/// The commands as the contracts speak of them.
pub open spec fn chain_view(r: Option<Vec<Vec<String>>>) -> Option<Seq<Seq<Seq<char>>>> {
    match r {
        Some(commands) => Some(command_views(commands@)),
        None => None,
    }
}

/// Decides how the SSH server is started and kept enabled on `system`.
pub fn enable_ssh(system: &str) -> (r: Option<Vec<Vec<String>>>)
    ensures
        chain_view(r) == enable_chain(system@),
{
    if same_text(system, "linux") {
        Some(
            chain2(
                words4("sudo", "systemctl", "start", "sshd"),
                words4("sudo", "systemctl", "enable", "sshd"),
            ),
        )
    } else if same_text(system, "macos") {
        let only = words4("sudo", "systemsetup", "-setremotelogin", "on");
        let mut out: Vec<Vec<String>> = Vec::new();
        out.push(only);
        assert(command_views(out@) == seq![seq!["sudo"@, "systemsetup"@, "-setremotelogin"@, "on"@]]);
        Some(out)
    } else if same_text(system, "windows") {
        let mut keep = words5("PowerShell", "Set-Service", "-Name", "sshd", "-StartupType");
        let ghost five = views(keep@);
        keep.push(String::from_str("'Automatic'"));
        assert(views(keep@) == five.push("'Automatic'"@));
        assert(views(keep@) == seq![
            "PowerShell"@,
            "Set-Service"@,
            "-Name"@,
            "sshd"@,
            "-StartupType"@,
            "'Automatic'"@,
        ]);
        Some(chain2(words3("PowerShell", "Start-Service", "sshd"), keep))
    } else {
        None
    }
}

/// What is said of a command that has run: whether it succeeded.
pub fn run_command(succeeded: bool) -> (r: String)
    ensures
        r@ == if succeeded {
            "Command executed successfully."@
        } else {
            "Failed to execute the command."@
        },
{
    if succeeded {
        String::from_str("Command executed successfully.")
    } else {
        String::from_str("Failed to execute the command.")
    }
}

/// What is said of the one command that installs the client alone.
pub fn client_install_message(succeeded: bool) -> (r: String)
    ensures
        r@ == if succeeded {
            "SSH installed successfully."@
        } else {
            "Failed to install SSH."@
        },
{
    if succeeded {
        String::from_str("SSH installed successfully.")
    } else {
        String::from_str("Failed to install SSH.")
    }
}

/// The command of a chain to run after `performed` of `planned` commands,
/// the last of which succeeded or not: the next in order, and none behind
/// a command that did not succeed or behind the last.
pub open spec fn command_after(planned: nat, performed: usize, last_succeeded: bool) -> Option<
    usize,
> {
    if last_succeeded && performed < planned {
        Some(performed)
    } else {
        None
    }
}

/// Which command of `commands` the caller is to run next, if any. Before
/// the first command `last_succeeded` is set.
pub fn next_command(commands: &Vec<Vec<String>>, performed: usize, last_succeeded: bool) -> (r:
    Option<usize>)
    ensures
        r == command_after(commands@.len(), performed, last_succeeded),
{
    if last_succeeded && performed < commands.len() {
        Some(performed)
    } else {
        None
    }
}

/// What is said once the command at `index` of the chain that enables the
/// server has run: the first command starts the server and is reported,
/// what follows it is not.
pub open spec fn enable_report(index: usize, succeeded: bool) -> Option<Seq<char>> {
    if index != 0 {
        None
    } else if succeeded {
        Some("OpenSSH Server started successfully."@)
    } else {
        Some("Failed to start OpenSSH Server."@)
    }
}

/// What is said once the command at `index` of the chain that installs
/// `package` on Windows has run: a look that fails, and the installation
/// either way.
pub open spec fn capability_report(package: Choice, index: usize, succeeded: bool) -> Option<
    Seq<char>,
> {
    if index == 0 {
        if succeeded {
            None
        } else {
            Some("Failed to check OpenSSH availability."@)
        }
    } else if index == 1 {
        Some(
            match (package, succeeded) {
                (Choice::Client, true) => "OpenSSH Client installed successfully."@,
                (Choice::Client, false) => "Failed to install OpenSSH Client."@,
                (Choice::Server, true) => "OpenSSH Server installed successfully."@,
                (Choice::Server, false) => "Failed to install OpenSSH Server."@,
            },
        )
    } else {
        None
    }
}

/// A message, if there is one, as the contracts speak of it.
pub open spec fn message_view(r: Option<String>) -> Option<Seq<char>> {
    match r {
        Some(text) => Some(text@),
        None => None,
    }
}

/// What is said once the command at `index` of the enabling chain has run.
pub fn enable_message(index: usize, succeeded: bool) -> (r: Option<String>)
    ensures
        message_view(r) == enable_report(index, succeeded),
{
    if index != 0 {
        None
    } else if succeeded {
        Some(String::from_str("OpenSSH Server started successfully."))
    } else {
        Some(String::from_str("Failed to start OpenSSH Server."))
    }
}

/// What is said once the command at `index` of the chain that installs
/// `package` on Windows has run.
pub fn capability_message(package: Choice, index: usize, succeeded: bool) -> (r: Option<String>)
    ensures
        message_view(r) == capability_report(package, index, succeeded),
{
    if index == 0 {
        if succeeded {
            None
        } else {
            Some(String::from_str("Failed to check OpenSSH availability."))
        }
    } else if index == 1 {
        match package {
            Choice::Client => if succeeded {
                Some(String::from_str("OpenSSH Client installed successfully."))
            } else {
                Some(String::from_str("Failed to install OpenSSH Client."))
            },
            Choice::Server => if succeeded {
                Some(String::from_str("OpenSSH Server installed successfully."))
            } else {
                Some(String::from_str("Failed to install OpenSSH Server."))
            },
        }
    } else {
        None
    }
}

} // verus!
