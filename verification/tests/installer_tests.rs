use sshgo::installer::{
    capability_message, choice_from, client_install_message, enable_message, enable_ssh,
    get_linux_distro, get_linux_distro_uname, install_ssh, install_ssh_client,
    install_windows_ssh_client, install_windows_ssh_server, needs_choice, next_command,
    read_choice, release_identifier, run_command, Choice, InstallPlan,
};

fn words(items: &[&str]) -> Vec<String> {
    items.iter().map(|s| s.to_string()).collect()
}

fn expected_distro(text: &str) -> String {
    text.lines()
        .find(|line| line.starts_with("ID="))
        .map(|line| line.split('=').nth(1).unwrap_or_default())
        .unwrap_or_default()
        .to_lowercase()
}

#[test]
fn release_identifier_reads_first_id_line() {
    let text = "NAME=\"Ubuntu\"\nVERSION_ID=\"22.04\"\nID=ubuntu\nID_LIKE=debian\n";
    assert_eq!(release_identifier(text), "ubuntu");
    assert_eq!(get_linux_distro(text), "ubuntu");
}

#[test]
fn release_identifier_edge_cases() {
    assert_eq!(release_identifier(""), "");
    assert_eq!(release_identifier("NAME=x\n"), "");
    assert_eq!(release_identifier("ID="), "");
    assert_eq!(release_identifier("ID=arch"), "arch");
    assert_eq!(release_identifier("ID=a=b\n"), "a");
    assert_eq!(release_identifier("ID=fedora\r\nID=other\n"), "fedora");
    assert_eq!(release_identifier("ID=fedora\r"), "fedora\r");
    assert_eq!(release_identifier("\n\nID=x"), "x");
    assert_eq!(release_identifier("XID=no\nID=yes\n"), "yes");
    assert_eq!(release_identifier("ID"), "");
    assert_eq!(release_identifier("ID=\"centos\"\n"), "\"centos\"");
    assert_eq!(release_identifier("\r\nID=k\r\n"), "k");
}

#[test]
fn get_linux_distro_agrees_with_line_by_line_reading() {
    for text in [
        "", "ID=Ubuntu\n", "NAME=a\nID=Debian\nID=x", "ID=a=b", "ID=\r\n", "x\r\nID=Arch\r\n",
        "ID=fedora\r", "\n", "\r\n", "ID", "I", "ID=", "=ID=x\nID=É\n", "a\n\nID=q\n\n",
        "ID=one\rtwo\nID=z",
    ] {
        assert_eq!(get_linux_distro(text), expected_distro(text), "text {:?}", text);
    }
}

#[test]
fn get_linux_distro_lowercases() {
    assert_eq!(get_linux_distro("ID=Ubuntu\n"), "ubuntu");
    assert_eq!(get_linux_distro("ID=CENTOS"), "centos");
}

#[test]
fn uname_description_is_trimmed_and_lowercased() {
    assert_eq!(
        get_linux_distro_uname("  Linux 6.1.0 x86_64\n"),
        "linux 6.1.0 x86_64"
    );
    assert_eq!(get_linux_distro_uname(""), "");
}

#[test]
fn read_choice_ignores_surrounding_space() {
    assert_eq!(read_choice("1\n"), Some(Choice::Client));
    assert_eq!(read_choice("  2 \r\n"), Some(Choice::Server));
    assert_eq!(read_choice("3\n"), None);
    assert_eq!(read_choice("\n"), None);
    assert_eq!(read_choice("1 2"), None);
}

#[test]
fn choice_from_is_exact() {
    assert_eq!(choice_from("1"), Some(Choice::Client));
    assert_eq!(choice_from("2"), Some(Choice::Server));
    assert_eq!(choice_from(" 1"), None);
    assert_eq!(choice_from(""), None);
}

#[test]
fn needs_choice_cases() {
    for distro in ["debian", "ubuntu", "fedora", "centos", "redhat"] {
        assert!(needs_choice("linux", distro));
    }
    assert!(!needs_choice("linux", "arch"));
    assert!(!needs_choice("linux", "gentoo"));
    assert!(!needs_choice("macos", "debian"));
    assert!(needs_choice("windows", ""));
    assert!(!needs_choice("freebsd", "debian"));
}

#[test]
fn install_on_debian_family() {
    for distro in ["debian", "ubuntu"] {
        assert_eq!(
            install_ssh("linux", distro, Some(Choice::Client)),
            InstallPlan::Package {
                command: words(&["sudo", "apt", "install", "-y", "openssh-client"]),
                enable: false,
            }
        );
        assert_eq!(
            install_ssh("linux", distro, Some(Choice::Server)),
            InstallPlan::Package {
                command: words(&["sudo", "apt", "install", "-y", "openssh-server"]),
                enable: true,
            }
        );
        assert_eq!(install_ssh("linux", distro, None), InstallPlan::InvalidChoice);
    }
}

#[test]
fn install_on_redhat_family() {
    for distro in ["fedora", "centos", "redhat"] {
        assert_eq!(
            install_ssh("linux", distro, Some(Choice::Client)),
            InstallPlan::Package {
                command: words(&["sudo", "yum", "install", "-y", "openssh-clients"]),
                enable: false,
            }
        );
        assert_eq!(
            install_ssh("linux", distro, Some(Choice::Server)),
            InstallPlan::Package {
                command: words(&["sudo", "yum", "install", "-y", "openssh-server"]),
                enable: true,
            }
        );
        assert_eq!(install_ssh("linux", distro, None), InstallPlan::InvalidChoice);
    }
}

#[test]
fn install_on_arch_and_macos_needs_no_choice() {
    let arch = InstallPlan::Package {
        command: words(&["sudo", "pacman", "-S", "--noconfirm", "openssh"]),
        enable: true,
    };
    assert_eq!(install_ssh("linux", "arch", None), arch);
    assert_eq!(install_ssh("linux", "arch", Some(Choice::Client)), arch);
    let mac = InstallPlan::Package { command: words(&["brew", "install", "openssh"]), enable: true };
    assert_eq!(install_ssh("macos", "", None), mac);
    assert_eq!(install_ssh("macos", "ubuntu", Some(Choice::Server)), mac);
}

#[test]
fn install_on_windows() {
    let check = words(&[
        "PowerShell", "Get-WindowsCapability", "-Online", "|", "Where-Object", "Name", "-like",
        "'OpenSSH*'",
    ]);
    let client = vec![
        check.clone(),
        words(&["PowerShell", "Add-WindowsCapability", "-Online", "-Name", "OpenSSH.Client~~~~0.0.1.0"]),
    ];
    let server = vec![
        check,
        words(&["PowerShell", "Add-WindowsCapability", "-Online", "-Name", "OpenSSH.Server~~~~0.0.1.0"]),
    ];
    assert_eq!(install_windows_ssh_client(), client);
    assert_eq!(install_windows_ssh_server(), server);
    assert_eq!(
        install_ssh("windows", "", Some(Choice::Client)),
        InstallPlan::Chain { commands: client, package: Choice::Client }
    );
    assert_eq!(
        install_ssh("windows", "", Some(Choice::Server)),
        InstallPlan::Chain { commands: server, package: Choice::Server }
    );
    assert_eq!(install_ssh("windows", "", None), InstallPlan::InvalidChoice);
}

#[test]
fn install_unsupported() {
    assert_eq!(install_ssh("linux", "gentoo", Some(Choice::Client)), InstallPlan::UnsupportedDistribution);
    assert_eq!(install_ssh("linux", "", None), InstallPlan::UnsupportedDistribution);
    assert_eq!(install_ssh("freebsd", "debian", Some(Choice::Client)), InstallPlan::UnsupportedSystem);
    assert_eq!(install_ssh("", "", None), InstallPlan::UnsupportedSystem);
    assert_eq!(install_ssh("Linux", "debian", Some(Choice::Client)), InstallPlan::UnsupportedSystem);
}

#[test]
fn install_client_only() {
    assert_eq!(
        install_ssh_client("linux", "ubuntu"),
        InstallPlan::Package {
            command: words(&["sudo", "apt", "install", "-y", "openssh-client"]),
            enable: false,
        }
    );
    assert_eq!(
        install_ssh_client("linux", "centos"),
        InstallPlan::Package {
            command: words(&["sudo", "yum", "install", "-y", "openssh-clients"]),
            enable: false,
        }
    );
    assert_eq!(
        install_ssh_client("linux", "arch"),
        InstallPlan::Package {
            command: words(&["sudo", "pacman", "-S", "--noconfirm", "openssh"]),
            enable: false,
        }
    );
    assert_eq!(
        install_ssh_client("macos", ""),
        InstallPlan::Package { command: words(&["brew", "install", "openssh"]), enable: false }
    );
    assert_eq!(
        install_ssh_client("windows", ""),
        InstallPlan::Package { command: words(&["choco", "install", "openssh"]), enable: false }
    );
    assert_eq!(install_ssh_client("linux", "suse"), InstallPlan::UnsupportedDistribution);
    assert_eq!(install_ssh_client("plan9", ""), InstallPlan::UnsupportedSystem);
}

#[test]
fn enable_chains() {
    assert_eq!(
        enable_ssh("linux"),
        Some(vec![
            words(&["sudo", "systemctl", "start", "sshd"]),
            words(&["sudo", "systemctl", "enable", "sshd"]),
        ])
    );
    assert_eq!(
        enable_ssh("macos"),
        Some(vec![words(&["sudo", "systemsetup", "-setremotelogin", "on"])])
    );
    assert_eq!(
        enable_ssh("windows"),
        Some(vec![
            words(&["PowerShell", "Start-Service", "sshd"]),
            words(&["PowerShell", "Set-Service", "-Name", "sshd", "-StartupType", "'Automatic'"]),
        ])
    );
    assert_eq!(enable_ssh("solaris"), None);
}

#[test]
fn run_command_messages() {
    assert_eq!(run_command(true), "Command executed successfully.");
    assert_eq!(run_command(false), "Failed to execute the command.");
}

#[test]
fn client_install_messages() {
    assert_eq!(client_install_message(true), "SSH installed successfully.");
    assert_eq!(client_install_message(false), "Failed to install SSH.");
}

#[test]
fn next_command_goes_in_order_and_stops_at_a_failure() {
    let chain = enable_ssh("linux").unwrap();
    assert_eq!(next_command(&chain, 0, true), Some(0));
    assert_eq!(next_command(&chain, 1, true), Some(1));
    assert_eq!(next_command(&chain, 2, true), None);
    assert_eq!(next_command(&chain, 1, false), None);
    assert_eq!(next_command(&chain, 0, false), None);
    assert_eq!(next_command(&chain, usize::MAX, true), None);
    assert_eq!(next_command(&Vec::new(), 0, true), None);
}

#[test]
fn enable_messages_follow_the_start_only() {
    assert_eq!(enable_message(0, true), Some("OpenSSH Server started successfully.".to_string()));
    assert_eq!(enable_message(0, false), Some("Failed to start OpenSSH Server.".to_string()));
    assert_eq!(enable_message(1, true), None);
    assert_eq!(enable_message(1, false), None);
}

#[test]
fn capability_messages() {
    for package in [Choice::Client, Choice::Server] {
        assert_eq!(capability_message(package, 0, true), None);
        assert_eq!(
            capability_message(package, 0, false),
            Some("Failed to check OpenSSH availability.".to_string())
        );
        assert_eq!(capability_message(package, 2, true), None);
    }
    assert_eq!(
        capability_message(Choice::Client, 1, true),
        Some("OpenSSH Client installed successfully.".to_string())
    );
    assert_eq!(
        capability_message(Choice::Client, 1, false),
        Some("Failed to install OpenSSH Client.".to_string())
    );
    assert_eq!(
        capability_message(Choice::Server, 1, true),
        Some("OpenSSH Server installed successfully.".to_string())
    );
    assert_eq!(
        capability_message(Choice::Server, 1, false),
        Some("Failed to install OpenSSH Server.".to_string())
    );
}

#[test]
fn read_choice_trims_every_kind_of_white_space() {
    assert_eq!(read_choice("\u{3000}\t1\u{a0}\u{2003}\r\n"), Some(Choice::Client));
    assert_eq!(read_choice("\u{200b}1"), None);
}
