//! The command lines that open an SSH tool in a terminal window.
//!
//! Each is the argument of `sh -c`: the terminal emulator, told to stay
//! open, then the tool and what it is to reach. The caller starts it.

use crate::text::join;
use vstd::prelude::*;

verus! {

/// The command line that runs `tool` on `target` in a terminal that stays open.
pub open spec fn held_command(tool: Seq<char>, target: Seq<char>) -> Seq<char> {
    "kitty"@ + " --hold "@ + tool + " "@ + target
}

/// The command line that runs `tool` on `target` in a terminal that stays open.
pub fn terminal_command(tool: &str, target: &str) -> (r: String)
    ensures
        r@ == held_command(tool@, target@),
{
    let mut command = join("kitty", " --hold ");
    command.append(tool);
    command.append(" ");
    command.append(target);
    command
}

/// The command line that logs in as `username`, who is asked for a password.
pub fn password_auth(username: &str) -> (r: String)
    ensures
        r@ == held_command("ssh"@, username@),
{
    terminal_command("ssh", username)
}

/// The command line that copies the user's public key to `address`.
pub fn secure_copy(address: &str) -> (r: String)
    ensures
        r@ == held_command("ssh-copy-id"@, address@),
{
    terminal_command("ssh-copy-id", address)
}

/// The command line that connects to `username`, a user at a host.
pub fn connect_ssh(username: &str) -> (r: String)
    ensures
        r@ == held_command("ssh"@, username@),
{
    terminal_command("ssh", username)
}

} // verus!
