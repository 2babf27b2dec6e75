//! Installing a certificate authority's key as a trust anchor.
//!
//! For the invoking user this is one record appended to the user's
//! known-hosts file. For the SSH daemon it is one command, run with
//! elevated privilege, that stores the key under the daemon's trusted-keys
//! directory and refers to it from the daemon's configuration. The library
//! decides which and builds the record or the command; the caller writes
//! the record or runs the command and reports how that went.

use crate::error::{Error, ErrorView};
use crate::names::{base_name, base_name_is_plain, base_name_of, is_plain_name};
use crate::certificate::signing_key_result;
use crate::text::{join, occurs_in, same_text, views};
use vstd::prelude::*;

verus! {

/// For whom a key is trusted.
#[derive(Debug, Clone, Copy, PartialEq, Eq, Structural)]
pub enum Role {
    /// The invoking user's client.
    User,
    /// The SSH daemon of this machine.
    Host,
}

/// What the caller is to do to install a trust anchor.
#[derive(Debug, PartialEq, Eq)]
pub enum TrustStep {
    /// Append `record` to the user's known-hosts file, creating the file and
    /// its directory where they are absent.
    AppendRecord { record: String },
    /// Run `command`, a program and its arguments, once, and wait for it.
    /// It opens a terminal in which one shell asks for elevation.
    RunElevated { command: Vec<String> },
}

/// A [`TrustStep`] with its text as a sequence of characters.
pub ghost enum TrustStepView {
    AppendRecord { record: Seq<char> },
    RunElevated { command: Seq<Seq<char>> },
}

impl View for TrustStep {
    type V = TrustStepView;

    open spec fn view(&self) -> TrustStepView {
        match self {
            TrustStep::AppendRecord { record } => TrustStepView::AppendRecord { record: record@ },
            TrustStep::RunElevated { command } => TrustStepView::RunElevated {
                command: views(command@),
            },
        }
    }
}

/// How the elevated batch ended.
#[derive(Debug, Clone, Copy, PartialEq, Eq, Structural)]
pub enum BatchReport {
    /// The terminal that was to run it could not be started.
    NotLaunched,
    /// It ran and left this exit code.
    Exited(i32),
    /// It ended without an exit code.
    Interrupted,
}

/// The role that a role string names, if any.
pub open spec fn role_of(s: Seq<char>) -> Option<Role> {
    if s == "user"@ {
        Some(Role::User)
    } else if s == "host"@ {
        Some(Role::Host)
    } else {
        None
    }
}

/// The record that makes a user's client trust the authority's key.
pub open spec fn user_record(key: Seq<char>) -> Seq<char> {
    "@cert-authority * "@ + key
}

/// The file under the trusted-keys directory that holds a key named `base`.
pub open spec fn host_key_path(base: Seq<char>) -> Seq<char> {
    "/etc/ssh/trusted_keys"@ + "/"@ + base
}

/// The script of the elevated batch: make the trusted-keys directory,
/// write the first argument into the file that the second names, and
/// append to the daemon's configuration the directive that refers to that
/// file. It is the same for every key and every name: the shell reads both
/// as arguments, never as part of its text.
pub open spec fn host_script() -> Seq<char> {
    "sudo mkdir -p /etc/ssh/trusted_keys && sudo sh -c 'touch \"$2\" && printf %s \"$1\" > \"$2\"' sh \"$1\" \"$2\" && sudo sh -c 'printf \"TrustedUserCAKeys %s\\n\" \"$1\" >> /etc/ssh/sshd_config' sh \"$2\" && exit"@
}

/// The command that runs the elevated batch for `key` under the name
/// `base`: a terminal that runs one shell on [`host_script`], with the key
/// and the path of its file as the script's two arguments.
pub open spec fn host_command(key: Seq<char>, base: Seq<char>) -> Seq<Seq<char>> {
    seq!["kitty"@, "-e"@, "bash"@, "-c"@, host_script(), "bash"@, key, host_key_path(base)]
}

/// What installing `key` under the file name `filename` for `role` asks of
/// the caller, or why it is refused.
pub open spec fn trust_plan(key: Seq<char>, filename: Seq<char>, role: Seq<char>) -> Result<
    TrustStepView,
    ErrorView,
> {
    match role_of(role) {
        None => Err(ErrorView::InvalidRole),
        Some(Role::User) => Ok(TrustStepView::AppendRecord { record: user_record(key) }),
        Some(Role::Host) => match base_name_of(filename) {
            None => Err(ErrorView::InvalidName("The key file has no name."@)),
            Some(base) => Ok(TrustStepView::RunElevated { command: host_command(key, base) }),
        },
    }
}

/// The known-hosts file `file` after `record` was appended to it.
pub open spec fn appended(file: Seq<char>, record: Seq<char>) -> Seq<char> {
    file + record
}

/// A plan as the contracts speak of it.
pub open spec fn plan_view(r: Result<TrustStep, Error>) -> Result<TrustStepView, ErrorView> {
    match r {
        Ok(step) => Ok(step@),
        Err(e) => Err(e@),
    }
}

/// The outcome of an installation as the contracts speak of it.
pub open spec fn outcome_view(r: Result<i32, Error>) -> Result<i32, ErrorView> {
    match r {
        Ok(code) => Ok(code),
        Err(e) => Err(e@),
    }
}

/// Reads a role string: `user` and `host` are the two roles, and anything
/// else is refused.
pub fn parse_role(role: &str) -> (r: Result<Role, Error>)
    ensures
        match role_of(role@) {
            Some(known) => r == Ok::<Role, Error>(known),
            None => r == Err::<Role, Error>(Error::InvalidRole),
        },
{
    if same_text(role, "user") {
        Ok(Role::User)
    } else if same_text(role, "host") {
        Ok(Role::Host)
    } else {
        Err(Error::InvalidRole)
    }
}

/// The known-hosts record for `key`.
pub fn user_trust_record(key: &str) -> (r: String)
    ensures
        r@ == user_record(key@),
{
    join("@cert-authority * ", key)
}

/// The command that installs `key` under the plain name `base`.
fn host_install_command(key: &str, base: &str) -> (r: Vec<String>)
    ensures
        views(r@) == host_command(key@, base@),
{
    let path = join("/etc/ssh/trusted_keys", "/").concat(base);
    let mut command: Vec<String> = Vec::new();
    command.push(String::from_str("kitty"));
    command.push(String::from_str("-e"));
    command.push(String::from_str("bash"));
    command.push(String::from_str("-c"));
    command.push(
        String::from_str(
            "sudo mkdir -p /etc/ssh/trusted_keys && sudo sh -c 'touch \"$2\" && printf %s \"$1\" > \"$2\"' sh \"$1\" \"$2\" && sudo sh -c 'printf \"TrustedUserCAKeys %s\\n\" \"$1\" >> /etc/ssh/sshd_config' sh \"$2\" && exit",
        ),
    );
    command.push(String::from_str("bash"));
    command.push(String::from_str(key));
    command.push(path);
    assert(views(command@) == host_command(key@, base@));
    command
}

/// Decides how the key `file_content` is installed for `role`.
///
/// For `user` the step is the record to append. For `host` it is the
/// command that runs the elevated batch, which gets the key and the path of
/// its file as arguments; the file is named by the last component of
/// `filename` alone. Any other role is refused, and so is a `filename`
/// without a last component.
pub fn add_ca_key(file_content: String, filename: String, role: String) -> (r: Result<
    TrustStep,
    Error,
>)
    ensures
        plan_view(r) == trust_plan(file_content@, filename@, role@),
{
    match parse_role(role.as_str()) {
        Err(e) => Err(e),
        Ok(Role::User) => Ok(
            TrustStep::AppendRecord { record: user_trust_record(file_content.as_str()) },
        ),
        Ok(Role::Host) => match base_name(filename.as_str()) {
            None => Err(Error::InvalidName(String::from_str("The key file has no name."))),
            Some(base) => Ok(
                TrustStep::RunElevated {
                    command: host_install_command(file_content.as_str(), base.as_str()),
                },
            ),
        },
    }
}

/// What appending the user's record amounts to: `failure` is what the file
/// system said where the record could not be written.
pub fn user_trust_outcome(failure: Option<String>) -> (r: Result<i32, Error>)
    ensures
        match failure {
            None => r == Ok::<i32, Error>(1i32),
            Some(text) => outcome_view(r) == Err::<i32, ErrorView>(ErrorView::IoFailure(text@)),
        },
{
    match failure {
        None => Ok(1),
        Some(text) => Err(Error::IoFailure(text)),
    }
}

/// The failure reported for an elevated batch that ended as `report` says.
pub open spec fn batch_failure(report: BatchReport) -> Seq<char> {
    match report {
        BatchReport::NotLaunched => "Failed to launch terminal for combined command"@,
        _ => "The elevated installation did not succeed"@,
    }
}

/// What the elevated batch amounts to. Only exit code 0 is success;
/// nothing is said or undone about what a failed run left behind.
pub fn host_trust_outcome(report: BatchReport) -> (r: Result<i32, Error>)
    ensures
        report == BatchReport::Exited(0) ==> r == Ok::<i32, Error>(1i32),
        report != BatchReport::Exited(0) ==> outcome_view(r) == Err::<i32, ErrorView>(
            ErrorView::IoFailure(batch_failure(report)),
        ),
{
    match report {
        BatchReport::Exited(0) => Ok(1),
        BatchReport::NotLaunched => Err(
            Error::IoFailure(String::from_str("Failed to launch terminal for combined command")),
        ),
        _ => Err(Error::IoFailure(String::from_str("The elevated installation did not succeed"))),
    }
}

/// The two role strings name the two roles.
pub proof fn role_strings()
    ensures
        role_of("user"@) == Some(Role::User),
        role_of("host"@) == Some(Role::Host),
{
    reveal_strlit("user");
    reveal_strlit("host");
    assert("user"@[0] == 'u');
    assert("host"@[0] == 'h');
}

/// A key installed for the daemon lies directly in the trusted-keys
/// directory: its file is named by a plain name taken from `filename` in one
/// piece, whatever directories `filename` goes through, and a `filename`
/// that yields no such name is refused.
pub proof fn host_key_file_has_plain_name(key: Seq<char>, filename: Seq<char>)
    ensures
        match base_name_of(filename) {
            Some(base) => {
                &&& is_plain_name(base)
                &&& occurs_in(filename, base)
                &&& trust_plan(key, filename, "host"@) == Ok::<TrustStepView, ErrorView>(
                    TrustStepView::RunElevated { command: host_command(key, base) },
                )
            },
            None => trust_plan(key, filename, "host"@) is Err,
        },
{
    role_strings();
    base_name_is_plain(filename);
}

/// The elevated shell reads the key and the path of its file as arguments:
/// its script is [`host_script`] whatever the key and the name hold, the
/// key is one argument as it came, and the path is another.
pub proof fn host_batch_takes_key_and_path_as_arguments(key: Seq<char>, filename: Seq<char>)
    ensures
        trust_plan(key, filename, "host"@) matches Ok(TrustStepView::RunElevated { command }) ==> {
            &&& base_name_of(filename) matches Some(base) && command == host_command(key, base)
                && command[7] == host_key_path(base)
            &&& command.len() == 8
            &&& command[4] == host_script()
            &&& command[6] == key
        },
{
    role_strings();
}

/// A signing key that was fetched and then installed for the user stands
/// in the known-hosts file as it came from the authority: whatever the file
/// held before, it then holds the `@cert-authority` marker followed by
/// exactly the fetched text.
pub proof fn fetched_key_is_installed_verbatim(
    status: u16,
    reason: Seq<char>,
    body: Seq<char>,
    filename: Seq<char>,
    known_hosts: Seq<char>,
)
    ensures
        signing_key_result(status, reason, body) matches Ok(key) ==> {
            &&& key == body
            &&& trust_plan(key, filename, "user"@) == Ok::<TrustStepView, ErrorView>(
                TrustStepView::AppendRecord { record: user_record(body) },
            )
            &&& occurs_in(
                appended(known_hosts, user_record(body)),
                "@cert-authority * "@ + body,
            )
        },
{
    role_strings();
    let record = user_record(body);
    let file = appended(known_hosts, record);
    let at = known_hosts.len() as int;
    assert(file.subrange(at, at + record.len()) == record);
}

} // verus!
