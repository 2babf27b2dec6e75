//! The log of earlier connections: one connection to a line, newest last.
//!
//! The caller reads and writes the file. The library names the file, forms
//! the line that records a connection, takes the log apart into its
//! connections, and removes one from them.

use crate::error::{Error, ErrorView};
use crate::listing::{strings_without, without};
use crate::text::{contains_text, join, lines_from, lines_of, views};
use vstd::prelude::*;

verus! {

/// The directory that holds the log of `username`.
pub open spec fn history_directory_of(username: Seq<char>) -> Seq<char> {
    "/home/"@ + username + "/.config/sshgo"@
}

/// The log file of `username`.
pub open spec fn history_file_of(username: Seq<char>) -> Seq<char> {
    history_directory_of(username) + "/previousConnections"@
}

/// The directory that holds the log of `username`.
pub fn history_directory(username: &str) -> (r: String)
    ensures
        r@ == history_directory_of(username@),
{
    join("/home/", username).concat("/.config/sshgo")
}

/// The log file of `username`.
pub fn history_file(username: &str) -> (r: String)
    ensures
        r@ == history_file_of(username@),
{
    history_directory(username).concat("/previousConnections")
}

/// The line that records `connection`, to be appended to the log.
pub fn save_connection(connection: String) -> (r: String)
    ensures
        r@ == connection@ + "\n"@,
{
    connection.concat("\n")
}

/// The connections that the log `text` holds: its lines, oldest first.
pub fn load_connections(text: &str) -> (r: Vec<String>)
    ensures
        views(r@) == lines_from(text@, 0),
{
    lines_of(text)
}

/// The log `connections` without `removed`, or the failure of removing a
/// connection that the log does not hold.
pub open spec fn connections_without(connections: Seq<Seq<char>>, removed: Seq<char>) -> Result<
    Seq<Seq<char>>,
    ErrorView,
> {
    if connections.contains(removed) {
        Ok(without(connections, removed))
    } else {
        Err(ErrorView::NotFound("Connection not found"@))
    }
}

/// A log or a failure as the contracts speak of it.
pub open spec fn log_view(r: Result<Vec<String>, Error>) -> Result<Seq<Seq<char>>, ErrorView> {
    match r {
        Ok(lines) => Ok(views(lines@)),
        Err(e) => Err(e@),
    }
}

/// Removes every line that is `connection_to_delete` from the lines of the
/// log and keeps the others in order. A connection that the log does not
/// hold is reported as not found.
pub fn delete_connection(connections: Vec<String>, connection_to_delete: String) -> (r: Result<
    Vec<String>,
    Error,
>)
    ensures
        log_view(r) == connections_without(views(connections@), connection_to_delete@),
{
    if contains_text(&connections, connection_to_delete.as_str()) {
        Ok(strings_without(&connections, connection_to_delete.as_str()))
    } else {
        Err(Error::NotFound(String::from_str("Connection not found")))
    }
}

} // verus!
