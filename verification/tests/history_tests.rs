use sshgo::error::Error;
use sshgo::history::{
    delete_connection, history_directory, history_file, load_connections, save_connection,
};
use sshgo::terminal::{connect_ssh, password_auth, secure_copy, terminal_command};
use sshgo::text::{chars_of, contains_text, find_char, has_suffix, join, lines_of, piece, same_text};

fn names(items: &[&str]) -> Vec<String> {
    items.iter().map(|s| s.to_string()).collect()
}

#[test]
fn history_paths() {
    assert_eq!(history_directory("alice"), "/home/alice/.config/sshgo");
    assert_eq!(history_file("alice"), "/home/alice/.config/sshgo/previousConnections");
}

#[test]
fn save_connection_forms_one_line() {
    assert_eq!(save_connection("alice@host".to_string()), "alice@host\n");
    assert_eq!(save_connection(String::new()), "\n");
}

#[test]
fn delete_connection_removes_every_occurrence() {
    let log = names(&["a@x", "b@y", "a@x", "c@z"]);
    assert_eq!(delete_connection(log, "a@x".to_string()), Ok(names(&["b@y", "c@z"])));
}

#[test]
fn delete_connection_keeps_order_of_the_rest() {
    let log = names(&["3", "1", "2", "1"]);
    assert_eq!(delete_connection(log, "2".to_string()), Ok(names(&["3", "1", "1"])));
}

#[test]
fn delete_connection_not_found() {
    let log = names(&["a@x", "b@y"]);
    assert_eq!(
        delete_connection(log, "c@z".to_string()),
        Err(Error::NotFound("Connection not found".to_string()))
    );
    assert_eq!(
        delete_connection(Vec::new(), "c@z".to_string()),
        Err(Error::NotFound("Connection not found".to_string()))
    );
}

#[test]
fn delete_only_connection_leaves_empty_log() {
    assert_eq!(delete_connection(names(&["a"]), "a".to_string()), Ok(Vec::<String>::new()));
}

#[test]
fn terminal_commands() {
    assert_eq!(password_auth("alice@host"), "kitty --hold ssh alice@host");
    assert_eq!(connect_ssh("bob@10.0.0.1"), "kitty --hold ssh bob@10.0.0.1");
    assert_eq!(secure_copy("bob@10.0.0.1"), "kitty --hold ssh-copy-id bob@10.0.0.1");
    assert_eq!(terminal_command("scp", "x"), "kitty --hold scp x");
}

#[test]
fn text_helpers() {
    assert!(same_text("abc", "abc"));
    assert!(!same_text("abc", "abd"));
    assert!(has_suffix("id_rsa.pub", ".pub"));
    assert!(has_suffix(".pub", ".pub"));
    assert!(!has_suffix("pub", ".pub"));
    assert!(!has_suffix("id_rsa.pubx", ".pub"));
    assert!(has_suffix("anything", ""));
    assert!(has_suffix("ü.pub", ".pub"));
    assert_eq!(join("a", "b"), "ab");
    assert_eq!(chars_of("aé"), vec!['a', 'é']);
    assert!(contains_text(&names(&["x", "y"]), "y"));
    assert!(!contains_text(&names(&["x", "y"]), "z"));
}

#[test]
fn load_connections_takes_the_log_apart() {
    assert_eq!(load_connections("a@x\nb@y\n"), names(&["a@x", "b@y"]));
    assert_eq!(load_connections("a@x\nb@y"), names(&["a@x", "b@y"]));
    assert_eq!(load_connections(""), Vec::<String>::new());
    assert_eq!(load_connections("\n"), names(&[""]));
    assert_eq!(load_connections("a\r\nb\r\n"), names(&["a", "b"]));
    assert_eq!(load_connections("a\n\nb"), names(&["a", "", "b"]));
}

#[test]
fn load_connections_agrees_with_std_lines() {
    for text in [
        "", "\n", "\r\n", "a", "a\n", "a\r\n", "a\r", "a\rb\n", "\r", "\n\n", "a\n\r\nb",
        "x\r\r\ny", "é\nü\r\n", "one\ntwo\nthree", "\r\n\r\n",
    ] {
        let expected: Vec<String> = text.lines().map(|l| l.to_string()).collect();
        assert_eq!(load_connections(text), expected, "text {:?}", text);
        assert_eq!(lines_of(text), expected, "text {:?}", text);
    }
}

#[test]
fn saved_connections_load_again() {
    let mut log = String::new();
    for c in ["a@x", "b@y", "c@z"] {
        log.push_str(&save_connection(c.to_string()));
    }
    assert_eq!(load_connections(&log), names(&["a@x", "b@y", "c@z"]));
}

#[test]
fn find_char_and_piece() {
    let chars: Vec<char> = "ab=cd=".chars().collect();
    assert_eq!(find_char(&chars, '=', 0), 2);
    assert_eq!(find_char(&chars, '=', 2), 2);
    assert_eq!(find_char(&chars, '=', 3), 5);
    assert_eq!(find_char(&chars, 'z', 0), 6);
    assert_eq!(find_char(&chars, '=', 6), 6);
    assert_eq!(piece(&chars, 1, 4), vec!['b', '=', 'c']);
    assert_eq!(piece(&chars, 3, 3), Vec::<char>::new());
}
