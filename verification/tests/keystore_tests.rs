use sshgo::error::Error;
use sshgo::keystore::{
    check_ssh_keys, delete_outcome, delete_result, delete_ssh_key, generate_keys,
    generate_keys_with_filename, generate_outcome, generation_error, generation_outcome,
    keygen_arguments, list_ssh_keys, next_step, removal_failure, rename_outcome, rename_result,
    rename_ssh_key, GeneratePlan, KeyDirectory, KeyStep, StepResult, ToolReport, ALREADY_EXISTS,
    CREATED,
};

fn names(items: &[&str]) -> Vec<String> {
    items.iter().map(|s| s.to_string()).collect()
}

fn directory(items: &[&str]) -> KeyDirectory {
    KeyDirectory::from_listing(names(items))
}

fn perform(dir: &mut KeyDirectory, steps: &[KeyStep]) {
    for step in steps {
        dir.apply(step);
    }
}

#[test]
fn absent_directory_lists_no_keys() {
    let dir = KeyDirectory::empty();
    assert_eq!(list_ssh_keys(&dir), Vec::<String>::new());
    assert_eq!(dir.file_names(), Vec::<String>::new());
}

#[test]
fn listing_shows_only_files_with_a_public_sibling() {
    let dir = directory(&["id_rsa", "id_rsa.pub", "config", "known_hosts", "work", "work.pub"]);
    assert_eq!(list_ssh_keys(&dir), names(&["id_rsa", "work"]));
}

#[test]
fn listing_skips_public_keys_and_dangling_private_keys() {
    let dir = directory(&["a.pub", "a.pub.pub", "lonely", "b.pub"]);
    assert_eq!(list_ssh_keys(&dir), Vec::<String>::new());
}

#[test]
fn listing_keeps_directory_order() {
    let dir = directory(&["z.pub", "z", "m", "m.pub", "a.pub", "a"]);
    assert_eq!(list_ssh_keys(&dir), names(&["z", "m", "a"]));
}

#[test]
fn from_listing_takes_a_repeated_name_once() {
    let dir = directory(&["k", "k.pub", "k", "k.pub"]);
    assert_eq!(dir.file_names(), names(&["k", "k.pub"]));
    assert_eq!(list_ssh_keys(&dir), names(&["k"]));
}

#[test]
fn has_file_finds_exact_names() {
    let dir = directory(&["id_rsa", "id_rsa.pub"]);
    assert!(dir.has_file("id_rsa"));
    assert!(dir.has_file("id_rsa.pub"));
    assert!(!dir.has_file("id_rs"));
    assert!(!dir.has_file(""));
}

#[test]
fn generate_new_key_runs_generator_only() {
    let dir = directory(&["other", "other.pub"]);
    let plan = generate_keys_with_filename(&dir, "ed25519", "secret", "fresh", false);
    assert_eq!(
        plan,
        Ok(GeneratePlan::Run {
            steps: vec![KeyStep::Generate {
                algorithm: "ed25519".to_string(),
                name: "fresh".to_string(),
                passphrase: "secret".to_string(),
            }],
        })
    );
}

#[test]
fn generated_key_is_listed_exactly_once() {
    let mut dir = directory(&["other", "other.pub"]);
    let plan = generate_keys_with_filename(&dir, "rsa", "", "fresh", false).unwrap();
    match plan {
        GeneratePlan::Run { steps } => perform(&mut dir, &steps),
        GeneratePlan::AlreadyExists => panic!("the key is new"),
    }
    let listed = list_ssh_keys(&dir);
    assert_eq!(listed.iter().filter(|k| k.as_str() == "fresh").count(), 1);
    assert_eq!(listed, names(&["other", "fresh"]));
    assert_eq!(dir.file_names(), names(&["other", "other.pub", "fresh", "fresh.pub"]));
}

#[test]
fn second_generate_without_overwrite_reports_exists() {
    let mut dir = KeyDirectory::empty();
    let first = generate_keys_with_filename(&dir, "rsa", "pw", "id_rsa", false).unwrap();
    match first {
        GeneratePlan::Run { steps } => perform(&mut dir, &steps),
        GeneratePlan::AlreadyExists => panic!("the key is new"),
    }
    let before = dir.file_names();
    let second = generate_keys_with_filename(&dir, "rsa", "pw", "id_rsa", false);
    assert_eq!(second, Ok(GeneratePlan::AlreadyExists));
    assert_eq!(dir.file_names(), before);
    assert_eq!(ALREADY_EXISTS, -1);
}

#[test]
fn generate_with_overwrite_clears_both_halves_first() {
    let dir = directory(&["id_rsa", "id_rsa.pub"]);
    let plan = generate_keys_with_filename(&dir, "rsa", "pw", "id_rsa", true);
    assert_eq!(
        plan,
        Ok(GeneratePlan::Run {
            steps: vec![
                KeyStep::Remove { name: "id_rsa".to_string() },
                KeyStep::Remove { name: "id_rsa.pub".to_string() },
                KeyStep::Generate {
                    algorithm: "rsa".to_string(),
                    name: "id_rsa".to_string(),
                    passphrase: "pw".to_string(),
                },
            ],
        })
    );
}

#[test]
fn generate_with_overwrite_and_no_sibling_clears_private_only() {
    let dir = directory(&["id_rsa"]);
    let plan = generate_keys_with_filename(&dir, "rsa", "pw", "id_rsa", true);
    assert_eq!(
        plan,
        Ok(GeneratePlan::Run {
            steps: vec![
                KeyStep::Remove { name: "id_rsa".to_string() },
                KeyStep::Generate {
                    algorithm: "rsa".to_string(),
                    name: "id_rsa".to_string(),
                    passphrase: "pw".to_string(),
                },
            ],
        })
    );
}

#[test]
fn generate_refuses_a_path_as_name() {
    let dir = KeyDirectory::empty();
    for bad in ["", "../escape", "a/b", "/etc/passwd", ".", ".."] {
        let plan = generate_keys_with_filename(&dir, "rsa", "pw", bad, false);
        assert_eq!(
            plan,
            Err(Error::InvalidName("Key name is not a plain file name".to_string()))
        );
    }
}

#[test]
fn generation_outcome_created() {
    assert_eq!(generation_outcome(ToolReport::Succeeded), Ok(1));
    assert_eq!(CREATED, 1);
}

#[test]
fn generation_outcome_carries_quoted_diagnostic() {
    let r = generation_outcome(ToolReport::Failed { diagnostic: "unknown key type foo\n".to_string() });
    assert_eq!(
        r,
        Err(Error::IoFailure("Error generating keys: \"unknown key type foo\\n\"".to_string()))
    );
}

#[test]
fn generation_outcome_not_started() {
    let r = generation_outcome(ToolReport::NotStarted { reason: "No such file or directory".to_string() });
    assert_eq!(
        r,
        Err(Error::IoFailure("Error generating keys: No such file or directory".to_string()))
    );
}

#[test]
fn removal_failure_text() {
    assert_eq!(
        removal_failure("Permission denied"),
        Error::IoFailure("Error removing existing file: Permission denied".to_string())
    );
}

#[test]
fn delete_removes_both_halves() {
    let mut dir = directory(&["id_rsa", "id_rsa.pub", "other", "other.pub"]);
    let steps = delete_ssh_key(&dir, "id_rsa").unwrap();
    assert_eq!(
        steps,
        vec![
            KeyStep::Remove { name: "id_rsa".to_string() },
            KeyStep::Remove { name: "id_rsa.pub".to_string() },
        ]
    );
    perform(&mut dir, &steps);
    assert_eq!(list_ssh_keys(&dir), names(&["other"]));
    assert_eq!(dir.file_names(), names(&["other", "other.pub"]));
}

#[test]
fn delete_without_sibling_removes_private_only() {
    let mut dir = directory(&["lonely", "x"]);
    let steps = delete_ssh_key(&dir, "lonely").unwrap();
    assert_eq!(steps, vec![KeyStep::Remove { name: "lonely".to_string() }]);
    perform(&mut dir, &steps);
    assert_eq!(dir.file_names(), names(&["x"]));
}

#[test]
fn delete_absent_key_is_not_found() {
    let dir = directory(&["id_rsa.pub"]);
    assert_eq!(
        delete_ssh_key(&dir, "id_rsa"),
        Err(Error::NotFound("Private key file does not exist".to_string()))
    );
    assert_eq!(dir.file_names(), names(&["id_rsa.pub"]));
}

#[test]
fn delete_outcome_values() {
    assert_eq!(delete_outcome(None), Ok(()));
    assert_eq!(
        delete_outcome(Some("busy".to_string())),
        Err(Error::IoFailure("busy".to_string()))
    );
}

#[test]
fn rename_moves_both_halves() {
    let mut dir = directory(&["old", "old.pub", "other"]);
    let steps = rename_ssh_key(&dir, "old", "new").unwrap();
    assert_eq!(
        steps,
        vec![
            KeyStep::Rename { from: "old".to_string(), to: "new".to_string() },
            KeyStep::Rename { from: "old.pub".to_string(), to: "new.pub".to_string() },
        ]
    );
    perform(&mut dir, &steps);
    let listed = list_ssh_keys(&dir);
    assert!(listed.contains(&"new".to_string()));
    assert!(!listed.contains(&"old".to_string()));
    assert!(dir.has_file("new.pub"));
    assert!(!dir.has_file("old.pub"));
    assert_eq!(dir.file_names(), names(&["other", "new", "new.pub"]));
}

#[test]
fn rename_without_sibling_moves_private_only() {
    let mut dir = directory(&["old"]);
    let steps = rename_ssh_key(&dir, "old", "new").unwrap();
    assert_eq!(steps, vec![KeyStep::Rename { from: "old".to_string(), to: "new".to_string() }]);
    perform(&mut dir, &steps);
    assert_eq!(dir.file_names(), names(&["new"]));
    assert_eq!(list_ssh_keys(&dir), Vec::<String>::new());
}

#[test]
fn rename_absent_key_is_not_found() {
    let dir = directory(&["other"]);
    assert_eq!(
        rename_ssh_key(&dir, "old", "new"),
        Err(Error::NotFound("Old private key file does not exist".to_string()))
    );
}

#[test]
fn rename_absent_key_is_not_found_whatever_the_new_name() {
    let dir = directory(&["old.pub", "new", "new.pub"]);
    for new in ["../new", "", ".", "..", "a/b", "new", "fresh"] {
        assert_eq!(
            rename_ssh_key(&dir, "old", new),
            Err(Error::NotFound("Old private key file does not exist".to_string()))
        );
    }
    assert_eq!(dir.file_names(), names(&["old.pub", "new", "new.pub"]));
}

#[test]
fn rename_refuses_a_path_as_new_name() {
    let dir = directory(&["old", "old.pub"]);
    assert_eq!(
        rename_ssh_key(&dir, "old", "../new"),
        Err(Error::InvalidName("New key name is not a plain file name".to_string()))
    );
}

#[test]
fn rename_onto_existing_name_replaces_it() {
    let mut dir = directory(&["a", "a.pub", "b", "b.pub"]);
    let steps = rename_ssh_key(&dir, "a", "b").unwrap();
    perform(&mut dir, &steps);
    assert_eq!(dir.file_names(), names(&["b", "b.pub"]));
}

#[test]
fn rename_outcome_tells_partial_from_total_failure() {
    assert_eq!(rename_outcome(2, None), Ok(()));
    assert_eq!(rename_outcome(0, None), Ok(()));
    assert_eq!(
        rename_outcome(0, Some("denied".to_string())),
        Err(Error::IoFailure("denied".to_string()))
    );
    assert_eq!(
        rename_outcome(1, Some("denied".to_string())),
        Err(Error::PartialRename("denied".to_string()))
    );
}

#[test]
fn apply_rename_of_absent_file_changes_nothing() {
    let mut dir = directory(&["x", "y"]);
    dir.apply(&KeyStep::Rename { from: "nope".to_string(), to: "z".to_string() });
    assert_eq!(dir.file_names(), names(&["x", "y"]));
}

#[test]
fn apply_generate_keeps_existing_names_single() {
    let mut dir = directory(&["k.pub"]);
    dir.apply(&KeyStep::Generate {
        algorithm: "rsa".to_string(),
        name: "k".to_string(),
        passphrase: String::new(),
    });
    assert_eq!(dir.file_names(), names(&["k.pub", "k"]));
    assert_eq!(list_ssh_keys(&dir), names(&["k"]));
}

#[test]
fn keygen_arguments_in_order() {
    assert_eq!(
        keygen_arguments("ed25519", "/home/u/.ssh/work", "pw"),
        names(&["-t", "ed25519", "-f", "/home/u/.ssh/work", "-N", "pw"])
    );
}

#[test]
fn generate_keys_uses_default_path() {
    assert_eq!(
        generate_keys("alice", "rsa", ""),
        names(&["-t", "rsa", "-f", "/home/alice/.ssh/id_rsa", "-N", ""])
    );
}

#[test]
fn check_ssh_keys_gives_full_paths() {
    let dir = directory(&["id_rsa", "config"]);
    assert_eq!(
        check_ssh_keys("/home/u/.ssh", &dir),
        names(&["/home/u/.ssh/id_rsa", "/home/u/.ssh/config"])
    );
    assert_eq!(check_ssh_keys("/", &dir), names(&["/id_rsa", "/config"]));
    assert_eq!(check_ssh_keys("", &dir), names(&["id_rsa", "config"]));
    assert_eq!(check_ssh_keys("/x", &KeyDirectory::empty()), Vec::<String>::new());
}

fn failed(text: &str) -> StepResult {
    StepResult::Failed { text: text.to_string() }
}

#[test]
fn next_step_goes_in_order_and_stops_at_a_failure() {
    let dir = directory(&["old", "old.pub"]);
    let steps = rename_ssh_key(&dir, "old", "new").unwrap();
    assert_eq!(next_step(&steps, 0, &StepResult::Done), Some(0));
    assert_eq!(next_step(&steps, 1, &StepResult::Done), Some(1));
    assert_eq!(next_step(&steps, 2, &StepResult::Done), None);
    assert_eq!(next_step(&steps, 1, &failed("denied")), None);
    assert_eq!(next_step(&steps, 0, &failed("denied")), None);
    assert_eq!(
        next_step(&steps, 1, &StepResult::Generated { report: ToolReport::Succeeded }),
        Some(1)
    );
    assert_eq!(
        next_step(
            &steps,
            1,
            &StepResult::Generated { report: ToolReport::NotStarted { reason: "x".to_string() } }
        ),
        None
    );
    assert_eq!(next_step(&Vec::new(), 0, &StepResult::Done), None);
}

#[test]
fn delete_result_values() {
    assert_eq!(delete_result(StepResult::Done), Ok(()));
    assert_eq!(delete_result(failed("busy")), Err(Error::IoFailure("busy".to_string())));
}

#[test]
fn rename_result_tells_partial_from_total_failure() {
    assert_eq!(rename_result(2, StepResult::Done), Ok(()));
    assert_eq!(rename_result(1, StepResult::Done), Ok(()));
    assert_eq!(rename_result(1, failed("denied")), Err(Error::IoFailure("denied".to_string())));
    assert_eq!(rename_result(0, failed("denied")), Err(Error::IoFailure("denied".to_string())));
    assert_eq!(
        rename_result(2, failed("denied")),
        Err(Error::PartialRename("denied".to_string()))
    );
}

#[test]
fn generate_outcome_status_codes() {
    let run = GeneratePlan::Run { steps: Vec::new() };
    assert_eq!(generate_outcome(&GeneratePlan::AlreadyExists, StepResult::Done), Ok(-1));
    assert_eq!(generate_outcome(&GeneratePlan::AlreadyExists, failed("x")), Ok(-1));
    assert_eq!(
        generate_outcome(&run, StepResult::Generated { report: ToolReport::Succeeded }),
        Ok(1)
    );
    assert_eq!(
        generate_outcome(&run, failed("Permission denied")),
        Err(Error::IoFailure("Error removing existing file: Permission denied".to_string()))
    );
    assert_eq!(
        generate_outcome(
            &run,
            StepResult::Generated { report: ToolReport::Failed { diagnostic: "bad".to_string() } }
        ),
        Err(Error::IoFailure("Error generating keys: \"bad\"".to_string()))
    );
    assert_eq!(
        generate_outcome(&run, StepResult::Done),
        Err(Error::IoFailure("Error generating keys: the generator was not run".to_string()))
    );
}

#[test]
fn generation_error_text() {
    assert_eq!(
        generation_error("no disk"),
        Error::IoFailure("Error generating keys: no disk".to_string())
    );
}
