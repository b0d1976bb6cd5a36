use drand_daemon::{
    generate_keypair, Action, Error, Event, IoOperation, KeyPair, KeyPart, Provisioner, Stage,
};

fn failed(operation: IoOperation, cause: &str) -> Event {
    Event::Failed { operation, cause: cause.to_string() }
}

#[test]
fn provisioning_begins_with_the_key_directory() {
    let p = generate_keypair("/d", "default");
    assert_eq!(p.stage(), Stage::CreatingDir);
    assert_eq!(p.action(), Action::CreateDirAll { path: "/d/multibeacon/default/key".to_string() });
}

#[test]
fn provisioning_checks_both_files_then_writes_both() {
    let pair = KeyPair::generate();
    let (secret, public) = pair.encode();
    let mut p = Provisioner::new("/d", "b", pair);
    assert_eq!(
        p.step(&Event::Completed),
        Action::CheckExists { path: "/d/multibeacon/b/key/priv.key".to_string() }
    );
    assert_eq!(
        p.step(&Event::Exists(false)),
        Action::CheckExists { path: "/d/multibeacon/b/key/pub.key".to_string() }
    );
    assert_eq!(
        p.step(&Event::Exists(false)),
        Action::WriteFile {
            path: "/d/multibeacon/b/key/priv.key".to_string(),
            mode: 0o600,
            contents: secret,
        }
    );
    assert_eq!(
        p.step(&Event::Completed),
        Action::WriteFile {
            path: "/d/multibeacon/b/key/pub.key".to_string(),
            mode: 0o740,
            contents: public,
        }
    );
    assert_eq!(p.step(&Event::Completed), Action::Finish(Ok(())));
    assert_eq!(p.stage(), Stage::Done);
    assert_eq!(p.step(&Event::Completed), Action::Finish(Ok(())));
}

#[test]
fn existing_private_key_stops_the_provisioning() {
    let mut p = generate_keypair("/d", "b");
    p.step(&Event::Completed);
    let expected = Action::Finish(Err(Error::KeyAlreadyExists {
        part: KeyPart::Private,
        path: "/d/multibeacon/b/key/priv.key".to_string(),
    }));
    assert_eq!(p.step(&Event::Exists(true)), expected);
    assert_eq!(p.stage(), Stage::Failed);
    assert_eq!(p.step(&Event::Exists(false)), expected);
    assert_eq!(p.step(&Event::Completed), expected);
    assert_eq!(p.action(), expected);
}

#[test]
fn existing_public_key_stops_the_provisioning() {
    let mut p = generate_keypair("/d", "b");
    p.step(&Event::Completed);
    p.step(&Event::Exists(false));
    let expected = Action::Finish(Err(Error::KeyAlreadyExists {
        part: KeyPart::Public,
        path: "/d/multibeacon/b/key/pub.key".to_string(),
    }));
    assert_eq!(p.step(&Event::Exists(true)), expected);
    assert_eq!(p.step(&Event::Completed), expected);
}

#[test]
fn second_provisioning_of_the_same_beacon_writes_nothing() {
    let mut files: Vec<(String, Vec<u8>)> = vec![];
    for round in 0..2 {
        let mut p = generate_keypair("/d", "b");
        let mut action = p.action();
        let outcome = loop {
            action = match action {
                Action::CreateDirAll { .. } => p.step(&Event::Completed),
                Action::CheckExists { path } => {
                    p.step(&Event::Exists(files.iter().any(|f| f.0 == path)))
                }
                Action::WriteFile { path, contents, .. } => {
                    files.push((path, contents));
                    p.step(&Event::Completed)
                }
                Action::Finish(result) => break result,
            };
        };
        if round == 0 {
            assert_eq!(outcome, Ok(()));
        } else {
            assert!(matches!(
                outcome,
                Err(Error::KeyAlreadyExists { part: KeyPart::Private, .. })
            ));
        }
        assert_eq!(files.len(), 2);
    }
}

#[test]
fn failure_to_create_the_directory_is_an_io_error_with_its_path() {
    let mut p = generate_keypair("/d", "b");
    assert_eq!(
        p.step(&failed(IoOperation::CreateDir, "permission denied")),
        Action::Finish(Err(Error::IoError {
            operation: IoOperation::CreateDir,
            path: "/d/multibeacon/b/key".to_string(),
            cause: "permission denied".to_string(),
        }))
    );
}

#[test]
fn failure_to_write_a_key_file_is_an_io_error_with_its_path() {
    let mut p = generate_keypair("/d", "b");
    p.step(&Event::Completed);
    p.step(&Event::Exists(false));
    p.step(&Event::Exists(false));
    p.step(&Event::Completed);
    assert_eq!(p.stage(), Stage::WritingPublic);
    assert_eq!(
        p.step(&failed(IoOperation::SetPermissions, "read-only")),
        Action::Finish(Err(Error::IoError {
            operation: IoOperation::SetPermissions,
            path: "/d/multibeacon/b/key/pub.key".to_string(),
            cause: "read-only".to_string(),
        }))
    );
}

#[test]
fn an_event_that_answers_nothing_changes_nothing() {
    let mut p = generate_keypair("/d", "b");
    let first = p.action();
    assert_eq!(p.step(&Event::Exists(true)), first);
    assert_eq!(p.stage(), Stage::CreatingDir);
    p.step(&Event::Completed);
    let second = p.action();
    assert_eq!(p.step(&Event::Completed), second);
    assert_eq!(p.stage(), Stage::CheckingPrivate);
}
