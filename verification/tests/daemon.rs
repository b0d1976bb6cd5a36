use drand_daemon::{
    generate_keypair, Action, Daemon, DaemonOptions, DirScan, EntryScan, Error, Event, KeyPair,
    KeyPart,
};

fn options(folder: &str) -> DaemonOptions {
    DaemonOptions { folder: folder.to_string() }
}

#[test]
fn new_daemon_is_empty_and_not_started() {
    let daemon = Daemon::new();
    assert!(!daemon.is_started());
    assert!(daemon.networks().is_empty());
}

#[test]
fn options_name_the_directory_to_list() {
    assert_eq!(options("/home/u/.drand").multibeacon_path(), "/home/u/.drand/multibeacon");
}

#[test]
fn start_without_multibeacon_directory_fails_with_config_path_not_found() {
    let mut daemon = Daemon::new();
    let scan: DirScan = Err("No such file or directory (os error 2)".to_string());
    let result = daemon.start(options("/fresh"), &scan).err();
    assert_eq!(
        result,
        Some(Error::ConfigPathNotFound {
            path: "/fresh/multibeacon".to_string(),
            cause: "No such file or directory (os error 2)".to_string(),
        })
    );
    assert!(!daemon.is_started());
    assert!(daemon.networks().is_empty());
}

#[test]
fn start_on_an_empty_directory_starts_with_no_network() {
    let mut daemon = Daemon::new();
    assert!(daemon.start(options("/d"), &Ok(vec![])).is_ok());
    assert!(daemon.is_started());
    assert!(daemon.networks().is_empty());
}

#[test]
fn generated_keypair_is_loaded_by_start() {
    let mut provisioner = generate_keypair("/fresh", "default");
    let mut files: Vec<(String, u32, Vec<u8>)> = vec![];
    let mut action = provisioner.action();
    let mut steps = 0;
    loop {
        steps += 1;
        assert!(steps < 10);
        action = match action {
            Action::CreateDirAll { path } => {
                assert_eq!(path, "/fresh/multibeacon/default/key");
                provisioner.step(&Event::Completed)
            }
            Action::CheckExists { path } => {
                let found = files.iter().any(|f| f.0 == path);
                provisioner.step(&Event::Exists(found))
            }
            Action::WriteFile { path, mode, contents } => {
                files.push((path, mode, contents));
                provisioner.step(&Event::Completed)
            }
            Action::Finish(result) => {
                assert_eq!(result, Ok(()));
                break;
            }
        };
    }
    assert_eq!(files.len(), 2);
    assert_eq!(files[0].0, "/fresh/multibeacon/default/key/priv.key");
    assert_eq!(files[0].1, 0o600);
    assert_eq!(files[0].2.len(), 32);
    assert_eq!(files[1].0, "/fresh/multibeacon/default/key/pub.key");
    assert_eq!(files[1].1, 0o740);
    assert_eq!(files[1].2.len(), 32);

    let entry = EntryScan {
        name: Some("default".to_string()),
        is_dir: Ok(true),
        private_key: Ok(files[0].2.clone()),
        public_key: Ok(files[1].2.clone()),
    };
    let mut daemon = Daemon::new();
    let started = daemon.start(options("/fresh"), &Ok(vec![Ok(entry)])).ok().unwrap();
    assert_eq!(started.networks().len(), 1);
    assert!(daemon.is_started());
    assert_eq!(daemon.networks().len(), 1);
    assert_eq!(daemon.networks()[0].id(), "default");
    assert_eq!(daemon.networks()[0].keypair().key_bytes(KeyPart::Private), &files[0].2[..]);
    assert_eq!(daemon.networks()[0].keypair().key_bytes(KeyPart::Public), &files[1].2[..]);
    assert_eq!(daemon.networks()[0].keypair(), provisioner.keypair());
}

#[test]
fn failed_start_leaves_a_fresh_registry_empty() {
    let pair = KeyPair::generate();
    let (secret, public) = pair.encode();
    let good = EntryScan {
        name: Some("good".to_string()),
        is_dir: Ok(true),
        private_key: Ok(secret.clone()),
        public_key: Ok(public.clone()),
    };
    let truncated = EntryScan {
        name: Some("bad".to_string()),
        is_dir: Ok(true),
        private_key: Ok(secret),
        public_key: Ok(public[..20].to_vec()),
    };
    let mut daemon = Daemon::new();
    let result = daemon.start(options("/d"), &Ok(vec![Ok(good), Ok(truncated)])).err();
    assert_eq!(result, Some(Error::InvalidKeyEncoding { part: KeyPart::Public }));
    assert!(!daemon.is_started());
    assert!(daemon.networks().is_empty());
}

#[test]
fn failed_start_keeps_what_an_earlier_start_loaded() {
    let pair = KeyPair::generate();
    let (secret, public) = pair.encode();
    let good = EntryScan {
        name: Some("good".to_string()),
        is_dir: Ok(true),
        private_key: Ok(secret),
        public_key: Ok(public),
    };
    let mut daemon = Daemon::new();
    assert!(daemon.start(options("/d"), &Ok(vec![Ok(good)])).is_ok());
    let result = daemon.start(options("/d"), &Err("gone".to_string())).err();
    assert!(matches!(result, Some(Error::ConfigPathNotFound { .. })));
    assert!(daemon.is_started());
    assert_eq!(daemon.networks().len(), 1);
    assert_eq!(daemon.networks()[0].id(), "good");
}

#[test]
fn start_replaces_the_registry_as_a_whole() {
    let pair = KeyPair::generate();
    let entry = |name: &str| {
        let (secret, public) = pair.encode();
        Ok(EntryScan {
            name: Some(name.to_string()),
            is_dir: Ok(true),
            private_key: Ok(secret),
            public_key: Ok(public),
        })
    };
    let mut daemon = Daemon::new();
    assert!(daemon.start(options("/d"), &Ok(vec![entry("a"), entry("b")])).is_ok());
    assert_eq!(daemon.networks().len(), 2);
    assert!(daemon.start(options("/d"), &Ok(vec![entry("c")])).is_ok());
    assert_eq!(daemon.networks().len(), 1);
    assert_eq!(daemon.networks()[0].id(), "c");
}
