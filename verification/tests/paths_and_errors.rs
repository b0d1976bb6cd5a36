use drand_daemon::paths::{
    beacon_path, key_dir_path, key_file_path, key_mode, multibeacon_path, PRIVATE_KEY_MODE,
    PUBLIC_KEY_MODE,
};
use drand_daemon::{Error, IoOperation, KeyPart};

#[test]
fn multibeacon_path_appends_to_the_folder() {
    assert_eq!(multibeacon_path("/var/drand"), "/var/drand/multibeacon");
}

#[test]
fn paths_are_composed_literally() {
    assert_eq!(multibeacon_path("~/.drand"), "~/.drand/multibeacon");
    assert_eq!(multibeacon_path(""), "/multibeacon");
    assert_eq!(beacon_path("/d/", "x"), "/d//multibeacon/x");
}

#[test]
fn key_paths_follow_the_layout() {
    assert_eq!(beacon_path("/d", "default"), "/d/multibeacon/default");
    assert_eq!(key_dir_path("/d", "default"), "/d/multibeacon/default/key");
    assert_eq!(
        key_file_path("/d", "default", KeyPart::Private),
        "/d/multibeacon/default/key/priv.key"
    );
    assert_eq!(
        key_file_path("/d", "default", KeyPart::Public),
        "/d/multibeacon/default/key/pub.key"
    );
}

#[test]
fn key_modes_are_fixed() {
    assert_eq!(key_mode(KeyPart::Private), 0o600);
    assert_eq!(key_mode(KeyPart::Public), 0o740);
    assert_eq!(PRIVATE_KEY_MODE, 384);
    assert_eq!(PUBLIC_KEY_MODE, 480);
    assert_eq!(key_mode(KeyPart::Private) & 0o077, 0);
}

#[test]
fn message_of_key_already_exists() {
    let e = Error::KeyAlreadyExists { part: KeyPart::Private, path: "/d/priv.key".to_string() };
    assert_eq!(
        e.message(),
        "private key already exists at path /d/priv.key - delete it first before regenerating"
    );
    let e = Error::KeyAlreadyExists { part: KeyPart::Public, path: "/d/pub.key".to_string() };
    assert_eq!(
        e.message(),
        "public key already exists at path /d/pub.key - delete it first before regenerating"
    );
}

#[test]
fn message_of_invalid_key_encoding() {
    assert_eq!(
        Error::InvalidKeyEncoding { part: KeyPart::Private }.message(),
        "private key invalid"
    );
    assert_eq!(Error::InvalidKeyEncoding { part: KeyPart::Public }.message(), "public key invalid");
}

#[test]
fn message_of_io_error_names_path_and_cause() {
    let e = Error::IoError {
        operation: IoOperation::CreateDir,
        path: "/d/multibeacon/x/key".to_string(),
        cause: "permission denied".to_string(),
    };
    assert_eq!(e.message(), "couldn't create folder /d/multibeacon/x/key: permission denied");
    let e = Error::IoError {
        operation: IoOperation::Write,
        path: "/p".to_string(),
        cause: "disk full".to_string(),
    };
    assert_eq!(e.message(), "error writing /p: disk full");
    let e = Error::IoError {
        operation: IoOperation::SetPermissions,
        path: "/p".to_string(),
        cause: "c".to_string(),
    };
    assert_eq!(e.message(), "error setting file permissions for /p: c");
    let e = Error::IoError {
        operation: IoOperation::CreateFile,
        path: "/p".to_string(),
        cause: "c".to_string(),
    };
    assert_eq!(e.message(), "error creating file /p: c");
    let e = Error::IoError {
        operation: IoOperation::ReadEntry,
        path: "/p".to_string(),
        cause: "c".to_string(),
    };
    assert_eq!(e.message(), "error opening key directory /p: c");
    let e = Error::IoError {
        operation: IoOperation::FileType,
        path: "/p".to_string(),
        cause: "c".to_string(),
    };
    assert_eq!(e.message(), "couldn't fetch the key dir file type of /p: c");
}

#[test]
fn message_of_config_path_not_found() {
    let e = Error::ConfigPathNotFound {
        path: "/d/multibeacon".to_string(),
        cause: "No such file or directory".to_string(),
    };
    assert_eq!(
        e.message(),
        "could not open config path /d/multibeacon: No such file or directory - note: paths must be absolute"
    );
}

#[test]
fn messages_of_the_entry_errors() {
    assert_eq!(Error::InvalidIdentity.message(), "filename invalid");
    assert_eq!(Error::NotADirectory.message(), "the keypair directory was not a directory");
    let e = Error::KeyReadError { part: KeyPart::Private, cause: "gone".to_string() };
    assert_eq!(e.message(), "could not read private key: gone");
    let e = Error::KeyReadError { part: KeyPart::Public, cause: "gone".to_string() };
    assert_eq!(e.message(), "could not read public key: gone");
}

#[test]
fn duplicate_keeps_the_content() {
    let e = Error::IoError {
        operation: IoOperation::Write,
        path: "/p".to_string(),
        cause: "c".to_string(),
    };
    assert_eq!(e.duplicate(), e);
    assert_eq!(Error::NotADirectory.duplicate(), Error::NotADirectory);
}
