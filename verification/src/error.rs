//! The failures that provisioning and loading can report.

use vstd::prelude::*;
use vstd::string::*;

verus! {

/// Which half of a keypair a failure concerns.
#[derive(Clone, Copy, Debug, PartialEq, Eq, Structural)]
pub enum KeyPart {
    Private,
    Public,
}

/// The filesystem operation that failed.
#[derive(Clone, Copy, Debug, PartialEq, Eq, Structural)]
pub enum IoOperation {
    CreateDir,
    CreateFile,
    SetPermissions,
    Write,
    ReadEntry,
    FileType,
}

/// A failure of the key lifecycle or of network discovery.
#[derive(Clone, Debug, PartialEq, Eq)]
pub enum Error {
    /// A key file is already present where a fresh one would be written.
    KeyAlreadyExists { part: KeyPart, path: String },
    /// Key bytes of the wrong length, or a public key that is no curve point.
    InvalidKeyEncoding { part: KeyPart },
    /// A filesystem operation failed on `path`.
    IoError { operation: IoOperation, path: String, cause: String },
    /// The multibeacon directory could not be opened.
    ConfigPathNotFound { path: String, cause: String },
    /// A directory entry's name is not valid text.
    InvalidIdentity,
    /// An entry of the multibeacon directory is not a directory.
    NotADirectory,
    /// A key file is missing or unreadable.
    KeyReadError { part: KeyPart, cause: String },
}

/// The mathematical content of an [`Error`]: strings as character sequences.
pub enum ErrorView {
    KeyAlreadyExists { part: KeyPart, path: Seq<char> },
    InvalidKeyEncoding { part: KeyPart },
    IoError { operation: IoOperation, path: Seq<char>, cause: Seq<char> },
    ConfigPathNotFound { path: Seq<char>, cause: Seq<char> },
    InvalidIdentity,
    NotADirectory,
    KeyReadError { part: KeyPart, cause: Seq<char> },
}

impl View for Error {
    type V = ErrorView;

    open spec fn view(&self) -> ErrorView {
        match *self {
            Error::KeyAlreadyExists { part, path } => ErrorView::KeyAlreadyExists {
                part,
                path: path@,
            },
            Error::InvalidKeyEncoding { part } => ErrorView::InvalidKeyEncoding { part },
            Error::IoError { operation, path, cause } => ErrorView::IoError {
                operation,
                path: path@,
                cause: cause@,
            },
            Error::ConfigPathNotFound { path, cause } => ErrorView::ConfigPathNotFound {
                path: path@,
                cause: cause@,
            },
            Error::InvalidIdentity => ErrorView::InvalidIdentity,
            Error::NotADirectory => ErrorView::NotADirectory,
            Error::KeyReadError { part, cause } => ErrorView::KeyReadError { part, cause: cause@ },
        }
    }
}

/// What the user is told about a key half.
pub open spec fn part_noun(part: KeyPart) -> Seq<char> {
    match part {
        KeyPart::Private => "private"@,
        KeyPart::Public => "public"@,
    }
}

/// What the user is told about a failed filesystem operation.
pub open spec fn operation_phrase(operation: IoOperation) -> Seq<char> {
    match operation {
        IoOperation::CreateDir => "couldn't create folder "@,
        IoOperation::CreateFile => "error creating file "@,
        IoOperation::SetPermissions => "error setting file permissions for "@,
        IoOperation::Write => "error writing "@,
        IoOperation::ReadEntry => "error opening key directory "@,
        IoOperation::FileType => "couldn't fetch the key dir file type of "@,
    }
}

impl ErrorView {
    /// The message shown to the user, character for character.
    pub open spec fn text(self) -> Seq<char> {
        match self {
            ErrorView::KeyAlreadyExists { part, path } => part_noun(part)
                + " key already exists at path "@ + path
                + " - delete it first before regenerating"@,
            ErrorView::InvalidKeyEncoding { part } => part_noun(part) + " key invalid"@,
            ErrorView::IoError { operation, path, cause } => operation_phrase(operation) + path
                + ": "@ + cause,
            ErrorView::ConfigPathNotFound { path, cause } => "could not open config path "@ + path
                + ": "@ + cause + " - note: paths must be absolute"@,
            ErrorView::InvalidIdentity => "filename invalid"@,
            ErrorView::NotADirectory => "the keypair directory was not a directory"@,
            ErrorView::KeyReadError { part, cause } => "could not read "@ + part_noun(part)
                + " key: "@ + cause,
        }
    }
}

fn part_noun_string(part: KeyPart) -> (r: String)
    ensures
        r@ == part_noun(part),
{
    match part {
        KeyPart::Private => String::from_str("private"),
        KeyPart::Public => String::from_str("public"),
    }
}

fn operation_phrase_string(operation: IoOperation) -> (r: String)
    ensures
        r@ == operation_phrase(operation),
{
    match operation {
        IoOperation::CreateDir => String::from_str("couldn't create folder "),
        IoOperation::CreateFile => String::from_str("error creating file "),
        IoOperation::SetPermissions => String::from_str("error setting file permissions for "),
        IoOperation::Write => String::from_str("error writing "),
        IoOperation::ReadEntry => String::from_str("error opening key directory "),
        IoOperation::FileType => String::from_str("couldn't fetch the key dir file type of "),
    }
}

impl Error {
    /// A second value with the same content.
    pub fn duplicate(&self) -> (r: Error)
        ensures
            r@ == self@,
    {
        match self {
            Error::KeyAlreadyExists { part, path } => Error::KeyAlreadyExists {
                part: *part,
                path: path.clone(),
            },
            Error::InvalidKeyEncoding { part } => Error::InvalidKeyEncoding { part: *part },
            Error::IoError { operation, path, cause } => Error::IoError {
                operation: *operation,
                path: path.clone(),
                cause: cause.clone(),
            },
            Error::ConfigPathNotFound { path, cause } => Error::ConfigPathNotFound {
                path: path.clone(),
                cause: cause.clone(),
            },
            Error::InvalidIdentity => Error::InvalidIdentity,
            Error::NotADirectory => Error::NotADirectory,
            Error::KeyReadError { part, cause } => Error::KeyReadError {
                part: *part,
                cause: cause.clone(),
            },
        }
    }

    /// Renders the failure for the user, with the path and cause it carries.
    pub fn message(&self) -> (r: String)
        ensures
            r@ == self@.text(),
    {
        match self {
            Error::KeyAlreadyExists { part, path } => {
                let mut s = part_noun_string(*part);
                s.append(" key already exists at path ");
                s.append(path.as_str());
                s.append(" - delete it first before regenerating");
                s
            },
            Error::InvalidKeyEncoding { part } => {
                let mut s = part_noun_string(*part);
                s.append(" key invalid");
                s
            },
            Error::IoError { operation, path, cause } => {
                let mut s = operation_phrase_string(*operation);
                s.append(path.as_str());
                s.append(": ");
                s.append(cause.as_str());
                s
            },
            Error::ConfigPathNotFound { path, cause } => {
                let mut s = String::from_str("could not open config path ");
                s.append(path.as_str());
                s.append(": ");
                s.append(cause.as_str());
                s.append(" - note: paths must be absolute");
                s
            },
            Error::InvalidIdentity => String::from_str("filename invalid"),
            Error::NotADirectory => String::from_str("the keypair directory was not a directory"),
            Error::KeyReadError { part, cause } => {
                let mut s = String::from_str("could not read ");
                let noun = part_noun_string(*part);
                s.append(noun.as_str());
                s.append(" key: ");
                s.append(cause.as_str());
                s
            },
        }
    }
}

} // verus!
