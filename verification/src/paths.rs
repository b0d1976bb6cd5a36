//! The on-disk layout: `<folder>/multibeacon/<beacon>/key/{priv.key,pub.key}`.
//!
//! Paths are composed literally. Nothing is expanded or normalised, so a
//! folder is used exactly as it is given.

use vstd::prelude::*;
use vstd::string::*;

use crate::error::KeyPart;

verus! {

/// Mode of a private key file: read and write for the owner, nothing else.
pub const PRIVATE_KEY_MODE: u32 = 0o600;

/// Mode of a public key file: all for the owner, read for the group.
pub const PUBLIC_KEY_MODE: u32 = 0o740;

/// The directory that holds one subdirectory per beacon.
pub open spec fn multibeacon_dir(folder: Seq<char>) -> Seq<char> {
    folder + "/multibeacon"@
}

/// The directory of one beacon.
pub open spec fn beacon_dir(folder: Seq<char>, beacon_id: Seq<char>) -> Seq<char> {
    multibeacon_dir(folder) + "/"@ + beacon_id
}

/// The directory that holds a beacon's two key files.
pub open spec fn key_dir(folder: Seq<char>, beacon_id: Seq<char>) -> Seq<char> {
    beacon_dir(folder, beacon_id) + "/key"@
}

/// The name of a key file inside the key directory.
pub open spec fn key_file_name(part: KeyPart) -> Seq<char> {
    match part {
        KeyPart::Private => "priv.key"@,
        KeyPart::Public => "pub.key"@,
    }
}

/// The full path of one of a beacon's key files.
pub open spec fn key_file(folder: Seq<char>, beacon_id: Seq<char>, part: KeyPart) -> Seq<char> {
    key_dir(folder, beacon_id) + "/"@ + key_file_name(part)
}

/// The permission bits that a key file is given.
pub open spec fn key_file_mode(part: KeyPart) -> u32 {
    match part {
        KeyPart::Private => PRIVATE_KEY_MODE,
        KeyPart::Public => PUBLIC_KEY_MODE,
    }
}

/// Composes the path of the multibeacon directory under `folder`.
pub fn multibeacon_path(folder: &str) -> (r: String)
    ensures
        r@ == multibeacon_dir(folder@),
{
    let mut s = String::from_str(folder);
    s.append("/multibeacon");
    s
}

/// Composes the path of the directory of beacon `beacon_id`.
pub fn beacon_path(folder: &str, beacon_id: &str) -> (r: String)
    ensures
        r@ == beacon_dir(folder@, beacon_id@),
{
    let mut s = multibeacon_path(folder);
    s.append("/");
    s.append(beacon_id);
    s
}

/// Composes the path of the key directory of beacon `beacon_id`.
pub fn key_dir_path(folder: &str, beacon_id: &str) -> (r: String)
    ensures
        r@ == key_dir(folder@, beacon_id@),
{
    let mut s = beacon_path(folder, beacon_id);
    s.append("/key");
    s
}

/// Composes the path of one key file of beacon `beacon_id`.
pub fn key_file_path(folder: &str, beacon_id: &str, part: KeyPart) -> (r: String)
    ensures
        r@ == key_file(folder@, beacon_id@, part),
{
    let mut s = key_dir_path(folder, beacon_id);
    s.append("/");
    match part {
        KeyPart::Private => s.append("priv.key"),
        KeyPart::Public => s.append("pub.key"),
    }
    s
}

/// The permission bits for one key file.
pub fn key_mode(part: KeyPart) -> (r: u32)
    ensures
        r == key_file_mode(part),
        part == KeyPart::Private ==> r == 0o600,
        part == KeyPart::Public ==> r == 0o740,
{
    match part {
        KeyPart::Private => PRIVATE_KEY_MODE,
        KeyPart::Public => PUBLIC_KEY_MODE,
    }
}

} // verus!
