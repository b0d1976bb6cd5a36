//! Key provisioning and network discovery for a multi-beacon daemon.
//!
//! The library decides; the program around it touches the disk. Key material
//! is validated by `ed25519_dalek`, every path of the on-disk layout is
//! composed here, and the provisioning and loading rules are stated as
//! contracts over plain values.

pub mod error;
pub mod paths;
pub mod keys;
pub mod loader;
pub mod provision;
pub mod disk;
pub mod daemon;

pub use crate::error::{Error, IoOperation, KeyPart};
pub use crate::keys::KeyPair;
pub use crate::daemon::{Daemon, DaemonOptions};
pub use crate::loader::{DirScan, EntryRead, EntryScan, Network};
pub use crate::provision::{generate_keypair, Action, Event, Provisioner, Stage};
