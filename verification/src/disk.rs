//! What provisioning does to a disk, when its caller carries out every
//! action without fault and nothing else touches the files meanwhile.
//!
//! The disk is a model: files by path, each with its permission bits and
//! its bytes. The laws here tie the decisions of the state machine to the
//! files that result from them.

use vstd::prelude::*;

use crate::error::{ErrorView, KeyPart};
use crate::paths::{key_file, key_file_mode};
use crate::provision::{key_half, ActionView, Event, ProvisionerView, Stage};

verus! {

/// A file of the model: permission bits and bytes.
pub struct FileView {
    pub mode: u32,
    pub contents: Seq<u8>,
}

/// The disk of the model: the directories that exist, and the files by
/// path.
pub struct DiskView {
    pub dirs: Set<Seq<char>>,
    pub files: Map<Seq<char>, FileView>,
}

/// The number of actions after which every provisioning has ended: one
/// directory, two checks, two writes.
pub open spec fn full_run() -> nat {
    5
}

impl DiskView {
    /// The disk after `action` was carried out without fault.
    pub open spec fn after(self, action: ActionView) -> DiskView {
        match action {
            ActionView::CreateDirAll { path } => DiskView { dirs: self.dirs.insert(path), ..self },
            ActionView::WriteFile { path, mode, contents } => DiskView {
                files: self.files.insert(path, FileView { mode, contents }),
                ..self
            },
            _ => self,
        }
    }

    /// What the caller reports after it carried out `action` without fault.
    pub open spec fn answer(self, action: ActionView) -> Event {
        match action {
            ActionView::CheckExists { path } => Event::Exists(self.files.contains_key(path)),
            _ => Event::Completed,
        }
    }

    /// Whether the key file of `part` is on the disk.
    pub open spec fn has_key(self, folder: Seq<char>, beacon_id: Seq<char>, part: KeyPart) -> bool {
        self.files.contains_key(key_file(folder, beacon_id, part))
    }

    /// The disk with the key file of `part` written for `v`.
    pub open spec fn with_key(self, v: ProvisionerView, part: KeyPart) -> DiskView {
        DiskView {
            files: self.files.insert(
                key_file(v.folder, v.beacon_id, part),
                FileView { mode: key_file_mode(part), contents: key_half(v.keypair, part) },
            ),
            ..self
        }
    }
}

/// The machine and the disk after `steps` actions, each carried out
/// without fault and answered truthfully.
pub open spec fn carried_out(v: ProvisionerView, disk: DiskView, steps: nat) -> (
    ProvisionerView,
    DiskView,
)
    decreases steps,
{
    if steps == 0 {
        (v, disk)
    } else {
        carried_out(v.next(disk.answer(v.action())), disk.after(v.action()), (steps - 1) as nat)
    }
}

/// The two key files of a beacon have different paths.
pub proof fn lemma_key_files_differ(folder: Seq<char>, beacon_id: Seq<char>)
    ensures
        key_file(folder, beacon_id, KeyPart::Private) != key_file(
            folder,
            beacon_id,
            KeyPart::Public,
        ),
{
    reveal_strlit("priv.key");
    reveal_strlit("pub.key");
    assert(key_file(folder, beacon_id, KeyPart::Private).len() != key_file(
        folder,
        beacon_id,
        KeyPart::Public,
    ).len());
}

/// On a disk that holds neither key file, a provisioning ends well and
/// leaves exactly two new files: the private key with read and write for
/// the owner alone, the public key with all for the owner and read for the
/// group, each holding the bytes of its half.
pub proof fn lemma_provisioning_writes_both_keys(v: ProvisionerView, disk: DiskView)
    requires
        v.stage == Stage::CreatingDir,
        !disk.has_key(v.folder, v.beacon_id, KeyPart::Private),
        !disk.has_key(v.folder, v.beacon_id, KeyPart::Public),
    ensures
        carried_out(v, disk, full_run()).0.action() == ActionView::Finish(Ok(())),
        carried_out(v, disk, full_run()).1.files == disk.with_key(v, KeyPart::Private).with_key(
            v,
            KeyPart::Public,
        ).files,
        carried_out(v, disk, full_run()).1.files[key_file(
            v.folder,
            v.beacon_id,
            KeyPart::Private,
        )] == (FileView { mode: 0o600, contents: v.keypair.secret }),
        carried_out(v, disk, full_run()).1.files[key_file(v.folder, v.beacon_id, KeyPart::Public)]
            == (FileView { mode: 0o740, contents: v.keypair.public }),
{
    lemma_key_files_differ(v.folder, v.beacon_id);
    reveal_with_fuel(carried_out, 6);
}

/// On a disk that holds one of the key files already, a provisioning ends
/// with `KeyAlreadyExists`, for the private key where that is present, and
/// no file of the disk is changed or added.
pub proof fn lemma_provisioning_spares_existing_keys(v: ProvisionerView, disk: DiskView)
    requires
        v.stage == Stage::CreatingDir,
        disk.has_key(v.folder, v.beacon_id, KeyPart::Private) || disk.has_key(
            v.folder,
            v.beacon_id,
            KeyPart::Public,
        ),
    ensures
        carried_out(v, disk, full_run()).1.files == disk.files,
        carried_out(v, disk, full_run()).0.action() == ActionView::Finish(
            Err(
                v.in_the_way(
                    if disk.has_key(v.folder, v.beacon_id, KeyPart::Private) {
                        KeyPart::Private
                    } else {
                        KeyPart::Public
                    },
                ),
            ),
        ),
{
    reveal_with_fuel(carried_out, 6);
}

/// Provisioning the same beacon under the same folder a second time fails
/// with `KeyAlreadyExists` and leaves the files of the first keypair as
/// they were, whatever keypair the second one brought.
pub proof fn lemma_second_provisioning_changes_no_file(
    first: ProvisionerView,
    second: ProvisionerView,
    disk: DiskView,
)
    requires
        first.stage == Stage::CreatingDir,
        second.stage == Stage::CreatingDir,
        second.folder == first.folder,
        second.beacon_id == first.beacon_id,
        !disk.has_key(first.folder, first.beacon_id, KeyPart::Private),
        !disk.has_key(first.folder, first.beacon_id, KeyPart::Public),
    ensures
        ({
            let once = carried_out(first, disk, full_run()).1;
            let twice = carried_out(second, once, full_run());
            &&& twice.1.files == once.files
            &&& twice.0.action() == ActionView::Finish(
                Err(
                    ErrorView::KeyAlreadyExists {
                        part: KeyPart::Private,
                        path: key_file(first.folder, first.beacon_id, KeyPart::Private),
                    },
                ),
            )
        }),
{
    lemma_provisioning_writes_both_keys(first, disk);
    let once = carried_out(first, disk, full_run()).1;
    assert(once.has_key(second.folder, second.beacon_id, KeyPart::Private));
    lemma_provisioning_spares_existing_keys(second, once);
}

} // verus!
