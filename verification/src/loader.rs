//! Discovery of the configured networks: one per entry of the multibeacon
//! directory, in the order the directory was read, all or nothing.
//!
//! The caller reads the directory and hands over what it found; every
//! decision about it is taken here.

use vstd::prelude::*;
use vstd::string::*;

use crate::error::{Error, ErrorView, IoOperation, KeyPart};
use crate::keys::{decode_outcome, KeyPair, KeyPairView};
use crate::paths::{beacon_dir, beacon_path, multibeacon_dir, multibeacon_path};

verus! {

/// What was found at one entry of the multibeacon directory. A read that
/// failed carries the cause as text.
#[derive(Debug)]
pub struct EntryScan {
    /// The entry's file name, or `None` where it is not valid text.
    pub name: Option<String>,
    /// Whether the entry is a directory.
    pub is_dir: Result<bool, String>,
    /// The contents of `key/priv.key` beneath the entry.
    pub private_key: Result<Vec<u8>, String>,
    /// The contents of `key/pub.key` beneath the entry.
    pub public_key: Result<Vec<u8>, String>,
}

/// One step of the directory listing: an entry, or the cause of its failure.
pub type EntryRead = Result<EntryScan, String>;

/// The listing of the multibeacon directory, or why it could not be opened.
pub type DirScan = Result<Vec<EntryRead>, String>;

/// A loaded network: a beacon's identity with its keypair.
#[derive(Clone, Debug, PartialEq, Eq)]
pub struct Network {
    id: String,
    keypair: KeyPair,
}

/// The mathematical content of a [`Network`].
pub struct NetworkView {
    pub id: Seq<char>,
    pub keypair: KeyPairView,
}

impl View for Network {
    type V = NetworkView;

    closed spec fn view(&self) -> NetworkView {
        NetworkView { id: self.id@, keypair: self.keypair@ }
    }
}

impl Network {
    /// The keypair is structurally valid.
    pub closed spec fn wf(&self) -> bool {
        self.keypair.wf()
    }

    /// The beacon's identity.
    pub fn id(&self) -> (r: &str)
        ensures
            r@ == self@.id,
    {
        self.id.as_str()
    }

    /// The beacon's keypair.
    pub fn keypair(&self) -> (r: &KeyPair)
        ensures
            r@ == self@.keypair,
            self.wf() ==> r.wf(),
    {
        &self.keypair
    }
}

/// The views of a sequence of networks, in order.
pub open spec fn network_views(networks: Seq<Network>) -> Seq<NetworkView> {
    networks.map_values(|n: Network| n@)
}

/// Whether the key files beneath an entry are looked at: those of a
/// directory whose name is valid text, and no others.
pub open spec fn wants_key_files(name: Option<String>, is_dir: Result<bool, String>) -> bool {
    name is Some && is_dir == Ok::<bool, String>(true)
}

/// What the key files of the entry named `name` give. The entry must be a
/// directory. Then both key files must have been read, the private one
/// named first where both are missing. Only then are the two contents
/// decoded, the private one judged first.
pub open spec fn keypair_outcome(folder: Seq<char>, name: Seq<char>, entry: EntryScan) -> Result<
    KeyPairView,
    ErrorView,
> {
    match entry.is_dir {
        Err(cause) => Err(
            ErrorView::IoError {
                operation: IoOperation::FileType,
                path: beacon_dir(folder, name),
                cause: cause@,
            },
        ),
        Ok(false) => Err(ErrorView::NotADirectory),
        Ok(true) => match entry.private_key {
            Err(cause) => Err(ErrorView::KeyReadError { part: KeyPart::Private, cause: cause@ }),
            Ok(secret) => match entry.public_key {
                Err(cause) => Err(ErrorView::KeyReadError { part: KeyPart::Public, cause: cause@ }),
                Ok(public) => decode_outcome(secret@, public@),
            },
        },
    }
}

/// What one step of the listing gives: a network named after the entry, or
/// the first check that the entry fails.
pub open spec fn entry_outcome(folder: Seq<char>, read: EntryRead) -> Result<
    NetworkView,
    ErrorView,
> {
    match read {
        Err(cause) => Err(
            ErrorView::IoError {
                operation: IoOperation::ReadEntry,
                path: multibeacon_dir(folder),
                cause: cause@,
            },
        ),
        Ok(entry) => match entry.name {
            None => Err(ErrorView::InvalidIdentity),
            Some(name) => match keypair_outcome(folder, name@, entry) {
                Err(e) => Err(e),
                Ok(keypair) => Ok(NetworkView { id: name@, keypair }),
            },
        },
    }
}

/// The name of the entry that one step of the listing found, where it found
/// one and the name is valid text.
pub open spec fn entry_name(read: EntryRead) -> Option<Seq<char>> {
    match read {
        Ok(entry) => match entry.name {
            Some(name) => Some(name@),
            None => None,
        },
        Err(_) => None,
    }
}

/// Entry `i` fails with `e`, and every entry before it loads.
pub open spec fn first_failure_at(
    folder: Seq<char>,
    entries: Seq<EntryRead>,
    i: int,
    e: ErrorView,
) -> bool {
    &&& 0 <= i < entries.len()
    &&& entry_outcome(folder, entries[i]) == Err::<NetworkView, ErrorView>(e)
    &&& forall|j: int| 0 <= j < i ==> (#[trigger] entry_outcome(folder, entries[j])).is_ok()
}

/// Every entry loads, and `networks` holds what they give, in order.
pub open spec fn loads_all(
    folder: Seq<char>,
    entries: Seq<EntryRead>,
    networks: Seq<NetworkView>,
) -> bool {
    &&& networks.len() == entries.len()
    &&& forall|i: int|
        0 <= i < entries.len() ==> #[trigger] entry_outcome(folder, entries[i]) == Ok::<
            NetworkView,
            ErrorView,
        >(networks[i])
}

/// Whether `got` is the result of loading `scan` under `folder`: the
/// networks of all entries in order, or the error of the first entry that
/// fails, or `ConfigPathNotFound` where the directory could not be opened.
pub open spec fn is_load_outcome(
    folder: Seq<char>,
    scan: DirScan,
    got: Result<Seq<NetworkView>, ErrorView>,
) -> bool {
    match scan {
        Err(cause) => got == Err::<Seq<NetworkView>, ErrorView>(
            ErrorView::ConfigPathNotFound { path: multibeacon_dir(folder), cause: cause@ },
        ),
        Ok(entries) => match got {
            Ok(networks) => loads_all(folder, entries@, networks),
            Err(e) => exists|i: int| #[trigger] first_failure_at(folder, entries@, i, e),
        },
    }
}

/// The mathematical content of a load's result.
pub open spec fn load_result_view(r: Result<Vec<Network>, Error>) -> Result<
    Seq<NetworkView>,
    ErrorView,
> {
    match r {
        Ok(networks) => Ok(network_views(networks@)),
        Err(e) => Err(e@),
    }
}

/// Tells whether the key files beneath an entry with this name and type
/// are to be read at all.
pub fn reads_key_files(name: &Option<String>, is_dir: &Result<bool, String>) -> (r: bool)
    ensures
        r == wants_key_files(*name, *is_dir),
{
    match (name, is_dir) {
        (Some(_), Ok(true)) => true,
        _ => false,
    }
}

/// Loads the keypair beneath the entry named `name`. The entry must be a
/// directory and both key files must have been read; a file that was not
/// is reported before any content is judged. Then both contents are
/// decoded.
pub fn load_keypair(folder: &str, name: &str, entry: &EntryScan) -> (r: Result<KeyPair, Error>)
    ensures
        match keypair_outcome(folder@, name@, *entry) {
            Ok(pair) => r matches Ok(k) && k@ == pair && k.wf(),
            Err(e) => r matches Err(x) && x@ == e,
        },
{
    match &entry.is_dir {
        Err(cause) => {
            return Err(
                Error::IoError {
                    operation: IoOperation::FileType,
                    path: beacon_path(folder, name),
                    cause: cause.clone(),
                },
            );
        },
        Ok(is_dir) => {
            if !*is_dir {
                return Err(Error::NotADirectory);
            }
        },
    }
    let secret = match &entry.private_key {
        Err(cause) => {
            return Err(Error::KeyReadError { part: KeyPart::Private, cause: cause.clone() });
        },
        Ok(bytes) => bytes,
    };
    let public = match &entry.public_key {
        Err(cause) => {
            return Err(Error::KeyReadError { part: KeyPart::Public, cause: cause.clone() });
        },
        Ok(bytes) => bytes,
    };
    KeyPair::decode(secret.as_slice(), public.as_slice())
}

/// Loads the network of one step of the listing: the entry's file name is
/// its identity.
pub fn load_network(folder: &str, read: &EntryRead) -> (r: Result<Network, Error>)
    ensures
        match entry_outcome(folder@, *read) {
            Ok(network) => r matches Ok(n) && n@ == network && n.wf(),
            Err(e) => r matches Err(x) && x@ == e,
        },
{
    match read {
        Err(cause) => Err(
            Error::IoError {
                operation: IoOperation::ReadEntry,
                path: multibeacon_path(folder),
                cause: cause.clone(),
            },
        ),
        Ok(entry) => match &entry.name {
            None => Err(Error::InvalidIdentity),
            Some(name) => match load_keypair(folder, name.as_str(), entry) {
                Err(e) => Err(e),
                Ok(keypair) => Ok(Network { id: name.clone(), keypair }),
            },
        },
    }
}

/// Loads every network of the multibeacon directory under `folder`, in
/// the order of the listing. The first entry that fails ends the load with
/// its error: no network is returned unless all are.
pub fn load_networks(folder: &str, scan: &DirScan) -> (r: Result<Vec<Network>, Error>)
    ensures
        is_load_outcome(folder@, *scan, load_result_view(r)),
        r matches Ok(networks) ==> forall|i: int|
            0 <= i < networks@.len() ==> (#[trigger] networks@[i]).wf(),
{
    let entries = match scan {
        Err(cause) => {
            return Err(
                Error::ConfigPathNotFound {
                    path: multibeacon_path(folder),
                    cause: cause.clone(),
                },
            );
        },
        Ok(entries) => entries,
    };
    let mut networks: Vec<Network> = Vec::new();
    let mut i: usize = 0;
    while i < entries.len()
        invariant
            *scan == Ok::<Vec<EntryRead>, String>(*entries),
            i <= entries@.len(),
            networks@.len() == i,
            forall|j: int|
                0 <= j < i ==> #[trigger] entry_outcome(folder@, entries@[j]) == Ok::<
                    NetworkView,
                    ErrorView,
                >(networks@[j]@),
            forall|j: int| 0 <= j < i ==> (#[trigger] networks@[j]).wf(),
        decreases entries@.len() - i,
    {
        match load_network(folder, &entries[i]) {
            Err(e) => {
                proof {
                    let listing: DirScan = Ok(*entries);
                    assert(listing matches Ok(es) && es@ == entries@);
                    assert(first_failure_at(folder@, entries@, i as int, e@));
                }
                return Err(e);
            },
            Ok(network) => {
                networks.push(network);
            },
        }
        i += 1;
    }
    assert(loads_all(folder@, entries@, network_views(networks@)));
    Ok(networks)
}

/// Where the key files of an entry are not to be read, what stands in
/// their place changes nothing: two entries with the same name and type
/// give the same outcome.
pub proof fn lemma_unread_key_files_do_not_matter(folder: Seq<char>, a: EntryScan, b: EntryScan)
    requires
        a.name == b.name,
        a.is_dir == b.is_dir,
        !wants_key_files(a.name, a.is_dir),
    ensures
        entry_outcome(folder, Ok(a)) == entry_outcome(folder, Ok(b)),
{
}

/// Where every entry loads, the load succeeds with exactly one network per
/// entry, named after it, in the order of the listing.
pub proof fn lemma_load_complete(
    folder: Seq<char>,
    entries: Vec<EntryRead>,
    got: Result<Seq<NetworkView>, ErrorView>,
)
    requires
        is_load_outcome(folder, Ok(entries), got),
        forall|i: int|
            0 <= i < entries@.len() ==> (#[trigger] entry_outcome(folder, entries@[i])).is_ok(),
    ensures
        got matches Ok(networks) && networks.len() == entries@.len() && forall|i: int|
            0 <= i < entries@.len() ==> entry_name(#[trigger] entries@[i]) == Some(networks[i].id),
{
    match got {
        Err(e) => {
            let i = choose|i: int| first_failure_at(folder, entries@, i, e);
            assert(entry_outcome(folder, entries@[i]).is_ok());
        },
        Ok(networks) => {
            assert forall|i: int| 0 <= i < entries@.len() implies entry_name(
                #[trigger] entries@[i],
            ) == Some(networks[i].id) by {
                assert(entry_outcome(folder, entries@[i]) == Ok::<NetworkView, ErrorView>(
                    networks[i],
                ));
            }
        },
    }
}

/// Entries with distinct names load as networks with distinct identities:
/// a successful load repeats no identity.
pub proof fn lemma_load_no_duplicates(
    folder: Seq<char>,
    entries: Vec<EntryRead>,
    networks: Seq<NetworkView>,
    i: int,
    j: int,
)
    requires
        is_load_outcome(folder, Ok(entries), Ok(networks)),
        0 <= i < j < entries@.len(),
        entry_name(entries@[i]) != entry_name(entries@[j]),
    ensures
        networks[i].id != networks[j].id,
{
    assert(entry_outcome(folder, entries@[i]) == Ok::<NetworkView, ErrorView>(networks[i]));
    assert(entry_outcome(folder, entries@[j]) == Ok::<NetworkView, ErrorView>(networks[j]));
}

/// One entry that fails makes the whole load fail, with the error of the
/// first failing entry: the load never returns a part of the networks.
pub proof fn lemma_load_fails_fast(
    folder: Seq<char>,
    entries: Vec<EntryRead>,
    got: Result<Seq<NetworkView>, ErrorView>,
    k: int,
)
    requires
        is_load_outcome(folder, Ok(entries), got),
        0 <= k < entries@.len(),
        entry_outcome(folder, entries@[k]).is_err(),
    ensures
        got matches Err(e) && exists|i: int| i <= k && first_failure_at(folder, entries@, i, e),
{
    match got {
        Ok(networks) => {
            assert(entry_outcome(folder, entries@[k]) == Ok::<NetworkView, ErrorView>(
                networks[k],
            ));
        },
        Err(e) => {
            let i = choose|i: int| first_failure_at(folder, entries@, i, e);
            if i > k {
                assert(entry_outcome(folder, entries@[k]).is_ok());
            }
            assert(i <= k && first_failure_at(folder, entries@, i, e));
        },
    }
}

} // verus!
