//! The registry of loaded networks that a running daemon holds.

use vstd::prelude::*;
use vstd::string::*;

use crate::error::{Error, ErrorView};
use crate::loader::{
    entry_outcome, is_load_outcome, load_networks, network_views, DirScan, EntryRead, Network,
    NetworkView,
};
use crate::paths::{multibeacon_dir, multibeacon_path};

verus! {

/// How a daemon is configured: the base folder, used as it is written.
pub struct DaemonOptions {
    pub folder: String,
}

impl DaemonOptions {
    /// The directory that `start` expects a listing of.
    pub fn multibeacon_path(&self) -> (r: String)
        ensures
            r@ == multibeacon_dir(self.folder@),
    {
        multibeacon_path(self.folder.as_str())
    }
}

/// The registry: empty until a start succeeds, then the loaded networks in
/// the order of the listing.
pub struct Daemon {
    beacons: Vec<Network>,
    started: bool,
}

/// The mathematical content of a [`Daemon`].
pub struct DaemonView {
    pub started: bool,
    pub networks: Seq<NetworkView>,
}

impl View for Daemon {
    type V = DaemonView;

    closed spec fn view(&self) -> DaemonView {
        DaemonView { started: self.started, networks: network_views(self.beacons@) }
    }
}

/// The registry after a start whose load gave `outcome`: replaced as a
/// whole on success, untouched on failure.
pub open spec fn registry_after(
    before: DaemonView,
    outcome: Result<Seq<NetworkView>, ErrorView>,
) -> DaemonView {
    match outcome {
        Ok(networks) => DaemonView { started: true, networks },
        Err(_) => before,
    }
}

impl Daemon {
    /// A registry that was never started holds no network, and every
    /// network it holds has a valid keypair.
    pub closed spec fn wf(&self) -> bool {
        &&& !self.started ==> self.beacons@.len() == 0
        &&& forall|i: int| 0 <= i < self.beacons@.len() ==> (#[trigger] self.beacons@[i]).wf()
    }

    /// An empty registry that was not started.
    pub fn new() -> (r: Daemon)
        ensures
            r.wf(),
            r@ == (DaemonView { started: false, networks: Seq::empty() }),
    {
        let r = Daemon { beacons: Vec::new(), started: false };
        assert(r@.networks =~= Seq::empty());
        r
    }

    /// Starts the daemon on the listing of the multibeacon directory under
    /// `options.folder`. On success the registry holds exactly the loaded
    /// networks and is handed back; on failure the error is handed on and
    /// the registry is as it was.
    pub fn start(&mut self, options: DaemonOptions, scan: &DirScan) -> (r: Result<&mut Self, Error>)
        requires
            old(self).wf(),
        ensures
            exists|outcome: Result<Seq<NetworkView>, ErrorView>|
                {
                    &&& #[trigger] is_load_outcome(options.folder@, *scan, outcome)
                    &&& match r {
                        Ok(daemon) => outcome is Ok && (*daemon)@ == registry_after(
                            old(self)@,
                            outcome,
                        ),
                        Err(e) => outcome == Err::<Seq<NetworkView>, ErrorView>(e@),
                    }
                },
            match r {
                Ok(daemon) => daemon.wf() && *final(self) == *final(daemon),
                Err(_) => *final(self) == *old(self),
            },
    {
        match load_networks(options.folder.as_str(), scan) {
            Err(e) => {
                proof {
                    let outcome: Result<Seq<NetworkView>, ErrorView> = Err(e@);
                    assert(is_load_outcome(options.folder@, *scan, outcome));
                }
                Err(e)
            },
            Ok(networks) => {
                proof {
                    let outcome: Result<Seq<NetworkView>, ErrorView> = Ok(
                        network_views(networks@),
                    );
                    assert(is_load_outcome(options.folder@, *scan, outcome));
                }
                self.beacons = networks;
                self.started = true;
                Ok(self)
            },
        }
    }

    /// Whether a start has succeeded.
    pub fn is_started(&self) -> (r: bool)
        ensures
            r == self@.started,
    {
        self.started
    }

    /// The loaded networks, in the order of the listing.
    pub fn networks(&self) -> (r: &[Network])
        ensures
            network_views(r@) == self@.networks,
    {
        self.beacons.as_slice()
    }

    /// A start on a listing with an entry that fails reports an error and
    /// leaves the registry as it was: a registry that was never started
    /// stays empty.
    pub proof fn lemma_failed_start_changes_nothing(
        before: DaemonView,
        folder: Seq<char>,
        entries: Vec<EntryRead>,
        outcome: Result<Seq<NetworkView>, ErrorView>,
        k: int,
    )
        requires
            is_load_outcome(folder, Ok(entries), outcome),
            0 <= k < entries@.len(),
            entry_outcome(folder, entries@[k]).is_err(),
        ensures
            outcome is Err,
            registry_after(before, outcome) == before,
    {
        crate::loader::lemma_load_fails_fast(folder, entries, outcome, k);
    }

    /// A start on a directory that could not be opened reports
    /// `ConfigPathNotFound` with the path that was tried, and leaves the
    /// registry as it was.
    pub proof fn lemma_missing_directory_fails_start(
        before: DaemonView,
        folder: Seq<char>,
        cause: String,
        outcome: Result<Seq<NetworkView>, ErrorView>,
    )
        requires
            is_load_outcome(folder, Err(cause), outcome),
        ensures
            outcome == Err::<Seq<NetworkView>, ErrorView>(
                ErrorView::ConfigPathNotFound { path: multibeacon_dir(folder), cause: cause@ },
            ),
            registry_after(before, outcome) == before,
    {
    }
}

} // verus!
