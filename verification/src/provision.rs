//! Provisioning of a beacon's keypair on disk, as a state machine.
//!
//! The machine decides what is done next; its caller does it and reports
//! what happened. Both key files are looked for before anything is written,
//! the private one first, so an existing identity is never overwritten in
//! part.

use vstd::prelude::*;
use vstd::string::*;

use crate::error::{Error, ErrorView, IoOperation, KeyPart};
use crate::keys::{KeyPair, KeyPairView};
use crate::paths::{key_dir, key_dir_path, key_file, key_file_mode, key_file_path, key_mode};

verus! {

/// Where a provisioning stands.
#[derive(Clone, Copy, Debug, PartialEq, Eq, Structural)]
pub enum Stage {
    /// The key directory and its parents are being created.
    CreatingDir,
    /// The private key file is being looked for.
    CheckingPrivate,
    /// The public key file is being looked for.
    CheckingPublic,
    /// The private key file is being written.
    WritingPrivate,
    /// The public key file is being written.
    WritingPublic,
    /// Both files are written.
    Done,
    /// The provisioning has failed.
    Failed,
}

/// What the caller reports after it carried out an action.
#[derive(Debug)]
pub enum Event {
    /// The action was carried out.
    Completed,
    /// The answer to `CheckExists`.
    Exists(bool),
    /// The action failed in `operation`, for `cause`.
    Failed { operation: IoOperation, cause: String },
}

/// What the caller is to do next.
#[derive(Debug, PartialEq, Eq)]
pub enum Action {
    /// Create the directory at `path` with all its missing parents.
    CreateDirAll { path: String },
    /// Report whether a file exists at `path`.
    CheckExists { path: String },
    /// Create the file at `path`, set its permission bits to `mode` at
    /// once, and write `contents` to it.
    WriteFile { path: String, mode: u32, contents: Vec<u8> },
    /// Stop: the provisioning has ended as given.
    Finish(Result<(), Error>),
}

/// The mathematical content of an [`Action`].
pub enum ActionView {
    CreateDirAll { path: Seq<char> },
    CheckExists { path: Seq<char> },
    WriteFile { path: Seq<char>, mode: u32, contents: Seq<u8> },
    Finish(Result<(), ErrorView>),
}

impl View for Action {
    type V = ActionView;

    open spec fn view(&self) -> ActionView {
        match *self {
            Action::CreateDirAll { path } => ActionView::CreateDirAll { path: path@ },
            Action::CheckExists { path } => ActionView::CheckExists { path: path@ },
            Action::WriteFile { path, mode, contents } => ActionView::WriteFile {
                path: path@,
                mode,
                contents: contents@,
            },
            Action::Finish(Ok(_)) => ActionView::Finish(Ok(())),
            Action::Finish(Err(e)) => ActionView::Finish(Err(e@)),
        }
    }
}

impl ActionView {
    /// Whether the action writes a file.
    pub open spec fn is_write(self) -> bool {
        self is WriteFile
    }
}

/// The mathematical content of a [`Provisioner`].
pub struct ProvisionerView {
    pub folder: Seq<char>,
    pub beacon_id: Seq<char>,
    pub keypair: KeyPairView,
    pub stage: Stage,
    pub failure: Option<ErrorView>,
}

/// The bytes of one half of a keypair.
pub open spec fn key_half(keypair: KeyPairView, part: KeyPart) -> Seq<u8> {
    match part {
        KeyPart::Private => keypair.secret,
        KeyPart::Public => keypair.public,
    }
}

impl ProvisionerView {
    /// The state in which a provisioning begins.
    pub open spec fn initial(
        folder: Seq<char>,
        beacon_id: Seq<char>,
        keypair: KeyPairView,
    ) -> ProvisionerView {
        ProvisionerView { folder, beacon_id, keypair, stage: Stage::CreatingDir, failure: None }
    }

    /// Exactly a failed provisioning holds an error.
    pub open spec fn wf(self) -> bool {
        self.failure is Some <==> self.stage == Stage::Failed
    }

    /// The path that the current stage works on.
    pub open spec fn current_path(self) -> Seq<char> {
        match self.stage {
            Stage::CheckingPrivate | Stage::WritingPrivate => key_file(
                self.folder,
                self.beacon_id,
                KeyPart::Private,
            ),
            Stage::CheckingPublic | Stage::WritingPublic => key_file(
                self.folder,
                self.beacon_id,
                KeyPart::Public,
            ),
            _ => key_dir(self.folder, self.beacon_id),
        }
    }

    /// The state in stage `stage`.
    pub open spec fn at(self, stage: Stage) -> ProvisionerView {
        ProvisionerView { stage, ..self }
    }

    /// The failed state, with its error.
    pub open spec fn failed(self, e: ErrorView) -> ProvisionerView {
        ProvisionerView { stage: Stage::Failed, failure: Some(e), ..self }
    }

    /// The file that an existence check found is in the way.
    pub open spec fn in_the_way(self, part: KeyPart) -> ErrorView {
        ErrorView::KeyAlreadyExists {
            part,
            path: key_file(self.folder, self.beacon_id, part),
        }
    }

    /// The state after `event`. An event that answers nothing the stage
    /// asked for changes nothing; a finished or failed provisioning stays
    /// as it is.
    pub open spec fn next(self, event: Event) -> ProvisionerView {
        match (self.stage, event) {
            (Stage::Done, _) | (Stage::Failed, _) => self,
            (_, Event::Failed { operation, cause }) => self.failed(
                ErrorView::IoError { operation, path: self.current_path(), cause: cause@ },
            ),
            (Stage::CreatingDir, Event::Completed) => self.at(Stage::CheckingPrivate),
            (Stage::CheckingPrivate, Event::Exists(true)) => self.failed(
                self.in_the_way(KeyPart::Private),
            ),
            (Stage::CheckingPrivate, Event::Exists(false)) => self.at(Stage::CheckingPublic),
            (Stage::CheckingPublic, Event::Exists(true)) => self.failed(
                self.in_the_way(KeyPart::Public),
            ),
            (Stage::CheckingPublic, Event::Exists(false)) => self.at(Stage::WritingPrivate),
            (Stage::WritingPrivate, Event::Completed) => self.at(Stage::WritingPublic),
            (Stage::WritingPublic, Event::Completed) => self.at(Stage::Done),
            _ => self,
        }
    }

    /// The writing of one key file: its path, its permission bits, its
    /// bytes.
    pub open spec fn write_of(self, part: KeyPart) -> ActionView {
        ActionView::WriteFile {
            path: key_file(self.folder, self.beacon_id, part),
            mode: key_file_mode(part),
            contents: key_half(self.keypair, part),
        }
    }

    /// What the caller is to do in this state. A failed provisioning ends
    /// with its error; of a state that is not well-formed nothing is said.
    pub open spec fn action(self) -> ActionView
        recommends
            self.wf(),
    {
        match self.stage {
            Stage::CreatingDir => ActionView::CreateDirAll {
                path: key_dir(self.folder, self.beacon_id),
            },
            Stage::CheckingPrivate => ActionView::CheckExists {
                path: key_file(self.folder, self.beacon_id, KeyPart::Private),
            },
            Stage::CheckingPublic => ActionView::CheckExists {
                path: key_file(self.folder, self.beacon_id, KeyPart::Public),
            },
            Stage::WritingPrivate => self.write_of(KeyPart::Private),
            Stage::WritingPublic => self.write_of(KeyPart::Public),
            Stage::Done => ActionView::Finish(Ok(())),
            Stage::Failed => match self.failure {
                Some(e) => ActionView::Finish(Err(e)),
                None => arbitrary(),
            },
        }
    }

    /// The state after all of `events`, in order.
    pub open spec fn run(self, events: Seq<Event>) -> ProvisionerView
        decreases events.len(),
    {
        if events.len() == 0 {
            self
        } else {
            self.run(events.drop_last()).next(events.last())
        }
    }

    /// Somewhere in `events` the file of `part` was looked for and reported
    /// absent.
    pub open spec fn found_absent(self, events: Seq<Event>, part: KeyPart) -> bool {
        exists|k: int|
            0 <= k < events.len() && #[trigger] self.asks_for(events.take(k), part) && events[k]
                == Event::Exists(false)
    }

    /// After `events` the machine is looking for the file of `part`.
    pub open spec fn asks_for(self, events: Seq<Event>, part: KeyPart) -> bool {
        self.run(events).stage == match part {
            KeyPart::Private => Stage::CheckingPrivate,
            KeyPart::Public => Stage::CheckingPublic,
        }
    }
}

/// How far a stage is along the way: no step ever goes back.
pub open spec fn stage_rank(stage: Stage) -> nat {
    match stage {
        Stage::CreatingDir => 0,
        Stage::CheckingPrivate => 1,
        Stage::CheckingPublic => 2,
        Stage::WritingPrivate => 3,
        Stage::WritingPublic => 4,
        Stage::Done => 5,
        Stage::Failed => 6,
    }
}

/// Whether a stage lies behind the existence check of `part`, on the way
/// that has not failed.
pub open spec fn is_past_check(stage: Stage, part: KeyPart) -> bool {
    stage != Stage::Failed && stage_rank(stage) >= match part {
        KeyPart::Private => 2nat,
        KeyPart::Public => 3nat,
    }
}

impl ProvisionerView {
    /// A step never goes back, never changes what is provisioned, keeps
    /// a well-formed state well-formed, and changes nothing once the
    /// provisioning has ended.
    pub proof fn lemma_next_advances(self, event: Event)
        ensures
            self.wf() ==> self.next(event).wf(),
            stage_rank(self.stage) <= stage_rank(self.next(event).stage),
            self.next(event).folder == self.folder,
            self.next(event).beacon_id == self.beacon_id,
            self.next(event).keypair == self.keypair,
            self.stage == Stage::Failed || self.stage == Stage::Done ==> self.next(event) == self,
    {
    }

    /// What holds of one step holds of a run, from each of its prefixes on.
    pub proof fn lemma_run_advances(self, events: Seq<Event>, n: int)
        requires
            0 <= n <= events.len(),
        ensures
            self.wf() ==> self.run(events).wf(),
            stage_rank(self.run(events.take(n)).stage) <= stage_rank(self.run(events).stage),
            self.run(events).folder == self.folder,
            self.run(events).beacon_id == self.beacon_id,
            self.run(events).keypair == self.keypair,
            self.run(events.take(n)).stage == Stage::Failed ==> self.run(events) == self.run(
                events.take(n),
            ),
        decreases events.len(),
    {
        if n == events.len() {
            assert(events.take(n) =~= events);
            if events.len() > 0 {
                self.lemma_run_advances(events.drop_last(), 0);
                self.run(events.drop_last()).lemma_next_advances(events.last());
            }
        } else {
            let front = events.drop_last();
            assert(front.take(n) =~= events.take(n));
            self.lemma_run_advances(front, n);
            self.run(front).lemma_next_advances(events.last());
        }
    }

    /// Every write is that of one of the two key files, with the bytes of
    /// that half and its permission bits: read and write for the owner
    /// alone on the private key, and all for the owner with read for the
    /// group on the public key.
    pub proof fn lemma_write_modes(self)
        requires
            self.wf(),
        ensures
            self.action().is_write() ==> self.action() == self.write_of(KeyPart::Private)
                || self.action() == self.write_of(KeyPart::Public),
            self.write_of(KeyPart::Private)->WriteFile_mode == 0o600,
            self.write_of(KeyPart::Public)->WriteFile_mode == 0o740,
    {
    }

    /// Once a key file was found to exist, nothing is ever written: no
    /// action of the run, before or after, is a write, and from then on
    /// the provisioning has ended with `KeyAlreadyExists` for that file.
    pub proof fn lemma_existing_key_is_never_overwritten(
        self,
        events: Seq<Event>,
        k: int,
        part: KeyPart,
        n: int,
    )
        requires
            0 <= k < events.len(),
            self.asks_for(events.take(k), part),
            events[k] == Event::Exists(true),
            0 <= n <= events.len(),
        ensures
            !self.run(events.take(n)).action().is_write(),
            n > k ==> self.run(events.take(n)).action() == ActionView::Finish(
                Err(self.in_the_way(part)),
            ),
    {
        let before = events.take(k);
        let after = events.take(k + 1);
        assert(after.drop_last() =~= before);
        assert(after.last() == events[k]);
        self.lemma_run_advances(before, 0);
        assert(self.run(after) == self.run(before).failed(self.in_the_way(part)));
        if n <= k {
            assert(before.take(n) =~= events.take(n));
            self.lemma_run_advances(before, n);
        } else {
            assert(events.take(n).take(k + 1) =~= after);
            self.lemma_run_advances(events.take(n), k + 1);
        }
    }

    /// A run that has come past the check of a key file holds the answer
    /// that the file was absent.
    pub proof fn lemma_past_check_was_absent(self, events: Seq<Event>, part: KeyPart)
        requires
            self.stage == Stage::CreatingDir,
            is_past_check(self.run(events).stage, part),
        ensures
            self.found_absent(events, part),
        decreases events.len(),
    {
        if events.len() > 0 {
            let front = events.drop_last();
            let last = events.len() - 1;
            assert(events.take(last) =~= front);
            if is_past_check(self.run(front).stage, part) {
                self.lemma_past_check_was_absent(front, part);
                let k = choose|k: int|
                    0 <= k < front.len() && #[trigger] self.asks_for(front.take(k), part)
                        && front[k] == Event::Exists(false);
                assert(events.take(k) =~= front.take(k));
                assert(self.asks_for(events.take(k), part) && events[k] == Event::Exists(false));
            } else {
                assert(self.asks_for(events.take(last), part));
                assert(events[last] == Event::Exists(false));
            }
        }
    }

    /// From the start, a key file is written only after both files were
    /// looked for and reported absent.
    pub proof fn lemma_writes_follow_both_checks(self, events: Seq<Event>)
        requires
            self.wf(),
            self.stage == Stage::CreatingDir,
            self.run(events).action().is_write(),
        ensures
            self.found_absent(events, KeyPart::Private),
            self.found_absent(events, KeyPart::Public),
    {
        self.lemma_run_advances(events, 0);
        self.lemma_past_check_was_absent(events, KeyPart::Private);
        self.lemma_past_check_was_absent(events, KeyPart::Public);
    }
}

/// The provisioning of one beacon's keypair under one folder.
pub struct Provisioner {
    folder: String,
    beacon_id: String,
    keypair: KeyPair,
    stage: Stage,
    failure: Option<Error>,
}

impl View for Provisioner {
    type V = ProvisionerView;

    closed spec fn view(&self) -> ProvisionerView {
        ProvisionerView {
            folder: self.folder@,
            beacon_id: self.beacon_id@,
            keypair: self.keypair@,
            stage: self.stage,
            failure: match self.failure {
                Some(e) => Some(e@),
                None => None,
            },
        }
    }
}

/// Begins the provisioning of a fresh keypair for `beacon_id` under
/// `folder`. The keypair comes from the operating system's random source;
/// both strings are used as they are written.
pub fn generate_keypair(folder: &str, beacon_id: &str) -> (r: Provisioner)
    ensures
        r.wf(),
        r@.folder == folder@,
        r@.beacon_id == beacon_id@,
        r@.keypair.is_matched(),
        r@.stage == Stage::CreatingDir,
        r@.failure.is_none(),
{
    Provisioner::new(folder, beacon_id, KeyPair::generate())
}

impl Provisioner {
    /// The keypair is valid, and exactly a failed provisioning has an
    /// error.
    pub closed spec fn wf(&self) -> bool {
        &&& self.keypair.wf()
        &&& self@.wf()
    }

    /// Begins the provisioning of `keypair` for `beacon_id` under `folder`.
    pub fn new(folder: &str, beacon_id: &str, keypair: KeyPair) -> (r: Provisioner)
        requires
            keypair.wf(),
        ensures
            r.wf(),
            r@ == ProvisionerView::initial(folder@, beacon_id@, keypair@),
    {
        Provisioner {
            folder: String::from_str(folder),
            beacon_id: String::from_str(beacon_id),
            keypair,
            stage: Stage::CreatingDir,
            failure: None,
        }
    }

    /// Where the provisioning stands.
    pub fn stage(&self) -> (r: Stage)
        ensures
            r == self@.stage,
    {
        self.stage
    }

    /// The keypair that is being provisioned.
    pub fn keypair(&self) -> (r: &KeyPair)
        ensures
            r@ == self@.keypair,
            self.wf() ==> r.wf(),
    {
        &self.keypair
    }

    fn path_of(&self, part: KeyPart) -> (r: String)
        ensures
            r@ == key_file(self@.folder, self@.beacon_id, part),
    {
        key_file_path(self.folder.as_str(), self.beacon_id.as_str(), part)
    }

    fn current_path(&self) -> (r: String)
        ensures
            r@ == self@.current_path(),
    {
        match self.stage {
            Stage::CheckingPrivate | Stage::WritingPrivate => self.path_of(KeyPart::Private),
            Stage::CheckingPublic | Stage::WritingPublic => self.path_of(KeyPart::Public),
            _ => key_dir_path(self.folder.as_str(), self.beacon_id.as_str()),
        }
    }

    fn write_of(&self, part: KeyPart) -> (r: Action)
        ensures
            r@ == self@.write_of(part),
    {
        let halves = self.keypair.encode();
        let contents = match part {
            KeyPart::Private => halves.0,
            KeyPart::Public => halves.1,
        };
        Action::WriteFile { path: self.path_of(part), mode: key_mode(part), contents }
    }

    /// What the caller is to do now.
    pub fn action(&self) -> (r: Action)
        requires
            self.wf(),
        ensures
            r@ == self@.action(),
    {
        match self.stage {
            Stage::CreatingDir => Action::CreateDirAll {
                path: key_dir_path(self.folder.as_str(), self.beacon_id.as_str()),
            },
            Stage::CheckingPrivate => Action::CheckExists { path: self.path_of(KeyPart::Private) },
            Stage::CheckingPublic => Action::CheckExists { path: self.path_of(KeyPart::Public) },
            Stage::WritingPrivate => self.write_of(KeyPart::Private),
            Stage::WritingPublic => self.write_of(KeyPart::Public),
            Stage::Done => Action::Finish(Ok(())),
            Stage::Failed => match &self.failure {
                Some(e) => Action::Finish(Err(e.duplicate())),
                None => unreached(),
            },
        }
    }

    /// Takes in what the caller reports and says what is to be done next.
    pub fn step(&mut self, event: &Event) -> (r: Action)
        requires
            old(self).wf(),
        ensures
            final(self).wf(),
            final(self)@ == old(self)@.next(*event),
            r@ == final(self)@.action(),
    {
        match self.stage {
            Stage::Done | Stage::Failed => {},
            _ => match event {
                Event::Failed { operation, cause } => {
                    let path = self.current_path();
                    self.fail(Error::IoError { operation: *operation, path, cause: cause.clone() });
                },
                Event::Completed => match self.stage {
                    Stage::CreatingDir => { self.stage = Stage::CheckingPrivate; },
                    Stage::WritingPrivate => { self.stage = Stage::WritingPublic; },
                    Stage::WritingPublic => { self.stage = Stage::Done; },
                    _ => {},
                },
                Event::Exists(found) => match self.stage {
                    Stage::CheckingPrivate => {
                        if *found {
                            let path = self.path_of(KeyPart::Private);
                            self.fail(Error::KeyAlreadyExists { part: KeyPart::Private, path });
                        } else {
                            self.stage = Stage::CheckingPublic;
                        }
                    },
                    Stage::CheckingPublic => {
                        if *found {
                            let path = self.path_of(KeyPart::Public);
                            self.fail(Error::KeyAlreadyExists { part: KeyPart::Public, path });
                        } else {
                            self.stage = Stage::WritingPrivate;
                        }
                    },
                    _ => {},
                },
            },
        }
        self.action()
    }

    fn fail(&mut self, e: Error)
        requires
            old(self).wf(),
        ensures
            final(self).wf(),
            final(self)@ == old(self)@.failed(e@),
    {
        self.stage = Stage::Failed;
        self.failure = Some(e);
    }
}

} // verus!
