//! Where an opening looks, and under which key.
//!
//! A [`Disk`] answers by what a request names: the directory, the place below
//! it, the record, and the key that it is unsealed with. The laws here say that
//! an opening names the right ones, so that what [`crate::machine`] says of a
//! machine holds of a disk.

use vstd::prelude::*;

use crate::identity::Identity;
use crate::machine::{Contents, Machine};
use crate::opened::Sealing;
use crate::opening::{OpenAnswer, OpenFailure, OpenStage, RecordsAnswer, RecordsStage};
use crate::records::{RecordAdoption, RecordReply, RecordStore};
use crate::roots::{Directory, EnvRoots, MoveFailure, RootReply, RootStage};
use crate::vault::Vault;

verus! {

/// A record as it is sealed.
pub struct Sealed<R> {
    /// The key that it was sealed under, and unseals with.
    pub under: Seq<u8>,
    /// The record.
    pub record: R,
}

/// The sealed records in one place.
pub struct Shelf<R, E> {
    /// The records, by their names.
    pub records: Map<Seq<char>, Sealed<R>>,
    /// The records that cannot be read with any key, by their names, and why.
    pub broken: Map<Seq<char>, E>,
    /// What is said of a record that was sealed under another key.
    pub sealed_otherwise: E,
    /// Whether records can be saved, or why not.
    pub saving: Result<(), E>,
    /// Whether records can be deleted, or why not.
    pub deleting: Result<(), E>,
}

impl<R, E> Shelf<R, E> {
    /// How the records fare under `key`: one that was sealed under another does
    /// not load.
    pub open spec fn under(self, key: Seq<u8>) -> RecordStore<R, E> {
        RecordStore {
            unreadable: Map::new(
                |name: Seq<char>|
                    self.broken.contains_key(name) || (self.records.contains_key(name)
                        && self.records[name].under != key),
                |name: Seq<char>|
                    if self.broken.contains_key(name) {
                        self.broken[name]
                    } else {
                        self.sealed_otherwise
                    },
            ),
            saving: self.saving,
            deleting: self.deleting,
            records: Map::new(
                |name: Seq<char>| self.records.contains_key(name),
                |name: Seq<char>| self.records[name].record,
            ),
        }
    }

    /// What is replied at `stage`, under `key`.
    pub open spec fn reply(
        self,
        stage: RecordsStage<R, E>,
        key: Seq<u8>,
        sealing: Sealing<R, E>,
    ) -> RecordsAnswer<R, E> {
        match stage {
            RecordsStage::Adopt { adoption } => {
                let name = crate::records::record_asked_about(adoption)->Some_0;
                RecordsAnswer::Record(
                    match adoption {
                        RecordAdoption::LoadCurrent => RecordReply::Loaded(
                            self.under(key).load(name),
                        ),
                        RecordAdoption::LoadLegacy => RecordReply::Loaded(
                            self.under(key).load(name),
                        ),
                        RecordAdoption::SaveCurrent { .. } => RecordReply::Written(self.saving),
                        RecordAdoption::DeleteLegacy => RecordReply::Written(self.deleting),
                        RecordAdoption::Finished { .. } => RecordReply::Written(Ok(())),
                    },
                )
            },
            RecordsStage::LoadIdentity { record } => RecordsAnswer::Identity(
                match (self.under(key).load(record), self.saving) {
                    (Err(error), _) => Err(error),
                    (Ok(Some(found)), _) => (sealing.key_in)(found),
                    (Ok(None), Ok(_)) => (sealing.key_in)(sealing.fresh),
                    (Ok(None), Err(error)) => Err(error),
                },
            ),
            RecordsStage::Finished { .. } => RecordsAnswer::Record(RecordReply::Written(Ok(()))),
        }
    }

    /// The records once what is asked at `stage` was done, under `key`.
    pub open spec fn after(
        self,
        stage: RecordsStage<R, E>,
        key: Seq<u8>,
        sealing: Sealing<R, E>,
    ) -> Shelf<R, E> {
        match stage {
            RecordsStage::Adopt { adoption } => {
                let name = crate::records::record_asked_about(adoption)->Some_0;
                match adoption {
                    RecordAdoption::SaveCurrent { record } => if self.saving is Ok {
                        self.with(name, Sealed { under: key, record })
                    } else {
                        self
                    },
                    RecordAdoption::DeleteLegacy => if self.deleting is Ok {
                        Shelf { records: self.records.remove(name), ..self }
                    } else {
                        self
                    },
                    _ => self,
                }
            },
            RecordsStage::LoadIdentity { record } => if self.under(key).load(record) == Ok::<
                Option<R>,
                E,
            >(None) && self.saving is Ok {
                self.with(record, Sealed { under: key, record: sealing.fresh })
            } else {
                self
            },
            RecordsStage::Finished { .. } => self,
        }
    }

    /// The records with `sealed` as the record `name`.
    pub open spec fn with(self, name: Seq<char>, sealed: Sealed<R>) -> Shelf<R, E> {
        Shelf { records: self.records.insert(name, sealed), ..self }
    }
}

/// A data directory.
#[verifier::reject_recursive_types(R)]
#[verifier::reject_recursive_types(E)]
pub struct Room<R, E> {
    /// The unlock root that is loaded or created in each place, where the
    /// platform has one, or why that fails.
    pub unlock_roots: spec_fn(Seq<char>) -> Result<Option<Seq<u8>>, E>,
    /// The sealed records, by the places they are in.
    pub shelves: Map<Seq<char>, Shelf<R, E>>,
    /// What is in every other place.
    pub empty: Shelf<R, E>,
}

impl<R, E> Room<R, E> {
    /// The records in the place `at`.
    pub open spec fn shelf(self, at: Seq<char>) -> Shelf<R, E> {
        if self.shelves.contains_key(at) {
            self.shelves[at]
        } else {
            self.empty
        }
    }

    /// The directory with `shelf` in the place `at`.
    pub open spec fn with_shelf(self, at: Seq<char>, shelf: Shelf<R, E>) -> Room<R, E> {
        Room { shelves: self.shelves.insert(at, shelf), ..self }
    }

    /// The directory as it is found by one who looks for the unlock root and
    /// for the records where they are kept, and unseals those with that root.
    pub open spec fn seen(self) -> Contents<R, E> {
        let unlocking = (self.unlock_roots)("personae/auto-unlock-root.json"@);
        let shelf = self.shelf("personae/records"@);
        Contents {
            unlocking,
            store: match unlocking {
                Ok(Some(root_key)) => shelf.under(root_key),
                _ => shelf.under(Seq::empty()),
            },
        }
    }
}

/// A disk, and the vault beside it.
#[verifier::reject_recursive_types(P)]
#[verifier::reject_recursive_types(R)]
#[verifier::reject_recursive_types(E)]
pub struct Disk<P, R, E> {
    /// The data directories that there are.
    pub rooms: Map<Directory<P>, Room<R, E>>,
    /// A data directory that is only now made.
    pub blank: Room<R, E>,
    /// Whether a directory can be moved, or why not.
    pub moving: Result<(), MoveFailure>,
    /// The shared vault.
    pub vault: Vault,
}

impl<P, R, E> Disk<P, R, E> {
    /// The directory `at`, which is made where it is missing.
    pub open spec fn room(self, at: Directory<P>) -> Room<R, E> {
        if self.rooms.contains_key(at) {
            self.rooms[at]
        } else {
            self.blank
        }
    }

    /// What is replied at `stage`, to what it names.
    pub open spec fn reply(
        self,
        stage: OpenStage<P, R, E>,
        sealing: Sealing<R, E>,
    ) -> OpenAnswer<R, E> {
        match stage {
            OpenStage::AdoptRoot { adoption, .. } => OpenAnswer::Root(
                match adoption {
                    RootStage::CheckCurrent { data_root, .. } => RootReply::Exists(
                        self.rooms.contains_key(data_root),
                    ),
                    RootStage::CheckLegacy { legacy, .. } => RootReply::Exists(
                        self.rooms.contains_key(legacy),
                    ),
                    RootStage::MoveLegacy { .. } => RootReply::Moved(self.moving),
                    RootStage::Finished { .. } => RootReply::Exists(true),
                },
            ),
            OpenStage::Unlock { data_root, below } => OpenAnswer::Unlocked(
                (self.room(data_root).unlock_roots)(below),
            ),
            OpenStage::OpenRecords { data_root, below, root_key, records } => OpenAnswer::Records(
                self.room(data_root).shelf(below).reply(records, root_key, sealing),
            ),
            OpenStage::Settle { settlement, .. } => OpenAnswer::Vault(self.vault.reply(settlement)),
            OpenStage::Finished { .. } => OpenAnswer::Root(RootReply::Exists(true)),
        }
    }

    /// The disk once what is asked at `stage` was done.
    pub open spec fn after(
        self,
        stage: OpenStage<P, R, E>,
        sealing: Sealing<R, E>,
    ) -> Disk<P, R, E> {
        match stage {
            OpenStage::AdoptRoot { adoption: RootStage::MoveLegacy { data_root, legacy }, .. } =>
                if self.moving is Ok {
                    Disk {
                        rooms: self.rooms.remove(legacy).insert(data_root, self.rooms[legacy]),
                        ..self
                    }
                } else {
                    self
                },
            OpenStage::AdoptRoot { .. } => self,
            OpenStage::Unlock { data_root, below } => match (self.room(data_root).unlock_roots)(
                below,
            ) {
                Ok(Some(_)) => Disk {
                    rooms: self.rooms.insert(data_root, self.room(data_root)),
                    ..self
                },
                _ => self,
            },
            OpenStage::OpenRecords { data_root, below, root_key, records } => {
                let room = self.room(data_root);
                let shelf = room.shelf(below).after(records, root_key, sealing);
                Disk { rooms: self.rooms.insert(data_root, room.with_shelf(below, shelf)), ..self }
            },
            OpenStage::Settle { settlement, .. } => Disk {
                vault: self.vault.after(settlement),
                ..self
            },
            OpenStage::Finished { .. } => self,
        }
    }

    /// The machine that this disk is to one whose data directory is
    /// `data_root`, and was `legacy` under the earlier name.
    pub open spec fn seen(self, data_root: Directory<P>, legacy: Directory<P>) -> Machine<R, E> {
        Machine {
            current: if self.rooms.contains_key(data_root) {
                Some(self.rooms[data_root].seen())
            } else {
                None
            },
            earlier: if self.rooms.contains_key(legacy) {
                Some(self.rooms[legacy].seen())
            } else {
                None
            },
            blank: self.blank.seen(),
            moving: self.moving,
            vault: self.vault,
        }
    }
}

/// What an opening ends in, and the disk that is left behind, when `disk` is
/// asked from `stage` on.
pub open spec fn run_on_from<P, R, E>(
    stage: OpenStage<P, R, E>,
    disk: Disk<P, R, E>,
    sealing: Sealing<R, E>,
) -> (Result<Identity, OpenFailure<E>>, Disk<P, R, E>)
    decreases crate::opened::opening_requests_left(stage),
    when crate::opened::asks_opening(stage) || stage is Finished
{
    match stage {
        OpenStage::Finished { outcome } => (outcome, disk),
        _ => run_on_from(
            crate::opening::open_stage_after(stage, disk.reply(stage, sealing)),
            disk.after(stage, sealing),
            sealing,
        ),
    }
}

/// What opening the host's identity ends in, and the disk that is left behind,
/// in the environment `roots`.
pub open spec fn run_on<P, R, E>(
    roots: EnvRoots<P>,
    disk: Disk<P, R, E>,
    sealing: Sealing<R, E>,
) -> (Result<Identity, OpenFailure<E>>, Disk<P, R, E>) {
    run_on_from(crate::opening::open_start::<P, R, E>(roots), disk, sealing)
}

/// Whether what was loaded on the way to `stage` is readable: the current
/// record before anything is done about the earlier one, and the earlier one
/// before anything is written.
spec fn looked_for<R, E>(stage: RecordsStage<R, E>, store: RecordStore<R, E>) -> bool {
    stage matches RecordsStage::Adopt { adoption } ==> {
        &&& adoption is LoadLegacy || adoption is SaveCurrent ==> !store.unreadable.contains_key(
            "hocket/local-identity.json"@,
        )
        &&& adoption is SaveCurrent || adoption is DeleteLegacy ==> !store.unreadable.contains_key(
            "strophe/local-identity.json"@,
        )
    }
}

/// Records on a shelf, asked under one key, answer as a store does.
proof fn lemma_shelf_is_a_store<R, E>(
    shelf: Shelf<R, E>,
    stage: RecordsStage<R, E>,
    key: Seq<u8>,
    sealing: Sealing<R, E>,
)
    requires
        crate::opened::asks_records(stage),
        looked_for(stage, shelf.under(key)),
    ensures
        ({
            let store = shelf.under(key);
            let reply = shelf.reply(stage, key, sealing);
            let left = shelf.after(stage, key, sealing).under(key);
            &&& reply == crate::opened::records_reply(stage, store, sealing)
            &&& left == crate::opened::store_after(stage, store, sealing)
            &&& looked_for(crate::opening::records_stage_after(stage, reply), left)
        }),
{
    let store = shelf.under(key);
    let left = shelf.after(stage, key, sealing).under(key);
    let expected = crate::opened::store_after(stage, store, sealing);
    crate::records::law_record_paths();
    assert(left.unreadable =~= expected.unreadable);
    assert(left.records =~= expected.records);
}

/// Whether `stage` names the right things: the data directory and the earlier
/// one, the places in the data directory, and its unlock root.
spec fn rightly_placed<P, R, E>(
    stage: OpenStage<P, R, E>,
    disk: Disk<P, R, E>,
    data_root: Directory<P>,
    legacy: Directory<P>,
) -> bool {
    match stage {
        OpenStage::AdoptRoot { data_root: root, adoption } => root == data_root && match adoption {
            RootStage::CheckCurrent { data_root: sought, earlier } => sought == data_root
                && earlier == Some(legacy),
            RootStage::CheckLegacy { data_root: missing, legacy: sought } => missing == data_root
                && sought == legacy && !disk.rooms.contains_key(data_root),
            RootStage::MoveLegacy { data_root: missing, legacy: found } => missing == data_root
                && found == legacy && !disk.rooms.contains_key(data_root)
                && disk.rooms.contains_key(legacy),
            RootStage::Finished { .. } => false,
        },
        OpenStage::Unlock { data_root: root, below } => root == data_root && below
            == "personae/auto-unlock-root.json"@,
        OpenStage::OpenRecords { data_root: root, below, root_key, records } => {
            &&& root == data_root
            &&& below == "personae/records"@
            &&& disk.rooms.contains_key(data_root)
            &&& (disk.rooms[data_root].unlock_roots)("personae/auto-unlock-root.json"@) == Ok::<
                Option<Seq<u8>>,
                E,
            >(Some(root_key))
            &&& crate::opened::asks_records(records)
            &&& looked_for(records, disk.rooms[data_root].shelf(below).under(root_key))
        },
        OpenStage::Settle { settlement, .. } => settlement !is Settled,
        OpenStage::Finished { .. } => true,
    }
}

/// One request, rightly placed, is answered by a disk as by the machine that
/// the disk is; and the next one is rightly placed again.
proof fn lemma_disk_is_a_machine<P, R, E>(
    stage: OpenStage<P, R, E>,
    disk: Disk<P, R, E>,
    sealing: Sealing<R, E>,
    data_root: Directory<P>,
    legacy: Directory<P>,
)
    requires
        data_root != legacy,
        stage !is Finished,
        rightly_placed(stage, disk, data_root, legacy),
    ensures
        ({
            let machine = disk.seen(data_root, legacy);
            let reply = disk.reply(stage, sealing);
            let left = disk.after(stage, sealing);
            &&& reply == machine.reply(stage, sealing)
            &&& left.seen(data_root, legacy) == machine.after(stage, sealing)
            &&& rightly_placed(
                crate::opening::open_stage_after(stage, reply),
                left,
                data_root,
                legacy,
            )
        }),
{
    if let OpenStage::OpenRecords { below, root_key, records, .. } = stage {
        let shelf = disk.rooms[data_root].shelf(below);
        lemma_shelf_is_a_store(shelf, records, root_key, sealing);
        crate::opened::law_opening_records_ends(
            records,
            shelf.reply(records, root_key, sealing),
        );
    }
    if let OpenStage::Settle { identity, settlement } = stage {
        crate::vault::law_settling_ends(
            identity.key,
            settlement,
            disk.vault.reply(settlement),
        );
    }
}

/// The same of everything that is still to be asked.
proof fn lemma_disk_runs_as_a_machine<P, R, E>(
    stage: OpenStage<P, R, E>,
    disk: Disk<P, R, E>,
    sealing: Sealing<R, E>,
    data_root: Directory<P>,
    legacy: Directory<P>,
)
    requires
        data_root != legacy,
        rightly_placed(stage, disk, data_root, legacy),
    ensures
        ({
            let (outcome, left) = run_on_from(stage, disk, sealing);
            (outcome, left.seen(data_root, legacy)) == crate::machine::run_from(
                stage,
                disk.seen(data_root, legacy),
                sealing,
            )
        }),
    decreases crate::opened::opening_requests_left(stage),
{
    if stage !is Finished {
        let reply = disk.reply(stage, sealing);
        lemma_disk_is_a_machine(stage, disk, sealing, data_root, legacy);
        assert(crate::opened::answers_opening(stage, reply));
        lemma_disk_runs_as_a_machine(
            crate::opening::open_stage_after(stage, reply),
            disk.after(stage, sealing),
            sealing,
            data_root,
            legacy,
        );
    }
}

/// An opening looks in the right places and unseals with the right key: it
/// comes to the same on a disk as on the machine that the disk is to one who
/// looks in the data directory that the environment names and in the one of the
/// earlier name beside it, for the unlock root and for the records where they
/// are kept there, and who unseals those with that unlock root.
pub proof fn law_right_places_are_asked<P, R, E>(
    roots: EnvRoots<P>,
    disk: Disk<P, R, E>,
    sealing: Sealing<R, E>,
    data_root: Directory<P>,
    legacy: Directory<P>,
)
    requires
        crate::roots::current_root(roots) == Some(data_root),
        crate::roots::earlier_root(roots) == Some(legacy),
    ensures
        ({
            let (outcome, left) = run_on(roots, disk, sealing);
            (outcome, left.seen(data_root, legacy)) == crate::machine::run(
                roots,
                disk.seen(data_root, legacy),
                sealing,
            )
        }),
{
    crate::roots::law_roots_lie_side_by_side(roots);
    lemma_disk_runs_as_a_machine(
        crate::opening::open_start::<P, R, E>(roots),
        disk,
        sealing,
        data_root,
        legacy,
    );
}

/// The identity in the data directory opens with its key when it was sealed
/// under the unlock root that is kept there.
pub proof fn law_identity_opens_under_its_unlock_root<P, R, E>(
    roots: EnvRoots<P>,
    disk: Disk<P, R, E>,
    sealing: Sealing<R, E>,
    data_root: Directory<P>,
    root_key: Seq<u8>,
    record: R,
    key: Seq<u8>,
)
    requires
        crate::roots::current_root(roots) == Some(data_root),
        disk.rooms.contains_key(data_root),
        (disk.rooms[data_root].unlock_roots)("personae/auto-unlock-root.json"@) == Ok::<
            Option<Seq<u8>>,
            E,
        >(Some(root_key)),
        ({
            let shelf = disk.rooms[data_root].shelf("personae/records"@);
            let name = "hocket/local-identity.json"@;
            &&& shelf.records.contains_key(name)
            &&& shelf.records[name] == (Sealed { under: root_key, record })
            &&& !shelf.broken.contains_key(name)
        }),
        (sealing.key_in)(record) == Ok::<Seq<u8>, E>(key),
    ensures
        run_on(roots, disk, sealing).0 matches Ok(identity) && identity.key == key,
{
    crate::roots::law_roots_lie_side_by_side(roots);
    let legacy = crate::roots::earlier_root(roots)->Some_0;
    let machine = disk.seen(data_root, legacy);
    law_right_places_are_asked(roots, disk, sealing, data_root, legacy);
    crate::machine::law_whole_opening(roots, machine, sealing);
    crate::opened::law_current_identity_is_opened(machine.contents().store, sealing);
}

/// An identity that was sealed under another key than the unlock root that is
/// kept with it does not open, nobody is made up in its place, and the records
/// stay what they are.
pub proof fn law_identity_opens_under_no_other_key<P, R, E>(
    roots: EnvRoots<P>,
    disk: Disk<P, R, E>,
    sealing: Sealing<R, E>,
    data_root: Directory<P>,
    root_key: Seq<u8>,
)
    requires
        crate::roots::current_root(roots) == Some(data_root),
        disk.rooms.contains_key(data_root),
        (disk.rooms[data_root].unlock_roots)("personae/auto-unlock-root.json"@) == Ok::<
            Option<Seq<u8>>,
            E,
        >(Some(root_key)),
        ({
            let shelf = disk.rooms[data_root].shelf("personae/records"@);
            let name = "hocket/local-identity.json"@;
            &&& shelf.records.contains_key(name)
            &&& shelf.records[name].under != root_key
            &&& !shelf.broken.contains_key(name)
        }),
    ensures
        ({
            let shelf = disk.rooms[data_root].shelf("personae/records"@);
            let (outcome, left) = run_on(roots, disk, sealing);
            &&& outcome == Err::<Identity, OpenFailure<E>>(
                OpenFailure::Outside(shelf.sealed_otherwise),
            )
            &&& left.rooms.contains_key(data_root)
            &&& left.rooms[data_root].seen() == disk.rooms[data_root].seen()
            &&& left.vault == disk.vault
        }),
{
    crate::roots::law_roots_lie_side_by_side(roots);
    let legacy = crate::roots::earlier_root(roots)->Some_0;
    let machine = disk.seen(data_root, legacy);
    law_right_places_are_asked(roots, disk, sealing, data_root, legacy);
    crate::machine::law_whole_opening(roots, machine, sealing);
    crate::opened::law_unreadable_record_opens_nothing(machine.contents().store, sealing);
    let left = run_on(roots, disk, sealing).1;
    assert(left.seen(data_root, legacy).current == Some(disk.rooms[data_root].seen()));
}

/// A data directory of the earlier name is found beside the missing current
/// one and moved there, and the identity in it opens with its key.
pub proof fn law_earlier_directory_is_found_and_moved<P, R, E>(
    roots: EnvRoots<P>,
    disk: Disk<P, R, E>,
    sealing: Sealing<R, E>,
    data_root: Directory<P>,
    legacy: Directory<P>,
    root_key: Seq<u8>,
    record: R,
    key: Seq<u8>,
)
    requires
        crate::roots::current_root(roots) == Some(data_root),
        crate::roots::earlier_root(roots) == Some(legacy),
        !disk.rooms.contains_key(data_root),
        disk.rooms.contains_key(legacy),
        disk.moving is Ok,
        (disk.rooms[legacy].unlock_roots)("personae/auto-unlock-root.json"@) == Ok::<
            Option<Seq<u8>>,
            E,
        >(Some(root_key)),
        ({
            let shelf = disk.rooms[legacy].shelf("personae/records"@);
            let name = "strophe/local-identity.json"@;
            &&& shelf.records.contains_key(name)
            &&& shelf.records[name] == (Sealed { under: root_key, record })
            &&& !shelf.records.contains_key("hocket/local-identity.json"@)
            &&& !shelf.broken.contains_key(name)
            &&& !shelf.broken.contains_key("hocket/local-identity.json"@)
            &&& shelf.saving is Ok
            &&& shelf.deleting is Ok
        }),
        (sealing.key_in)(record) == Ok::<Seq<u8>, E>(key),
    ensures
        ({
            let (outcome, left) = run_on(roots, disk, sealing);
            &&& outcome matches Ok(identity) && identity.key == key
            &&& left.rooms.contains_key(data_root)
            &&& !left.rooms.contains_key(legacy)
        }),
{
    let machine = disk.seen(data_root, legacy);
    let left = run_on(roots, disk, sealing).1;
    law_right_places_are_asked(roots, disk, sealing, data_root, legacy);
    crate::records::law_record_paths();
    crate::machine::law_identity_survives_the_rename(
        roots,
        machine,
        sealing,
        disk.rooms[legacy].seen(),
        key,
    );
    crate::machine::law_opens_what_the_records_hold(roots, machine, sealing);
    assert(left.seen(data_root, legacy).current is Some);
    assert(left.seen(data_root, legacy).earlier is None);
}

} // verus!
