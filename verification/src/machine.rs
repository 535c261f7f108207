//! What opening the host's identity comes to on a whole machine, from its data
//! directories to its vault, on this run and on the next.
//!
//! The laws here hold of every machine that answers as [`Machine`] does: it
//! finds the directories that it has, moves one whole, and unlocks a directory
//! the same way each time; and its records and its vault answer as
//! [`RecordStore`] and [`Vault`] do. A request that fails changes nothing.

use vstd::prelude::*;

use crate::identity::Identity;
use crate::opened::Sealing;
use crate::opening::{OpenAnswer, OpenFailure, OpenStage, RECORDS, RecordsStage};
use crate::records::{IDENTITY_RECORD, LEGACY_IDENTITY_RECORD, RecordAdoption, RecordStore};
use crate::roots::{EnvRoots, MoveFailure, RootReply, RootStage};
use crate::settle::Stage;
use crate::vault::Vault;

verus! {

/// What a data directory holds.
pub struct Contents<R, E> {
    /// The unlock root that is loaded or created there, where the platform has
    /// one, or why that fails.
    pub unlocking: Result<Option<Seq<u8>>, E>,
    /// The sealed records, as they fare under that unlock root.
    pub store: RecordStore<R, E>,
}

/// A machine: what it holds, and how the requests made of it fare.
pub struct Machine<R, E> {
    /// The data directory, if there is one.
    pub current: Option<Contents<R, E>>,
    /// The data directory of the earlier name, if there is one.
    pub earlier: Option<Contents<R, E>>,
    /// What a data directory holds that is only now made.
    pub blank: Contents<R, E>,
    /// Whether a directory can be moved, or why not.
    pub moving: Result<(), MoveFailure>,
    /// The shared vault.
    pub vault: Vault,
}

impl<R, E> Machine<R, E> {
    /// What is found in the data directory, which is made where it is missing.
    pub open spec fn contents(self) -> Contents<R, E> {
        match self.current {
            Some(contents) => contents,
            None => self.blank,
        }
    }

    /// What the machine replies at `stage`. Nothing is asked at the end of an
    /// opening, or at the end of a part of it.
    pub open spec fn reply<P>(
        self,
        stage: OpenStage<P, R, E>,
        sealing: Sealing<R, E>,
    ) -> OpenAnswer<R, E> {
        match stage {
            OpenStage::AdoptRoot { adoption, .. } => OpenAnswer::Root(
                match adoption {
                    RootStage::CheckCurrent { .. } => RootReply::Exists(self.current is Some),
                    RootStage::CheckLegacy { .. } => RootReply::Exists(self.earlier is Some),
                    RootStage::MoveLegacy { .. } => RootReply::Moved(self.moving),
                    RootStage::Finished { .. } => RootReply::Exists(true),
                },
            ),
            OpenStage::Unlock { .. } => OpenAnswer::Unlocked(self.contents().unlocking),
            OpenStage::OpenRecords { records, .. } => OpenAnswer::Records(
                crate::opened::records_reply(records, self.contents().store, sealing),
            ),
            OpenStage::Settle { settlement, .. } => OpenAnswer::Vault(self.vault.reply(settlement)),
            OpenStage::Finished { .. } => OpenAnswer::Root(RootReply::Exists(true)),
        }
    }

    /// The machine once it has done what is asked at `stage`.
    pub open spec fn after<P>(
        self,
        stage: OpenStage<P, R, E>,
        sealing: Sealing<R, E>,
    ) -> Machine<R, E> {
        match stage {
            OpenStage::AdoptRoot { adoption: RootStage::MoveLegacy { .. }, .. } =>
                if self.moving is Ok {
                    Machine { current: self.earlier, earlier: None, ..self }
                } else {
                    self
                },
            OpenStage::AdoptRoot { .. } => self,
            OpenStage::Unlock { .. } => match self.contents().unlocking {
                Ok(Some(_)) => Machine { current: Some(self.contents()), ..self },
                _ => self,
            },
            OpenStage::OpenRecords { records, .. } => self.with_store(
                crate::opened::store_after(records, self.contents().store, sealing),
            ),
            OpenStage::Settle { settlement, .. } => Machine {
                vault: self.vault.after(settlement),
                ..self
            },
            OpenStage::Finished { .. } => self,
        }
    }

    /// The machine with `store` in its data directory.
    pub open spec fn with_store(self, store: RecordStore<R, E>) -> Machine<R, E> {
        Machine { current: Some(Contents { store, ..self.contents() }), ..self }
    }

    /// The machine once a data directory of the earlier name was moved, where
    /// there is one and it is missed, or why it could not be moved.
    pub open spec fn moved(self) -> Result<Machine<R, E>, MoveFailure> {
        if self.current is None && self.earlier is Some {
            match self.moving {
                Ok(_) => Ok(Machine { current: self.earlier, earlier: None, ..self }),
                Err(failure) => Err(failure),
            }
        } else {
            Ok(self)
        }
    }

    /// The record that the host would open here: that of its data directory,
    /// or of the earlier one where there is no other.
    pub open spec fn held(self) -> Option<R> {
        match (self.current, self.earlier) {
            (None, Some(earlier)) => crate::records::record_to_open(earlier.store),
            _ => crate::records::record_to_open(self.contents().store),
        }
    }
}

/// What an opening ends in, and the machine that is left behind, when `machine`
/// is asked from `stage` on.
pub open spec fn run_from<P, R, E>(
    stage: OpenStage<P, R, E>,
    machine: Machine<R, E>,
    sealing: Sealing<R, E>,
) -> (Result<Identity, OpenFailure<E>>, Machine<R, E>)
    decreases crate::opened::opening_requests_left(stage),
    when crate::opened::asks_opening(stage) || stage is Finished
{
    match stage {
        OpenStage::Finished { outcome } => (outcome, machine),
        _ => run_from(
            crate::opening::open_stage_after(stage, machine.reply(stage, sealing)),
            machine.after(stage, sealing),
            sealing,
        ),
    }
}

/// What opening the host's identity ends in, and the machine that is left
/// behind, in the environment `roots`.
pub open spec fn run<P, R, E>(
    roots: EnvRoots<P>,
    machine: Machine<R, E>,
    sealing: Sealing<R, E>,
) -> (Result<Identity, OpenFailure<E>>, Machine<R, E>) {
    run_from(crate::opening::open_start::<P, R, E>(roots), machine, sealing)
}

/// Settling within a run is settling in the machine's vault.
proof fn lemma_runs_through_the_vault<P, R, E>(
    identity: Identity,
    settlement: Stage,
    machine: Machine<R, E>,
    sealing: Sealing<R, E>,
)
    requires
        settlement !is Settled,
    ensures
        run_from((OpenStage::<P, R, E>::Settle { identity, settlement }), machine, sealing) == ({
            let (home, vault) = crate::vault::settled_from(identity.key, settlement, machine.vault);
            (
                Ok::<Identity, OpenFailure<E>>(Identity { key: identity.key, home }),
                Machine { vault, ..machine },
            )
        }),
    decreases crate::vault::questions_left(settlement),
{
    let reply = machine.vault.reply(settlement);
    let next = crate::settle::stage_after(identity.key, settlement, reply);
    let after = Machine { vault: machine.vault.after(settlement), ..machine };
    crate::vault::law_settling_ends(identity.key, settlement, reply);
    reveal_with_fuel(run_from, 2);
    reveal_with_fuel(crate::vault::settled_from, 2);
    if next !is Settled {
        lemma_runs_through_the_vault::<P, R, E>(identity, next, after, sealing);
    }
}

/// Opening the records within a run is opening those in the machine's data
/// directory.
proof fn lemma_runs_through_the_records<P, R, E>(
    stage: OpenStage<P, R, E>,
    machine: Machine<R, E>,
    sealing: Sealing<R, E>,
)
    requires
        stage matches OpenStage::OpenRecords { records, .. } && crate::opened::asks_records(
            records,
        ),
    ensures
        run_from(stage, machine, sealing) == ({
            let (outcome, store) = crate::opened::opened_from(
                stage->records,
                machine.contents().store,
                sealing,
            );
            let left = machine.with_store(store);
            match outcome {
                Ok(identity) => run_from(
                    OpenStage::<P, R, E>::Settle { identity, settlement: Stage::OpenVault },
                    left,
                    sealing,
                ),
                Err(error) => (Err(OpenFailure::Outside(error)), left),
            }
        }),
    decreases crate::opened::record_requests_left(stage->records),
{
    let records = stage->records;
    let store = machine.contents().store;
    let reply = crate::opened::records_reply(records, store, sealing);
    let next = crate::opening::open_stage_after(stage, OpenAnswer::Records(reply));
    let after = machine.with_store(crate::opened::store_after(records, store, sealing));
    crate::opened::law_opening_records_ends(records, reply);
    reveal_with_fuel(run_from, 2);
    reveal_with_fuel(crate::opened::opened_from, 2);
    assert(crate::opened::answers_records(records, reply));
    if next is OpenRecords {
        lemma_runs_through_the_records(next, after, sealing);
        assert(after.contents().store == crate::opened::store_after(records, store, sealing));
    }
}

/// The whole of an opening, from the environment to the vault: a data directory
/// of the earlier name is moved where the current one is missing; the identity
/// is the one that the records there open under the unlock root there; and it
/// lives where settling it in the vault finds a home for it. What fails before
/// the vault is asked ends the opening with what was said of it, and nothing
/// beyond that point is touched.
pub proof fn law_whole_opening<P, R, E>(
    roots: EnvRoots<P>,
    machine: Machine<R, E>,
    sealing: Sealing<R, E>,
)
    ensures
        run(roots, machine, sealing) == match (
            crate::roots::current_root(roots),
            machine.moved(),
        ) {
            (None, _) => (
                Err(OpenFailure::Backend("could not determine Hocket's local data directory"@)),
                machine,
            ),
            (Some(_), Err(failure)) => (
                Err(OpenFailure::Backend(crate::roots::move_failure_text(failure))),
                machine,
            ),
            (Some(_), Ok(there)) => match there.contents().unlocking {
                Err(error) => (Err(OpenFailure::Outside(error)), there),
                Ok(None) => (
                    Err(
                        OpenFailure::Backend(
                            "OS-protected automatic identity unlock is unavailable on this platform"@,
                        ),
                    ),
                    there,
                ),
                Ok(Some(_)) => {
                    let (outcome, store) = crate::opened::opened(there.contents().store, sealing);
                    let left = there.with_store(store);
                    match outcome {
                        Err(error) => (Err(OpenFailure::Outside(error)), left),
                        Ok(identity) => {
                            let (home, vault) = crate::vault::settled(identity.key, left.vault);
                            (
                                Ok(Identity { key: identity.key, home }),
                                Machine { vault, ..left },
                            )
                        },
                    }
                },
            },
        },
{
    reveal_with_fuel(run_from, 5);
    crate::roots::law_roots_lie_side_by_side(roots);
    if let (Some(data_root), Ok(there)) = (crate::roots::current_root(roots), machine.moved()) {
        if let Ok(Some(root_key)) = there.contents().unlocking {
            let unlocked = Machine { current: Some(there.contents()), ..there };
            let records = OpenStage::<P, R, E>::OpenRecords {
                data_root,
                below: RECORDS@,
                root_key,
                records: RecordsStage::Adopt { adoption: RecordAdoption::LoadCurrent },
            };
            assert(run(roots, machine, sealing) == run_from(records, unlocked, sealing));
            lemma_runs_through_the_records(records, unlocked, sealing);
            let (outcome, store) = crate::opened::opened(there.contents().store, sealing);
            if let Ok(identity) = outcome {
                lemma_runs_through_the_vault::<P, R, E>(
                    identity,
                    Stage::OpenVault,
                    there.with_store(store),
                    sealing,
                );
            }
        }
    }
}

/// The identity that a run opened is the one that its records open: with the
/// key it has in the data directory, in the home that the vault gives it, and
/// nobody else.
pub proof fn law_opens_what_the_records_hold<P, R, E>(
    roots: EnvRoots<P>,
    machine: Machine<R, E>,
    sealing: Sealing<R, E>,
)
    requires
        run(roots, machine, sealing).0 is Ok,
    ensures
        ({
            let (outcome, left) = run(roots, machine, sealing);
            &&& machine.moved() matches Ok(there)
            &&& outcome matches Ok(identity)
            &&& crate::opened::opened(there.contents().store, sealing).0 matches Ok(found)
            &&& identity.key == found.key
            &&& identity.home == crate::vault::settled(found.key, machine.vault).0
            &&& left.vault == crate::vault::settled(found.key, machine.vault).1
            &&& left.current matches Some(contents)
            &&& contents.store == crate::opened::opened(there.contents().store, sealing).1
            &&& left.held() matches Some(record)
            &&& (sealing.key_in)(record) == Ok::<Seq<u8>, E>(identity.key)
        }),
{
    law_whole_opening(roots, machine, sealing);
    crate::records::lemma_names_differ();
    reveal_with_fuel(crate::opened::opened_from, 7);
}

/// An identity is stable from run to run: the next run, on the machine that a
/// run left behind, opens the same key, whatever would be made up anew, and
/// touches neither the data directories nor the records. It also ends in the
/// same home and leaves the vault alone, unless the vault that took the
/// identity in cannot load what it holds.
pub proof fn law_next_run_keeps_the_key<P, R, E>(
    roots: EnvRoots<P>,
    machine: Machine<R, E>,
    sealing: Sealing<R, E>,
    again: Sealing<R, E>,
)
    requires
        run(roots, machine, sealing).0 is Ok,
        again.key_in == sealing.key_in,
    ensures
        ({
            let (outcome, left) = run(roots, machine, sealing);
            let (next, after) = run(roots, left, again);
            &&& outcome matches Ok(identity)
            &&& next matches Ok(reopened)
            &&& reopened.key == identity.key
            &&& after == left
            &&& machine.vault.loading is Ok || identity.home !is Family ==> next == outcome
        }),
{
    let left = run(roots, machine, sealing).1;
    law_whole_opening(roots, machine, sealing);
    law_whole_opening(roots, left, again);
    if let Ok(there) = machine.moved() {
        let store = there.contents().store;
        crate::opened::law_reopening_keeps_the_key(store, sealing, again);
        if let Ok(found) = crate::opened::opened(store, sealing).0 {
            crate::vault::law_settling_again_writes_nothing(found.key, machine.vault);
        }
    }
}

/// An identity survives the rename: where all that there is lies in the data
/// directory of the earlier name, under the earlier record name, a run opens
/// it with its key, and nobody new is made up.
pub proof fn law_identity_survives_the_rename<P, R, E>(
    roots: EnvRoots<P>,
    machine: Machine<R, E>,
    sealing: Sealing<R, E>,
    earlier: Contents<R, E>,
    key: Seq<u8>,
)
    requires
        crate::roots::current_root(roots) is Some,
        machine.current is None,
        machine.earlier == Some(earlier),
        machine.moving is Ok,
        earlier.unlocking matches Ok(Some(_)),
        !earlier.store.unreadable.contains_key(IDENTITY_RECORD@),
        !earlier.store.unreadable.contains_key(LEGACY_IDENTITY_RECORD@),
        earlier.store.saving is Ok,
        earlier.store.deleting is Ok,
        !earlier.store.records.contains_key(IDENTITY_RECORD@),
        earlier.store.records.contains_key(LEGACY_IDENTITY_RECORD@),
        (sealing.key_in)(earlier.store.records[LEGACY_IDENTITY_RECORD@]) == Ok::<Seq<u8>, E>(key),
    ensures
        ({
            let (outcome, left) = run(roots, machine, sealing);
            &&& outcome matches Ok(identity)
            &&& identity.key == key
            &&& identity.home == crate::vault::settled(key, machine.vault).0
            &&& left.earlier is None
            &&& left.held() == earlier.store.record(LEGACY_IDENTITY_RECORD@)
        }),
{
    law_whole_opening(roots, machine, sealing);
    crate::opened::law_earlier_identity_keeps_its_key(earlier.store, sealing);
}

/// Nobody is lost, whatever fails: where the machine held a record to open, it
/// still holds it when a run is over; a data directory of the earlier name is
/// touched only where there was no other; and every persona in the vault is
/// still there, as it was.
pub proof fn law_run_loses_nobody<P, R, E>(
    roots: EnvRoots<P>,
    machine: Machine<R, E>,
    sealing: Sealing<R, E>,
)
    ensures
        ({
            let left = run(roots, machine, sealing).1;
            &&& machine.held() is Some ==> left.held() == machine.held()
            &&& machine.current is Some ==> left.earlier == machine.earlier
            &&& forall|profile: Seq<char>|
                machine.vault.personas.contains_key(profile) ==> {
                    &&& #[trigger] left.vault.personas.contains_key(profile)
                    &&& left.vault.personas[profile] == machine.vault.personas[profile]
                }
        }),
{
    law_whole_opening(roots, machine, sealing);
    if let Ok(there) = machine.moved() {
        let store = there.contents().store;
        crate::opened::law_opening_never_loses_the_identity(store, sealing);
        if let Ok(found) = crate::opened::opened(store, sealing).0 {
            crate::vault::law_nothing_is_overwritten(found.key, machine.vault);
        }
    }
}

} // verus!
