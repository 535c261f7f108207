//! What opening an identity comes to.
//!
//! The laws on sealed records hold of every store that answers as
//! [`RecordStore`] does: it loads what it holds, and holds what was saved.

use vstd::prelude::*;

use crate::identity::Identity;
use crate::opening::{
    AUTO_UNLOCK_ROOT, OpenAnswer, OpenFailure, OpenStage, RECORDS, RecordsAnswer, RecordsStage,
};
use crate::records::{IDENTITY_RECORD, LEGACY_IDENTITY_RECORD, RecordAdoption, RecordStore};
use crate::roots::{Directory, EnvRoots, RootStage};
use crate::settle::Stage;
use crate::vault::Vault;

verus! {

/// How identities are sealed: the key that a record holds, or why it holds
/// none; and the record that is made up where there is none yet.
#[verifier::reject_recursive_types(R)]
pub struct Sealing<R, E> {
    /// The key in a record.
    pub key_in: spec_fn(R) -> Result<Seq<u8>, E>,
    /// The record of a new identity.
    pub fresh: R,
}

/// What `store` replies at `stage`. Nothing is asked at the end.
pub open spec fn records_reply<R, E>(
    stage: RecordsStage<R, E>,
    store: RecordStore<R, E>,
    sealing: Sealing<R, E>,
) -> RecordsAnswer<R, E> {
    match stage {
        RecordsStage::Adopt { adoption } => RecordsAnswer::Record(store.reply(adoption)),
        RecordsStage::LoadIdentity { record } => RecordsAnswer::Identity(
            match (store.load(record), store.saving) {
                (Err(error), _) => Err(error),
                (Ok(Some(found)), _) => (sealing.key_in)(found),
                (Ok(None), Ok(_)) => (sealing.key_in)(sealing.fresh),
                (Ok(None), Err(error)) => Err(error),
            },
        ),
        RecordsStage::Finished { .. } => RecordsAnswer::Record(
            store.reply(RecordAdoption::Finished { outcome: Ok(()) }),
        ),
    }
}

/// The store once it has done what is asked at `stage`.
pub open spec fn store_after<R, E>(
    stage: RecordsStage<R, E>,
    store: RecordStore<R, E>,
    sealing: Sealing<R, E>,
) -> RecordStore<R, E> {
    match stage {
        RecordsStage::Adopt { adoption } => store.after(adoption),
        RecordsStage::LoadIdentity { record } => if store.load(record) == Ok::<Option<R>, E>(None)
            && store.saving is Ok {
            RecordStore { records: store.records.insert(record, sealing.fresh), ..store }
        } else {
            store
        },
        RecordsStage::Finished { .. } => store,
    }
}

/// How many requests there can still be.
pub open spec fn record_requests_left<R, E>(stage: RecordsStage<R, E>) -> nat {
    match stage {
        RecordsStage::Adopt { adoption } => 1 + crate::records::requests_left(adoption),
        RecordsStage::LoadIdentity { .. } => 1,
        RecordsStage::Finished { .. } => 0,
    }
}

/// The identity that is opened, and the store that is left behind, when
/// `store` is asked from `stage` on.
pub open spec fn opened_from<R, E>(
    stage: RecordsStage<R, E>,
    store: RecordStore<R, E>,
    sealing: Sealing<R, E>,
) -> (Result<Identity, E>, RecordStore<R, E>)
    decreases record_requests_left(stage),
    when (stage matches RecordsStage::Adopt { adoption } ==> adoption !is Finished)
{
    match stage {
        RecordsStage::Finished { outcome } => (outcome, store),
        _ => opened_from(
            crate::opening::records_stage_after(stage, records_reply(stage, store, sealing)),
            store_after(stage, store, sealing),
            sealing,
        ),
    }
}

/// The identity that is opened in `store`, and the store that is left behind.
pub open spec fn opened<R, E>(store: RecordStore<R, E>, sealing: Sealing<R, E>) -> (
    Result<Identity, E>,
    RecordStore<R, E>,
) {
    opened_from(RecordsStage::Adopt { adoption: RecordAdoption::LoadCurrent }, store, sealing)
}

/// The identity known by the key in `record`, as it is opened.
pub open spec fn identity_in<R, E>(record: R, sealing: Sealing<R, E>) -> Result<Identity, E> {
    match (sealing.key_in)(record) {
        Ok(key) => Ok(Identity { key, home: crate::identity::unconsulted() }),
        Err(error) => Err(error),
    }
}

/// A record of the earlier name does not displace a current one: the identity
/// in the current record is opened, and nothing is written.
pub proof fn law_current_identity_is_opened<R, E>(store: RecordStore<R, E>, sealing: Sealing<R, E>)
    requires
        !store.unreadable.contains_key(IDENTITY_RECORD@),
        store.records.contains_key(IDENTITY_RECORD@),
    ensures
        opened(store, sealing) == (identity_in(store.records[IDENTITY_RECORD@], sealing), store),
{
    reveal_with_fuel(opened_from, 4);
}

/// An identity sealed under the earlier name keeps its key, and so its
/// fingerprint: it is opened, and nobody new is made up.
pub proof fn law_earlier_identity_keeps_its_key<R, E>(
    store: RecordStore<R, E>,
    sealing: Sealing<R, E>,
)
    requires
        !store.unreadable.contains_key(IDENTITY_RECORD@),
        !store.unreadable.contains_key(LEGACY_IDENTITY_RECORD@),
        store.saving is Ok,
        store.deleting is Ok,
        !store.records.contains_key(IDENTITY_RECORD@),
        store.records.contains_key(LEGACY_IDENTITY_RECORD@),
    ensures
        opened(store, sealing).0 == identity_in(store.records[LEGACY_IDENTITY_RECORD@], sealing),
        opened(store, sealing).1.record(IDENTITY_RECORD@) == store.record(LEGACY_IDENTITY_RECORD@),
        opened(store, sealing).1.record(LEGACY_IDENTITY_RECORD@) is None,
{
    crate::records::lemma_names_differ();
    reveal_with_fuel(opened_from, 7);
}

/// Where neither record is there, somebody new is made up, and nothing but
/// that one record is written.
pub proof fn law_new_where_nobody_was<R, E>(store: RecordStore<R, E>, sealing: Sealing<R, E>)
    requires
        !store.unreadable.contains_key(IDENTITY_RECORD@),
        !store.unreadable.contains_key(LEGACY_IDENTITY_RECORD@),
        store.saving is Ok,
        !store.records.contains_key(IDENTITY_RECORD@),
        !store.records.contains_key(LEGACY_IDENTITY_RECORD@),
    ensures
        opened(store, sealing).0 == identity_in(sealing.fresh, sealing),
        opened(store, sealing).1.records == store.records.insert(IDENTITY_RECORD@, sealing.fresh),
{
    reveal_with_fuel(opened_from, 7);
}

/// An identity is stable across reopening: what was opened once is opened
/// again, whatever would be made up anew, and nothing is written.
pub proof fn law_reopening_keeps_the_key<R, E>(
    store: RecordStore<R, E>,
    sealing: Sealing<R, E>,
    again: Sealing<R, E>,
)
    requires
        opened(store, sealing).0 is Ok,
        again.key_in == sealing.key_in,
    ensures
        opened(opened(store, sealing).1, again) == opened(store, sealing),
{
    crate::records::lemma_names_differ();
    reveal_with_fuel(opened_from, 7);
}

/// A record that is looked for and will not load, as under a key it was not
/// sealed with, opens no identity: the opening ends with what was said of that
/// record, the store is as it was found, and nobody new is made up. That goes
/// for the current record, and for the earlier one where there is no current
/// one.
pub proof fn law_unreadable_record_opens_nothing<R, E>(
    store: RecordStore<R, E>,
    sealing: Sealing<R, E>,
)
    ensures
        store.unreadable.contains_key(IDENTITY_RECORD@) ==> opened(store, sealing) == (
            Err::<Identity, E>(store.unreadable[IDENTITY_RECORD@]),
            store,
        ),
        !store.unreadable.contains_key(IDENTITY_RECORD@) && !store.records.contains_key(
            IDENTITY_RECORD@,
        ) && store.unreadable.contains_key(LEGACY_IDENTITY_RECORD@) ==> opened(store, sealing) == (
            Err::<Identity, E>(store.unreadable[LEGACY_IDENTITY_RECORD@]),
            store,
        ),
{
    reveal_with_fuel(opened_from, 4);
}

/// The identity is never lost, whatever fails: where a host had a record to
/// open, the current one or else the earlier one, that record is still the one
/// that it would open; and every other record is untouched.
pub proof fn law_opening_never_loses_the_identity<R, E>(
    store: RecordStore<R, E>,
    sealing: Sealing<R, E>,
)
    ensures
        ({
            let left = opened(store, sealing).1;
            &&& store.records.contains_key(IDENTITY_RECORD@) || store.records.contains_key(
                LEGACY_IDENTITY_RECORD@,
            ) ==> crate::records::record_to_open(left) == crate::records::record_to_open(store)
            &&& forall|name: Seq<char>|
                name != IDENTITY_RECORD@ && name != LEGACY_IDENTITY_RECORD@
                    ==> #[trigger] left.record(name) == store.record(name)
        }),
{
    crate::records::lemma_names_differ();
    reveal_with_fuel(opened_from, 7);
}

/// Whether `reply` is one to what is asked at `stage`.
pub open spec fn answers_records<R, E>(
    stage: RecordsStage<R, E>,
    reply: RecordsAnswer<R, E>,
) -> bool {
    match (stage, reply) {
        (RecordsStage::Adopt { adoption }, RecordsAnswer::Record(reply)) =>
            crate::records::answers(adoption, reply),
        (RecordsStage::LoadIdentity { .. }, RecordsAnswer::Identity(_)) => true,
        _ => false,
    }
}

/// Whether something is asked at `stage`.
pub open spec fn asks_records<R, E>(stage: RecordsStage<R, E>) -> bool {
    match stage {
        RecordsStage::Adopt { adoption } => adoption !is Finished,
        RecordsStage::LoadIdentity { .. } => true,
        RecordsStage::Finished { .. } => false,
    }
}

/// Every reply to what was asked leaves fewer requests, and the next stage
/// asks for something or is the end, so opening the records ends after five
/// replies or sooner; any other reply changes nothing.
pub proof fn law_opening_records_ends<R, E>(
    stage: RecordsStage<R, E>,
    reply: RecordsAnswer<R, E>,
)
    ensures
        record_requests_left(stage) <= 5,
        asks_records(stage) ==> record_requests_left(stage) > 0,
        answers_records(stage, reply) ==> ({
            let next = crate::opening::records_stage_after(stage, reply);
            &&& record_requests_left(next) < record_requests_left(stage)
            &&& asks_records(next) || next is Finished
        }),
        asks_records(stage) && !answers_records(stage, reply)
            ==> crate::opening::records_stage_after(stage, reply) == stage,
{
    if let RecordsStage::Adopt { adoption } = stage {
        if let RecordsAnswer::Record(reply) = reply {
            crate::records::law_adoption_ends(adoption, reply);
        }
    }
}

/// Whether `reply` is one to what is asked at `stage`.
pub open spec fn answers_opening<P, R, E>(
    stage: OpenStage<P, R, E>,
    reply: OpenAnswer<R, E>,
) -> bool {
    match (stage, reply) {
        (OpenStage::AdoptRoot { adoption, .. }, OpenAnswer::Root(reply)) =>
            crate::roots::answers_move(adoption, reply),
        (OpenStage::Unlock { .. }, OpenAnswer::Unlocked(_)) => true,
        (OpenStage::OpenRecords { records, .. }, OpenAnswer::Records(reply)) => answers_records(
            records,
            reply,
        ),
        (OpenStage::Settle { settlement, .. }, OpenAnswer::Vault(reply)) =>
            crate::vault::answers_settling(settlement, reply),
        _ => false,
    }
}

/// Whether something is asked at `stage`.
pub open spec fn asks_opening<P, R, E>(stage: OpenStage<P, R, E>) -> bool {
    match stage {
        OpenStage::AdoptRoot { adoption, .. } => adoption !is Finished,
        OpenStage::Unlock { .. } => true,
        OpenStage::OpenRecords { records, .. } => asks_records(records),
        OpenStage::Settle { settlement, .. } => settlement !is Settled,
        OpenStage::Finished { .. } => false,
    }
}

/// How many requests there can still be: three to move the data directory, one
/// to unlock, five to open the records and four to settle.
pub open spec fn opening_requests_left<P, R, E>(stage: OpenStage<P, R, E>) -> nat {
    match stage {
        OpenStage::AdoptRoot { adoption, .. } => 10 + crate::roots::move_requests_left(adoption),
        OpenStage::Unlock { .. } => 10,
        OpenStage::OpenRecords { records, .. } => 4 + record_requests_left(records),
        OpenStage::Settle { settlement, .. } => crate::vault::questions_left(settlement),
        OpenStage::Finished { .. } => 0,
    }
}

/// Every reply to what was asked leaves fewer requests, and the next stage
/// asks for something or is the end, as the first one does. So opening the
/// host's identity ends after thirteen replies or sooner. Any other reply
/// changes nothing.
pub proof fn law_opening_ends<P, R, E>(
    roots: EnvRoots<P>,
    stage: OpenStage<P, R, E>,
    reply: OpenAnswer<R, E>,
)
    ensures
        ({
            let start = crate::opening::open_start::<P, R, E>(roots);
            asks_opening(start) || start is Finished
        }),
        opening_requests_left(stage) <= 13,
        asks_opening(stage) ==> opening_requests_left(stage) > 0,
        answers_opening(stage, reply) ==> ({
            let next = crate::opening::open_stage_after(stage, reply);
            &&& opening_requests_left(next) < opening_requests_left(stage)
            &&& asks_opening(next) || next is Finished
        }),
        asks_opening(stage) && !answers_opening(stage, reply)
            ==> crate::opening::open_stage_after(stage, reply) == stage,
{
    match (stage, reply) {
        (OpenStage::AdoptRoot { adoption, .. }, OpenAnswer::Root(reply)) => {
            crate::roots::law_move_ends(adoption, reply);
        },
        (OpenStage::OpenRecords { records, .. }, OpenAnswer::Records(reply)) => {
            law_opening_records_ends(records, reply);
        },
        (OpenStage::Settle { identity, settlement }, OpenAnswer::Vault(reply)) => {
            crate::vault::law_settling_ends(identity.key, settlement, reply);
        },
        _ => {},
    }
}

/// The parts of an opening come in their order, and none is left out: an
/// identity is opened only by settling it, and a part that fails before that
/// ends the opening.
pub proof fn law_opened_only_when_settled<P, R, E>(
    stage: OpenStage<P, R, E>,
    reply: OpenAnswer<R, E>,
)
    requires
        stage !is Finished,
    ensures
        ({
            let next = crate::opening::open_stage_after(stage, reply);
            &&& next matches OpenStage::Finished { outcome } ==> (outcome is Ok <==> stage
                is Settle)
            &&& next is Settle ==> stage is Settle || stage is OpenRecords
            &&& next is OpenRecords ==> stage is OpenRecords || stage is Unlock
            &&& next is Unlock ==> stage is Unlock || stage is AdoptRoot
            &&& next is AdoptRoot ==> stage is AdoptRoot
        }),
{
}

/// Whether everything that `stage` asks for before the vault lies in
/// `data_root`, each part where it belongs.
pub open spec fn lies_in<P, R, E>(stage: OpenStage<P, R, E>, data_root: Directory<P>) -> bool {
    match stage {
        OpenStage::AdoptRoot { data_root: root, adoption } => root == data_root && match adoption {
            RootStage::CheckCurrent { data_root: root, .. } => root == data_root,
            RootStage::CheckLegacy { data_root: root, .. } => root == data_root,
            RootStage::MoveLegacy { data_root: root, .. } => root == data_root,
            RootStage::Finished { .. } => true,
        },
        OpenStage::Unlock { data_root: root, below } => root == data_root && below
            == AUTO_UNLOCK_ROOT@,
        OpenStage::OpenRecords { data_root: root, below, .. } => root == data_root && below
            == RECORDS@,
        OpenStage::Settle { .. } => true,
        OpenStage::Finished { .. } => true,
    }
}

/// An opening stays in the data directory that the environment names, from its
/// start and whatever is replied.
pub proof fn law_opening_stays_in_its_root<P, R, E>(
    roots: EnvRoots<P>,
    data_root: Directory<P>,
    stage: OpenStage<P, R, E>,
    reply: OpenAnswer<R, E>,
)
    requires
        crate::roots::current_root(roots) == Some(data_root),
    ensures
        lies_in(crate::opening::open_start::<P, R, E>(roots), data_root),
        lies_in(stage, data_root) ==> lies_in(
            crate::opening::open_stage_after(stage, reply),
            data_root,
        ),
{
}

/// Nothing rotates: an identity that is being settled keeps its key, whatever
/// the vault replies, and opens under it; and no vault can keep it from
/// opening.
pub proof fn law_settling_keeps_the_key<P, R, E>(
    stage: OpenStage<P, R, E>,
    reply: OpenAnswer<R, E>,
)
    requires
        stage is Settle,
    ensures
        ({
            let key = stage->identity.key;
            match crate::opening::open_stage_after(stage, reply) {
                OpenStage::Settle { identity, .. } => identity.key == key,
                OpenStage::Finished { outcome } => outcome matches Ok(identity) && identity.key
                    == key,
                _ => false,
            }
        }),
{
}

/// The key that an identity is settled under is the one that its records held.
pub proof fn law_settled_under_the_loaded_key<P, R, E>(
    stage: OpenStage<P, R, E>,
    reply: OpenAnswer<R, E>,
)
    requires
        stage matches OpenStage::OpenRecords { records, .. } && records !is Finished,
        crate::opening::open_stage_after(stage, reply) is Settle,
    ensures
        stage matches OpenStage::OpenRecords { records, .. } && records is LoadIdentity,
        reply matches OpenAnswer::Records(RecordsAnswer::Identity(Ok(key)))
            && crate::opening::open_stage_after(stage, reply) == (OpenStage::<P, R, E>::Settle {
            identity: Identity { key, home: crate::identity::unconsulted() },
            settlement: Stage::OpenVault,
        }),
{
}

/// Where an opening that has come to its records goes on from them, and the
/// store that is left behind, when `store` is asked.
pub open spec fn past_records<P, R, E>(
    stage: OpenStage<P, R, E>,
    store: RecordStore<R, E>,
    sealing: Sealing<R, E>,
) -> (OpenStage<P, R, E>, RecordStore<R, E>)
    decreases record_requests_left(stage->records),
    when (stage matches OpenStage::OpenRecords { records, .. } && asks_records(records))
{
    let records = stage->records;
    let next = crate::opening::open_stage_after(
        stage,
        OpenAnswer::Records(records_reply(records, store, sealing)),
    );
    let left = store_after(records, store, sealing);
    if next is OpenRecords {
        past_records(next, left, sealing)
    } else {
        (next, left)
    }
}

/// The identity that the host settles is the one that its records open; and
/// where they open none, the host's opening ends with what was said of them.
/// Either way the store is left as opening the records leaves it.
pub proof fn law_settles_what_the_records_open<P, R, E>(
    data_root: Directory<P>,
    root_key: Seq<u8>,
    store: RecordStore<R, E>,
    sealing: Sealing<R, E>,
)
    ensures
        past_records(
            (OpenStage::OpenRecords {
                data_root,
                below: RECORDS@,
                root_key,
                records: RecordsStage::Adopt { adoption: RecordAdoption::LoadCurrent },
            }),
            store,
            sealing,
        ) == (
            match opened(store, sealing).0 {
                Ok(identity) => OpenStage::<P, R, E>::Settle {
                    identity,
                    settlement: Stage::OpenVault,
                },
                Err(error) => OpenStage::Finished { outcome: Err(OpenFailure::Outside(error)) },
            },
            opened(store, sealing).1,
        ),
{
    crate::records::lemma_names_differ();
    reveal_with_fuel(opened_from, 7);
    reveal_with_fuel(past_records, 7);
}

/// Whether an opening has come to settling, and is not done with it.
pub open spec fn settling<P, R, E>(stage: OpenStage<P, R, E>) -> bool {
    stage matches OpenStage::Settle { settlement, .. } && settlement !is Settled
}

/// What an opening that has come to settling ends in, when `vault` is asked.
pub open spec fn finished_in<P, R, E>(
    stage: OpenStage<P, R, E>,
    vault: Vault,
) -> Result<Identity, OpenFailure<E>>
    decreases crate::vault::questions_left(stage->settlement),
    when settling(stage)
{
    let settlement = stage->settlement;
    match crate::opening::open_stage_after(stage, OpenAnswer::Vault(vault.reply(settlement))) {
        OpenStage::Finished { outcome } => outcome,
        next => finished_in(next, vault.after(settlement)),
    }
}

/// The host's identity opens with the key it came with, in the home that
/// settling finds for it.
pub proof fn law_opens_where_it_settles<P, R, E>(identity: Identity, vault: Vault)
    ensures
        finished_in(
            (OpenStage::<P, R, E>::Settle { identity, settlement: Stage::OpenVault }),
            vault,
        ) == Ok::<Identity, OpenFailure<E>>(
            (Identity { key: identity.key, home: crate::vault::settled(identity.key, vault).0 }),
        ),
{
    reveal_with_fuel(finished_in, 5);
    reveal_with_fuel(crate::vault::settled_from, 5);
}

} // verus!
