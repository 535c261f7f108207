//! Sealed records: the one that holds the identity, and the one that held it
//! under the product's earlier name.
//!
//! The records are on disk, so the work is split: [`RecordAdoption`] says what
//! to ask of the record store next, the host asks it, and
//! [`adopt_legacy_record`] turns the reply into the next request or into the
//! outcome.

use vstd::prelude::*;

verus! {

/// The record that holds the identity.
pub const IDENTITY_RECORD: &'static str = "hocket/local-identity.json";

/// The record that held the identity when the product was called Strophe.
///
/// A sealed record's path is bound into its associated data, so the identity
/// cannot simply be moved to the new name: it has to be unsealed under the old
/// name and sealed again under the new one. Without that, a musician who
/// already has an identity would silently become a new person with a new
/// fingerprint, and any hand-off envelope they had signed would no longer
/// trace back to them.
pub const LEGACY_IDENTITY_RECORD: &'static str = "strophe/local-identity.json";

/// How far the adoption of the earlier record has come, and so what is to be
/// asked of the store next. `R` is a record, unsealed and not looked into; `E`
/// is how the store fails.
#[derive(Debug)]
pub enum RecordAdoption<R, E> {
    /// Load the current record.
    LoadCurrent,
    /// Load the earlier record.
    LoadLegacy,
    /// Seal `record` as the current record.
    SaveCurrent { record: R },
    /// Delete the earlier record.
    DeleteLegacy,
    /// Nothing more to ask.
    Finished { outcome: Result<(), E> },
}

/// What the store replied.
#[derive(Debug)]
pub enum RecordReply<R, E> {
    /// The record that was loaded, if there is one.
    Loaded(Result<Option<R>, E>),
    /// The store wrote, or failed to.
    Written(Result<(), E>),
}

/// The stage of the adoption once `reply` came in at `stage`. A reply to
/// something that was not asked changes nothing.
pub open spec fn adoption_after<R, E>(
    stage: RecordAdoption<R, E>,
    reply: RecordReply<R, E>,
) -> RecordAdoption<R, E> {
    match (stage, reply) {
        (RecordAdoption::LoadCurrent, RecordReply::Loaded(Ok(Some(_)))) =>
            RecordAdoption::Finished { outcome: Ok(()) },
        (RecordAdoption::LoadCurrent, RecordReply::Loaded(Ok(None))) => RecordAdoption::LoadLegacy,
        (RecordAdoption::LoadLegacy, RecordReply::Loaded(Ok(Some(record)))) =>
            RecordAdoption::SaveCurrent { record },
        (RecordAdoption::LoadLegacy, RecordReply::Loaded(Ok(None))) => RecordAdoption::Finished {
            outcome: Ok(()),
        },
        (RecordAdoption::SaveCurrent { .. }, RecordReply::Written(Ok(()))) =>
            RecordAdoption::DeleteLegacy,
        (RecordAdoption::DeleteLegacy, RecordReply::Written(outcome)) => RecordAdoption::Finished {
            outcome,
        },
        (RecordAdoption::LoadCurrent, RecordReply::Loaded(Err(error))) => RecordAdoption::Finished {
            outcome: Err(error),
        },
        (RecordAdoption::LoadLegacy, RecordReply::Loaded(Err(error))) => RecordAdoption::Finished {
            outcome: Err(error),
        },
        (RecordAdoption::SaveCurrent { .. }, RecordReply::Written(Err(error))) =>
            RecordAdoption::Finished { outcome: Err(error) },
        _ => stage,
    }
}

/// The name of the record that is asked about at `stage`.
pub open spec fn record_asked_about<R, E>(stage: RecordAdoption<R, E>) -> Option<Seq<char>> {
    match stage {
        RecordAdoption::LoadCurrent => Some(IDENTITY_RECORD@),
        RecordAdoption::LoadLegacy => Some(LEGACY_IDENTITY_RECORD@),
        RecordAdoption::SaveCurrent { .. } => Some(IDENTITY_RECORD@),
        RecordAdoption::DeleteLegacy => Some(LEGACY_IDENTITY_RECORD@),
        RecordAdoption::Finished { .. } => None,
    }
}

impl<R, E> RecordAdoption<R, E> {
    /// The name of the record that is to be loaded, saved or deleted.
    pub fn record_name(&self) -> (name: Option<&'static str>)
        ensures
            match (name, record_asked_about(*self)) {
                (Some(said), Some(asked)) => said@ == asked,
                (None, None) => true,
                _ => false,
            },
    {
        match self {
            RecordAdoption::LoadCurrent => Some(IDENTITY_RECORD),
            RecordAdoption::LoadLegacy => Some(LEGACY_IDENTITY_RECORD),
            RecordAdoption::SaveCurrent { .. } => Some(IDENTITY_RECORD),
            RecordAdoption::DeleteLegacy => Some(LEGACY_IDENTITY_RECORD),
            RecordAdoption::Finished { .. } => None,
        }
    }
}

/// Seals an identity record of the earlier name under the current name, once.
///
/// The record is sealed again as it was unsealed. The key material is
/// unchanged, so the fingerprint shown in the circle stays the same.
pub fn adopt_legacy_record<R, E>(
    stage: RecordAdoption<R, E>,
    reply: RecordReply<R, E>,
) -> (next: RecordAdoption<R, E>)
    ensures
        next == adoption_after(stage, reply),
{
    match (stage, reply) {
        (RecordAdoption::LoadCurrent, RecordReply::Loaded(Ok(Some(_)))) => {
            RecordAdoption::Finished { outcome: Ok(()) }
        },
        (RecordAdoption::LoadCurrent, RecordReply::Loaded(Ok(None))) => RecordAdoption::LoadLegacy,
        (RecordAdoption::LoadLegacy, RecordReply::Loaded(Ok(Some(record)))) => {
            RecordAdoption::SaveCurrent { record }
        },
        (RecordAdoption::LoadLegacy, RecordReply::Loaded(Ok(None))) => {
            RecordAdoption::Finished { outcome: Ok(()) }
        },
        (RecordAdoption::SaveCurrent { .. }, RecordReply::Written(Ok(()))) => {
            RecordAdoption::DeleteLegacy
        },
        (RecordAdoption::DeleteLegacy, RecordReply::Written(outcome)) => {
            RecordAdoption::Finished { outcome }
        },
        (RecordAdoption::LoadCurrent, RecordReply::Loaded(Err(error))) => {
            RecordAdoption::Finished { outcome: Err(error) }
        },
        (RecordAdoption::LoadLegacy, RecordReply::Loaded(Err(error))) => {
            RecordAdoption::Finished { outcome: Err(error) }
        },
        (RecordAdoption::SaveCurrent { .. }, RecordReply::Written(Err(error))) => {
            RecordAdoption::Finished { outcome: Err(error) }
        },
        (stage, _) => stage,
    }
}

/// A record store: what it holds, and how the requests made of it fare. A
/// request that fails changes nothing.
pub struct RecordStore<R, E> {
    /// The records that will not load, by their names, and why. A record that
    /// was sealed under another key is one of them; one that is not there
    /// loads as none, unless something stands in the way of looking.
    pub unreadable: Map<Seq<char>, E>,
    /// Whether records can be saved, or why not.
    pub saving: Result<(), E>,
    /// Whether records can be deleted, or why not.
    pub deleting: Result<(), E>,
    /// The records, by their names.
    pub records: Map<Seq<char>, R>,
}

impl<R, E> RecordStore<R, E> {
    /// The record `name`, if there is one.
    pub open spec fn record(self, name: Seq<char>) -> Option<R> {
        if self.records.contains_key(name) {
            Some(self.records[name])
        } else {
            None
        }
    }

    /// The reply to a load of the record `name`.
    pub open spec fn load(self, name: Seq<char>) -> Result<Option<R>, E> {
        if self.unreadable.contains_key(name) {
            Err(self.unreadable[name])
        } else {
            Ok(self.record(name))
        }
    }

    /// What the store replies at `stage`. Nothing is asked at the end.
    pub open spec fn reply(self, stage: RecordAdoption<R, E>) -> RecordReply<R, E> {
        match stage {
            RecordAdoption::LoadCurrent => RecordReply::Loaded(self.load(IDENTITY_RECORD@)),
            RecordAdoption::LoadLegacy => RecordReply::Loaded(self.load(LEGACY_IDENTITY_RECORD@)),
            RecordAdoption::SaveCurrent { .. } => RecordReply::Written(self.saving),
            RecordAdoption::DeleteLegacy => RecordReply::Written(self.deleting),
            RecordAdoption::Finished { .. } => RecordReply::Written(Ok(())),
        }
    }

    /// The store once it has done what is asked at `stage`.
    pub open spec fn after(self, stage: RecordAdoption<R, E>) -> RecordStore<R, E> {
        match stage {
            RecordAdoption::SaveCurrent { record } => if self.saving is Ok {
                RecordStore { records: self.records.insert(IDENTITY_RECORD@, record), ..self }
            } else {
                self
            },
            RecordAdoption::DeleteLegacy => if self.deleting is Ok {
                RecordStore { records: self.records.remove(LEGACY_IDENTITY_RECORD@), ..self }
            } else {
                self
            },
            _ => self,
        }
    }
}

/// How many requests there can still be.
pub open spec fn requests_left<R, E>(stage: RecordAdoption<R, E>) -> nat {
    match stage {
        RecordAdoption::LoadCurrent => 4,
        RecordAdoption::LoadLegacy => 3,
        RecordAdoption::SaveCurrent { .. } => 2,
        RecordAdoption::DeleteLegacy => 1,
        RecordAdoption::Finished { .. } => 0,
    }
}

/// The outcome of the adoption, and the store that is left behind, when
/// `store` is asked from `stage` on.
pub open spec fn adopted_from<R, E>(
    stage: RecordAdoption<R, E>,
    store: RecordStore<R, E>,
) -> (Result<(), E>, RecordStore<R, E>)
    decreases requests_left(stage),
{
    match stage {
        RecordAdoption::Finished { outcome } => (outcome, store),
        _ => adopted_from(adoption_after(stage, store.reply(stage)), store.after(stage)),
    }
}

/// The outcome of the adoption, and the store that is left behind.
pub open spec fn adopted<R, E>(store: RecordStore<R, E>) -> (Result<(), E>, RecordStore<R, E>) {
    adopted_from(RecordAdoption::LoadCurrent, store)
}

/// The two records have different names.
pub proof fn lemma_names_differ()
    ensures
        IDENTITY_RECORD@ != LEGACY_IDENTITY_RECORD@,
{
    reveal_strlit("hocket/local-identity.json");
    reveal_strlit("strophe/local-identity.json");
    assert(IDENTITY_RECORD@[0] == 'h');
    assert(LEGACY_IDENTITY_RECORD@[0] == 's');
}

/// There is one way for a request to go well.
proof fn lemma_went_well<E>(reply: Result<(), E>)
    requires
        reply is Ok,
    ensures
        reply == Ok::<(), E>(()),
{
    assert(reply->Ok_0 == ());
}

/// Whether `reply` is one to what is asked at `stage`.
pub open spec fn answers<R, E>(stage: RecordAdoption<R, E>, reply: RecordReply<R, E>) -> bool {
    match stage {
        RecordAdoption::LoadCurrent => reply is Loaded,
        RecordAdoption::LoadLegacy => reply is Loaded,
        RecordAdoption::SaveCurrent { .. } => reply is Written,
        RecordAdoption::DeleteLegacy => reply is Written,
        RecordAdoption::Finished { .. } => false,
    }
}

/// Every reply to what was asked leaves fewer requests, so the adoption ends
/// after four of them; any other reply changes nothing.
pub proof fn law_adoption_ends<R, E>(stage: RecordAdoption<R, E>, reply: RecordReply<R, E>)
    ensures
        requests_left(stage) <= 4,
        requests_left(stage) == 0 <==> stage is Finished,
        answers(stage, reply) ==> requests_left(adoption_after(stage, reply)) < requests_left(
            stage,
        ),
        !answers(stage, reply) ==> adoption_after(stage, reply) == stage,
{
}

/// The earlier record is deleted only once it has been sealed under the
/// current name, and what is sealed there is the record that was loaded.
pub proof fn law_saved_before_deleted<R, E>(
    stage: RecordAdoption<R, E>,
    reply: RecordReply<R, E>,
)
    ensures
        stage !is DeleteLegacy && adoption_after(stage, reply) is DeleteLegacy ==> stage
            is SaveCurrent && reply matches RecordReply::Written(Ok(_)),
        stage !is SaveCurrent && adoption_after(stage, reply) is SaveCurrent ==> stage
            is LoadLegacy && (reply matches RecordReply::Loaded(Ok(Some(record)))
            && adoption_after(stage, reply) == RecordAdoption::<R, E>::SaveCurrent { record }),
{
}

/// A record of the earlier name does not displace a current one: where there
/// is a current record, readable or not, nothing is written.
pub proof fn law_current_record_stands<R, E>(store: RecordStore<R, E>)
    requires
        store.records.contains_key(IDENTITY_RECORD@),
    ensures
        adopted(store).1 == store,
        adopted(store).0 is Ok <==> !store.unreadable.contains_key(IDENTITY_RECORD@),
{
    reveal_with_fuel(adopted_from, 5);
}

/// Without a current record, that of the earlier name becomes it as it was,
/// and is gone under the earlier name; no other record changes.
pub proof fn law_earlier_record_is_adopted<R, E>(store: RecordStore<R, E>)
    requires
        !store.unreadable.contains_key(IDENTITY_RECORD@),
        !store.unreadable.contains_key(LEGACY_IDENTITY_RECORD@),
        store.saving is Ok,
        store.deleting is Ok,
        !store.records.contains_key(IDENTITY_RECORD@),
        store.records.contains_key(LEGACY_IDENTITY_RECORD@),
    ensures
        adopted(store).0 is Ok,
        adopted(store).1.records == store.records.insert(
            IDENTITY_RECORD@,
            store.records[LEGACY_IDENTITY_RECORD@],
        ).remove(LEGACY_IDENTITY_RECORD@),
        adopted(store).1.record(IDENTITY_RECORD@) == store.record(LEGACY_IDENTITY_RECORD@),
        adopted(store).1.record(LEGACY_IDENTITY_RECORD@) is None,
{
    lemma_names_differ();
    reveal_with_fuel(adopted_from, 5);
}

/// A record that is looked for and will not load ends the adoption with what
/// was said of it, and the store is as it was found. The current record is
/// looked for first; the earlier one where there is no current one.
pub proof fn law_unreadable_record_ends_adoption<R, E>(store: RecordStore<R, E>)
    ensures
        store.unreadable.contains_key(IDENTITY_RECORD@) ==> adopted(store) == (
            Err::<(), E>(store.unreadable[IDENTITY_RECORD@]),
            store,
        ),
        !store.unreadable.contains_key(IDENTITY_RECORD@) && !store.records.contains_key(
            IDENTITY_RECORD@,
        ) && store.unreadable.contains_key(LEGACY_IDENTITY_RECORD@) ==> adopted(store) == (
            Err::<(), E>(store.unreadable[LEGACY_IDENTITY_RECORD@]),
            store,
        ),
{
    reveal_with_fuel(adopted_from, 5);
}

/// With neither record there is nothing to do.
pub proof fn law_nothing_to_adopt<R, E>(store: RecordStore<R, E>)
    requires
        !store.unreadable.contains_key(IDENTITY_RECORD@),
        !store.unreadable.contains_key(LEGACY_IDENTITY_RECORD@),
        !store.records.contains_key(IDENTITY_RECORD@),
        !store.records.contains_key(LEGACY_IDENTITY_RECORD@),
    ensures
        adopted(store) == (Ok::<(), E>(()), store),
{
    reveal_with_fuel(adopted_from, 5);
}

/// The record that a host would open: the current one, or else the earlier
/// one.
pub open spec fn record_to_open<R, E>(store: RecordStore<R, E>) -> Option<R> {
    match store.record(IDENTITY_RECORD@) {
        Some(record) => Some(record),
        None => store.record(LEGACY_IDENTITY_RECORD@),
    }
}

/// The identity is never lost, whatever fails: the record that a host would
/// open is the same before and after, and every other record is untouched.
pub proof fn law_identity_is_never_lost<R, E>(store: RecordStore<R, E>)
    ensures
        record_to_open(adopted(store).1) == record_to_open(store),
        forall|name: Seq<char>|
            name != IDENTITY_RECORD@ && name != LEGACY_IDENTITY_RECORD@
                ==> #[trigger] adopted(store).1.record(name) == store.record(name),
{
    lemma_names_differ();
    reveal_with_fuel(adopted_from, 5);
}

/// The adoption is done once: after one that went well, the next changes
/// nothing.
pub proof fn law_adopted_once<R, E>(store: RecordStore<R, E>)
    requires
        adopted(store).0 is Ok,
    ensures
        adopted(adopted(store).1) == adopted(store),
{
    lemma_names_differ();
    lemma_went_well(adopted(store).0);
    reveal_with_fuel(adopted_from, 5);
}

/// The identity's record and the one of the earlier name, by their paths.
pub proof fn law_record_paths()
    ensures
        IDENTITY_RECORD@ == "hocket/local-identity.json"@,
        LEGACY_IDENTITY_RECORD@ == "strophe/local-identity.json"@,
        IDENTITY_RECORD@ != LEGACY_IDENTITY_RECORD@,
{
    lemma_names_differ();
}

/// What is loaded first and what is saved is the current record; what is loaded
/// next and what is deleted is the earlier one. Nothing is asked at the end.
pub proof fn law_each_request_names_its_record<R, E>(stage: RecordAdoption<R, E>)
    ensures
        stage is LoadCurrent || stage is SaveCurrent <==> record_asked_about(stage) == Some(
            "hocket/local-identity.json"@,
        ),
        stage is LoadLegacy || stage is DeleteLegacy <==> record_asked_about(stage) == Some(
            "strophe/local-identity.json"@,
        ),
        stage is Finished <==> record_asked_about(stage) is None,
{
    lemma_names_differ();
}

/// The earlier record is looked for only where there is no current one, and
/// what is found there is what is saved; once saved, the earlier one is
/// deleted, and that ends it.
pub proof fn law_adoption_goes_on<R, E>(record: R, saved: R)
    ensures
        adoption_after(RecordAdoption::<R, E>::LoadCurrent, RecordReply::Loaded(Ok(None)))
            is LoadLegacy,
        adoption_after(RecordAdoption::<R, E>::LoadLegacy, RecordReply::Loaded(Ok(Some(record))))
            == (RecordAdoption::<R, E>::SaveCurrent { record }),
        adoption_after(
            (RecordAdoption::<R, E>::SaveCurrent { record: saved }),
            RecordReply::Written(Ok(())),
        ) is DeleteLegacy,
        adoption_after(RecordAdoption::<R, E>::DeleteLegacy, RecordReply::Written(Ok(()))) == (
        RecordAdoption::<R, E>::Finished { outcome: Ok(()) }),
{
}

/// A current record, or none of either name, ends the adoption well, with
/// nothing saved or deleted.
pub proof fn law_adoption_has_nothing_to_do<R, E>(record: R)
    ensures
        adoption_after(RecordAdoption::<R, E>::LoadCurrent, RecordReply::Loaded(Ok(Some(record))))
            == (RecordAdoption::<R, E>::Finished { outcome: Ok(()) }),
        adoption_after(RecordAdoption::<R, E>::LoadLegacy, RecordReply::Loaded(Ok(None))) == (
        RecordAdoption::<R, E>::Finished { outcome: Ok(()) }),
{
}

/// Whatever fails ends the adoption with what was said of it.
pub proof fn law_adoption_failures_are_told<R, E>(stage: RecordAdoption<R, E>, error: E)
    ensures
        stage is LoadCurrent || stage is LoadLegacy ==> adoption_after(
            stage,
            RecordReply::Loaded(Err(error)),
        ) == (RecordAdoption::<R, E>::Finished { outcome: Err(error) }),
        stage is SaveCurrent || stage is DeleteLegacy ==> adoption_after(
            stage,
            RecordReply::Written(Err(error)),
        ) == (RecordAdoption::<R, E>::Finished { outcome: Err(error) }),
{
}

/// A reply to something that was not asked changes nothing, and at the end
/// nothing does.
pub proof fn law_unasked_record_reply_changes_nothing<R, E>(
    stage: RecordAdoption<R, E>,
    reply: RecordReply<R, E>,
)
    requires
        stage is LoadCurrent || stage is LoadLegacy ==> reply !is Loaded,
        stage is SaveCurrent || stage is DeleteLegacy ==> reply !is Written,
    ensures
        adoption_after(stage, reply) == stage,
{
}

} // verus!
