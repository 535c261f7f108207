//! Opening a host's identity: its data directory, its unlock root, its sealed
//! records and its place in the shared vault, one after the other.
//!
//! All of that is on disk, so the work is split as elsewhere: a stage says what
//! to ask next, the host asks it, and [`LocalIdentity::open_with_root`] or
//! [`LocalIdentity::open_default`] turns the reply into the next stage.

use vstd::prelude::*;

use crate::identity::{Identity, LocalIdentity};
use crate::key::PublicKey;
use crate::records::{IDENTITY_RECORD, RecordAdoption, RecordReply, adopt_legacy_record};
use crate::roots::{
    DataRoot, Directory, EnvRoots, RootAdoption, RootReply, RootStage, adopt_legacy_data_root,
    default_data_root, legacy_data_root,
};
use crate::settle::{Reply, Settlement, Stage, VaultReply};

verus! {

/// How far the opening of the sealed records has come, and so what is to be
/// asked of the store next.
pub enum RecordsOpening<R, E> {
    /// Go on adopting the record of the earlier name.
    Adopt { adoption: RecordAdoption<R, E> },
    /// Load the identity in the record `record`, or create and seal one there.
    LoadIdentity { record: &'static str },
    /// Nothing more to ask.
    Finished { outcome: Result<LocalIdentity, E> },
}

/// What the store replied.
pub enum RecordsReply<R, E> {
    /// To what the adoption asked.
    Record(RecordReply<R, E>),
    /// The public key of the identity that was loaded or created.
    Identity(Result<PublicKey, E>),
}

/// A [`RecordsOpening`] in terms of characters and bytes.
pub enum RecordsStage<R, E> {
    /// Go on adopting.
    Adopt { adoption: RecordAdoption<R, E> },
    /// Load or create the identity.
    LoadIdentity { record: Seq<char> },
    /// The end.
    Finished { outcome: Result<Identity, E> },
}

/// A [`RecordsReply`] with its key as bytes.
pub enum RecordsAnswer<R, E> {
    /// To what the adoption asked.
    Record(RecordReply<R, E>),
    /// The key of the identity.
    Identity(Result<Seq<u8>, E>),
}

impl<R, E> View for RecordsOpening<R, E> {
    type V = RecordsStage<R, E>;

    open spec fn view(&self) -> RecordsStage<R, E> {
        match self {
            RecordsOpening::Adopt { adoption } => RecordsStage::Adopt { adoption: *adoption },
            RecordsOpening::LoadIdentity { record } => RecordsStage::LoadIdentity {
                record: record@,
            },
            RecordsOpening::Finished { outcome: Ok(identity) } => RecordsStage::Finished {
                outcome: Ok(identity@),
            },
            RecordsOpening::Finished { outcome: Err(error) } => RecordsStage::Finished {
                outcome: Err(*error),
            },
        }
    }
}

impl<R, E> View for RecordsReply<R, E> {
    type V = RecordsAnswer<R, E>;

    open spec fn view(&self) -> RecordsAnswer<R, E> {
        match self {
            RecordsReply::Record(reply) => RecordsAnswer::Record(*reply),
            RecordsReply::Identity(Ok(key)) => RecordsAnswer::Identity(Ok(key@)),
            RecordsReply::Identity(Err(error)) => RecordsAnswer::Identity(Err(*error)),
        }
    }
}

/// The stage of the opening once `reply` came in at `stage`: the identity is
/// loaded when the adoption went well, and is then known by the key that came.
/// A reply to something that was not asked changes nothing.
pub open spec fn records_stage_after<R, E>(
    stage: RecordsStage<R, E>,
    reply: RecordsAnswer<R, E>,
) -> RecordsStage<R, E> {
    match (stage, reply) {
        (RecordsStage::Adopt { adoption }, RecordsAnswer::Record(reply)) =>
            match crate::records::adoption_after(adoption, reply) {
                RecordAdoption::Finished { outcome: Ok(_) } => RecordsStage::LoadIdentity {
                    record: IDENTITY_RECORD@,
                },
                RecordAdoption::Finished { outcome: Err(error) } => RecordsStage::Finished {
                    outcome: Err(error),
                },
                adoption => RecordsStage::Adopt { adoption },
            },
        (RecordsStage::LoadIdentity { .. }, RecordsAnswer::Identity(Ok(key))) =>
            RecordsStage::Finished {
            outcome: Ok(Identity { key, home: crate::identity::unconsulted() }),
        },
        (RecordsStage::LoadIdentity { .. }, RecordsAnswer::Identity(Err(error))) =>
            RecordsStage::Finished { outcome: Err(error) },
        _ => stage,
    }
}

impl LocalIdentity {
    /// Opens the identity in a store of sealed records, one reply at a time,
    /// from [`RecordAdoption::LoadCurrent`] on.
    pub fn open_with_root<R, E>(stage: RecordsOpening<R, E>, reply: RecordsReply<R, E>) -> (next:
        RecordsOpening<R, E>)
        ensures
            next@ == records_stage_after(stage@, reply@),
    {
        match (stage, reply) {
            (RecordsOpening::Adopt { adoption }, RecordsReply::Record(reply)) => {
                match adopt_legacy_record(adoption, reply) {
                    RecordAdoption::Finished { outcome: Ok(_) } => {
                        RecordsOpening::LoadIdentity { record: IDENTITY_RECORD }
                    },
                    RecordAdoption::Finished { outcome: Err(error) } => {
                        RecordsOpening::Finished { outcome: Err(error) }
                    },
                    adoption => RecordsOpening::Adopt { adoption },
                }
            },
            (RecordsOpening::LoadIdentity { .. }, RecordsReply::Identity(Ok(key))) => {
                RecordsOpening::Finished { outcome: Ok(LocalIdentity::new(key)) }
            },
            (RecordsOpening::LoadIdentity { .. }, RecordsReply::Identity(Err(error))) => {
                RecordsOpening::Finished { outcome: Err(error) }
            },
            (stage, _) => stage,
        }
    }
}

/// Why an identity did not open. `E` is how the outside fails.
#[derive(Debug, PartialEq, Eq)]
pub enum OpenError<E> {
    /// Something is wrong with this machine, in words.
    Backend(String),
    /// What the outside said, as it said it.
    Outside(E),
}

/// An [`OpenError`] with its words as characters.
pub enum OpenFailure<E> {
    /// In words.
    Backend(Seq<char>),
    /// As the outside said it.
    Outside(E),
}

impl<E> View for OpenError<E> {
    type V = OpenFailure<E>;

    open spec fn view(&self) -> OpenFailure<E> {
        match self {
            OpenError::Backend(message) => OpenFailure::Backend(message@),
            OpenError::Outside(error) => OpenFailure::Outside(*error),
        }
    }
}

/// Where the auto-unlock root is kept, seen from the data directory.
pub const AUTO_UNLOCK_ROOT: &'static str = "personae/auto-unlock-root.json";

/// Where the sealed records are kept, seen from the data directory.
pub const RECORDS: &'static str = "personae/records";

/// How far the opening of the host's identity has come, and so what is to be
/// asked next.
pub enum Opening<'a, P, R, E> {
    /// Go on moving the data directory of the earlier name.
    AdoptRoot { data_root: DataRoot<'a, P>, adoption: RootAdoption<'a, P> },
    /// Load the unlock root at `below`, seen from `data_root`, or create it.
    Unlock { data_root: DataRoot<'a, P>, below: &'static str },
    /// Go on opening the records at `below`, seen from `data_root`, under the
    /// key `root_key`.
    OpenRecords {
        data_root: DataRoot<'a, P>,
        below: &'static str,
        root_key: [u8; 32],
        records: RecordsOpening<R, E>,
    },
    /// Go on settling `identity` in the shared vault.
    Settle { identity: LocalIdentity, settlement: Settlement },
    /// Nothing more to ask.
    Finished { outcome: Result<LocalIdentity, OpenError<E>> },
}

/// What was replied.
pub enum OpenReply<R, E> {
    /// By the file system, to what moving the data directory asked.
    Root(RootReply),
    /// The unlock root, where this platform has one.
    Unlocked(Result<Option<[u8; 32]>, E>),
    /// By the record store.
    Records(RecordsReply<R, E>),
    /// By the vault.
    Vault(VaultReply),
}

/// An [`Opening`] in terms of characters and bytes.
pub enum OpenStage<P, R, E> {
    /// Go on moving the data directory.
    AdoptRoot { data_root: Directory<P>, adoption: RootStage<P> },
    /// Load or create the unlock root.
    Unlock { data_root: Directory<P>, below: Seq<char> },
    /// Go on opening the records.
    OpenRecords {
        data_root: Directory<P>,
        below: Seq<char>,
        root_key: Seq<u8>,
        records: RecordsStage<R, E>,
    },
    /// Go on settling.
    Settle { identity: Identity, settlement: Stage },
    /// The end.
    Finished { outcome: Result<Identity, OpenFailure<E>> },
}

/// An [`OpenReply`] in terms of characters and bytes.
pub enum OpenAnswer<R, E> {
    /// By the file system.
    Root(RootReply),
    /// The unlock root, where there is one.
    Unlocked(Result<Option<Seq<u8>>, E>),
    /// By the record store.
    Records(RecordsAnswer<R, E>),
    /// By the vault.
    Vault(Reply),
}

impl<'a, P, R, E> View for Opening<'a, P, R, E> {
    type V = OpenStage<P, R, E>;

    open spec fn view(&self) -> OpenStage<P, R, E> {
        match self {
            Opening::AdoptRoot { data_root, adoption } => OpenStage::AdoptRoot {
                data_root: data_root@,
                adoption: adoption@,
            },
            Opening::Unlock { data_root, below } => OpenStage::Unlock {
                data_root: data_root@,
                below: below@,
            },
            Opening::OpenRecords { data_root, below, root_key, records } =>
                OpenStage::OpenRecords {
                data_root: data_root@,
                below: below@,
                root_key: root_key@,
                records: records@,
            },
            Opening::Settle { identity, settlement } => OpenStage::Settle {
                identity: identity@,
                settlement: settlement@,
            },
            Opening::Finished { outcome: Ok(identity) } => OpenStage::Finished {
                outcome: Ok(identity@),
            },
            Opening::Finished { outcome: Err(error) } => OpenStage::Finished {
                outcome: Err(error@),
            },
        }
    }
}

impl<R, E> View for OpenReply<R, E> {
    type V = OpenAnswer<R, E>;

    open spec fn view(&self) -> OpenAnswer<R, E> {
        match self {
            OpenReply::Root(reply) => OpenAnswer::Root(*reply),
            OpenReply::Unlocked(Ok(Some(root_key))) => OpenAnswer::Unlocked(Ok(Some(root_key@))),
            OpenReply::Unlocked(Ok(None)) => OpenAnswer::Unlocked(Ok(None)),
            OpenReply::Unlocked(Err(error)) => OpenAnswer::Unlocked(Err(*error)),
            OpenReply::Records(reply) => OpenAnswer::Records(reply@),
            OpenReply::Vault(reply) => OpenAnswer::Vault(reply@),
        }
    }
}

/// Where opening starts, given the directories that the environment names.
pub open spec fn open_start<P, R, E>(roots: EnvRoots<P>) -> OpenStage<P, R, E> {
    match crate::roots::current_root(roots) {
        Some(data_root) => OpenStage::AdoptRoot {
            data_root,
            adoption: RootStage::CheckCurrent {
                data_root,
                earlier: crate::roots::earlier_root(roots),
            },
        },
        None => OpenStage::Finished {
            outcome: Err(
                OpenFailure::Backend("could not determine Hocket's local data directory"@),
            ),
        },
    }
}

/// The stage of the opening once `reply` came in at `stage`: each part is begun
/// when the one before it went well, and a failure before the vault is asked
/// ends it all. A reply to something that was not asked changes nothing.
pub open spec fn open_stage_after<P, R, E>(
    stage: OpenStage<P, R, E>,
    reply: OpenAnswer<R, E>,
) -> OpenStage<P, R, E> {
    match (stage, reply) {
        (OpenStage::AdoptRoot { data_root, adoption }, OpenAnswer::Root(reply)) =>
            match crate::roots::root_stage_after(adoption, reply) {
                RootStage::Finished { outcome: Ok(_) } => OpenStage::Unlock {
                    data_root,
                    below: AUTO_UNLOCK_ROOT@,
                },
                RootStage::Finished { outcome: Err(message) } => OpenStage::Finished {
                    outcome: Err(OpenFailure::Backend(message)),
                },
                adoption => OpenStage::AdoptRoot { data_root, adoption },
            },
        (OpenStage::Unlock { data_root, .. }, OpenAnswer::Unlocked(Ok(Some(root_key)))) =>
            OpenStage::OpenRecords {
            data_root,
            below: RECORDS@,
            root_key,
            records: RecordsStage::Adopt { adoption: RecordAdoption::LoadCurrent },
        },
        (OpenStage::Unlock { .. }, OpenAnswer::Unlocked(Ok(None))) => OpenStage::Finished {
            outcome: Err(
                OpenFailure::Backend(
                    "OS-protected automatic identity unlock is unavailable on this platform"@,
                ),
            ),
        },
        (OpenStage::Unlock { .. }, OpenAnswer::Unlocked(Err(error))) => OpenStage::Finished {
            outcome: Err(OpenFailure::Outside(error)),
        },
        (
            OpenStage::OpenRecords { data_root, below, root_key, records },
            OpenAnswer::Records(reply),
        ) => match records_stage_after(records, reply) {
            RecordsStage::Finished { outcome: Ok(identity) } => OpenStage::Settle {
                identity,
                settlement: Stage::OpenVault,
            },
            RecordsStage::Finished { outcome: Err(error) } => OpenStage::Finished {
                outcome: Err(OpenFailure::Outside(error)),
            },
            records => OpenStage::OpenRecords { data_root, below, root_key, records },
        },
        (OpenStage::Settle { identity, settlement }, OpenAnswer::Vault(reply)) =>
            match crate::settle::stage_after(identity.key, settlement, reply) {
                Stage::Settled { home } => OpenStage::Finished {
                    outcome: Ok(Identity { key: identity.key, home }),
                },
                settlement => OpenStage::Settle { identity, settlement },
            },
        _ => stage,
    }
}

impl LocalIdentity {
    /// Where opening the host's identity starts: the data directory under
    /// the directories that the environment names.
    pub fn begin_opening<'a, P, R, E>(roots: &'a EnvRoots<P>) -> (stage: Opening<'a, P, R, E>)
        ensures
            stage@ == open_start::<P, R, E>(*roots),
    {
        match default_data_root(roots) {
            Ok(data_root) => {
                let earlier = legacy_data_root(roots);
                Opening::AdoptRoot {
                    data_root,
                    adoption: RootAdoption::CheckCurrent { data_root, earlier },
                }
            },
            Err(message) => Opening::Finished { outcome: Err(OpenError::Backend(message)) },
        }
    }

    /// Loads or creates the identity under Hocket's platform data directory,
    /// then places it in the shared vault when that can be done without
    /// changing anybody's key; one reply at a time, from
    /// [`begin_opening`](Self::begin_opening) on.
    pub fn open_default<'a, P, R, E>(
        stage: Opening<'a, P, R, E>,
        reply: OpenReply<R, E>,
    ) -> (next: Opening<'a, P, R, E>)
        ensures
            next@ == open_stage_after(stage@, reply@),
            stage is Unlock && (reply matches OpenReply::Unlocked(Ok(Some(_)))) ==> next
                is OpenRecords && next->root_key == reply->Unlocked_0->Ok_0->Some_0,
            stage is OpenRecords && next is OpenRecords ==> next->root_key == stage->root_key,
    {
        match (stage, reply) {
            (Opening::AdoptRoot { data_root, adoption }, OpenReply::Root(reply)) => {
                match adopt_legacy_data_root(adoption, reply) {
                    RootAdoption::Finished { outcome: Ok(_) } => {
                        Opening::Unlock { data_root, below: AUTO_UNLOCK_ROOT }
                    },
                    RootAdoption::Finished { outcome: Err(message) } => {
                        Opening::Finished { outcome: Err(OpenError::Backend(message)) }
                    },
                    adoption => Opening::AdoptRoot { data_root, adoption },
                }
            },
            (Opening::Unlock { data_root, .. }, OpenReply::Unlocked(Ok(Some(root_key)))) => {
                Opening::OpenRecords {
                    data_root,
                    below: RECORDS,
                    root_key,
                    records: RecordsOpening::Adopt { adoption: RecordAdoption::LoadCurrent },
                }
            },
            (Opening::Unlock { .. }, OpenReply::Unlocked(Ok(None))) => {
                Opening::Finished {
                    outcome: Err(
                        OpenError::Backend(
                            "OS-protected automatic identity unlock is unavailable on this platform".to_owned(),
                        ),
                    ),
                }
            },
            (Opening::Unlock { .. }, OpenReply::Unlocked(Err(error))) => {
                Opening::Finished { outcome: Err(OpenError::Outside(error)) }
            },
            (
                Opening::OpenRecords { data_root, below, root_key, records },
                OpenReply::Records(reply),
            ) => {
                match LocalIdentity::open_with_root(records, reply) {
                    RecordsOpening::Finished { outcome: Ok(identity) } => {
                        Opening::Settle { identity, settlement: Settlement::OpenVault }
                    },
                    RecordsOpening::Finished { outcome: Err(error) } => {
                        Opening::Finished { outcome: Err(OpenError::Outside(error)) }
                    },
                    records => Opening::OpenRecords { data_root, below, root_key, records },
                }
            },
            (Opening::Settle { identity, settlement }, OpenReply::Vault(reply)) => {
                match identity.settle_home_with(settlement, reply) {
                    Settlement::Settled { home } => {
                        let mut identity = identity;
                        identity.settle(home);
                        Opening::Finished { outcome: Ok(identity) }
                    },
                    settlement => Opening::Settle { identity, settlement },
                }
            },
            (stage, _) => stage,
        }
    }
}

/// An opening starts in the directories that the environment names: it looks
/// for the data directory, and has the one of the earlier name beside it in
/// mind. `LOCALAPPDATA` comes before `XDG_DATA_HOME`, and that before `HOME`.
/// Where none is set, the opening ends and says so.
pub proof fn law_opening_starts_in_the_named_directories<P, R, E>(roots: EnvRoots<P>)
    ensures
        ({
            let start = open_start::<P, R, E>(roots);
            let looks_for = |base: P, name: Seq<char>, earlier: Seq<char>|
                start == (OpenStage::<P, R, E>::AdoptRoot {
                    data_root: Directory { base, below: name },
                    adoption: RootStage::CheckCurrent {
                        data_root: Directory { base, below: name },
                        earlier: Some(Directory { base, below: earlier }),
                    },
                });
            match (roots.local_app_data, roots.xdg_data_home, roots.home) {
                (Some(base), _, _) => looks_for(base, "Hocket"@, "Strophe"@),
                (None, Some(base), _) => looks_for(base, "hocket"@, "strophe"@),
                (None, None, Some(base)) => looks_for(
                    base,
                    ".local/share/hocket"@,
                    ".local/share/strophe"@,
                ),
                (None, None, None) => start == (OpenStage::<P, R, E>::Finished {
                    outcome: Err(
                        OpenFailure::Backend("could not determine Hocket's local data directory"@),
                    ),
                }),
            }
        }),
{
}

/// The directory that an opening looks for and the one that it may move are
/// never the same.
pub proof fn law_opening_moves_another_directory<P, R, E>(roots: EnvRoots<P>)
    ensures
        open_start::<P, R, E>(roots) matches OpenStage::AdoptRoot { data_root, adoption } ==> {
            &&& adoption matches RootStage::CheckCurrent { data_root: sought, earlier: Some(legacy) }
            &&& sought == data_root
            &&& legacy.base == data_root.base
            &&& legacy != data_root
        },
{
    crate::roots::law_roots_lie_side_by_side(roots);
}

/// A data directory that is in place is unlocked where its unlock root is kept;
/// one that could not be put in place ends the opening with what was said; and
/// until then it is the same directory that is being put in place.
pub proof fn law_directory_comes_first<P, R, E>(
    data_root: Directory<P>,
    adoption: RootStage<P>,
    reply: RootReply,
)
    ensures
        ({
            let moved = crate::roots::root_stage_after(adoption, reply);
            let next = open_stage_after(
                OpenStage::<P, R, E>::AdoptRoot { data_root, adoption },
                OpenAnswer::Root(reply),
            );
            match moved {
                RootStage::Finished { outcome: Ok(_) } => next == (OpenStage::<P, R, E>::Unlock {
                    data_root,
                    below: "personae/auto-unlock-root.json"@,
                }),
                RootStage::Finished { outcome: Err(message) } => next == (OpenStage::<
                    P,
                    R,
                    E,
                >::Finished { outcome: Err(OpenFailure::Backend(message)) }),
                _ => next == (OpenStage::<P, R, E>::AdoptRoot { data_root, adoption: moved }),
            }
        }),
{
}

/// The records are opened under the unlock root that came, where they are kept
/// in the same data directory, and from the start. Without one the opening ends
/// and says so.
pub proof fn law_records_are_opened_under_the_unlock_root<P, R, E>(
    data_root: Directory<P>,
    below: Seq<char>,
    root_key: Seq<u8>,
    error: E,
)
    ensures
        ({
            let stage = OpenStage::<P, R, E>::Unlock { data_root, below };
            &&& open_stage_after(stage, OpenAnswer::Unlocked(Ok(Some(root_key)))) == (OpenStage::<
                P,
                R,
                E,
            >::OpenRecords {
                data_root,
                below: "personae/records"@,
                root_key,
                records: RecordsStage::Adopt { adoption: RecordAdoption::LoadCurrent },
            })
            &&& open_stage_after(stage, OpenAnswer::Unlocked(Ok(None))) == (OpenStage::<
                P,
                R,
                E,
            >::Finished {
                outcome: Err(
                    OpenFailure::Backend(
                        "OS-protected automatic identity unlock is unavailable on this platform"@,
                    ),
                ),
            })
            &&& open_stage_after(stage, OpenAnswer::Unlocked(Err(error))) == (OpenStage::<
                P,
                R,
                E,
            >::Finished { outcome: Err(OpenFailure::Outside(error)) })
        }),
{
}

/// The unlock root, the data directory and the place of the records stay what
/// they are for as long as records are being opened, whatever is replied; and
/// no other stage than unlocking leads there.
pub proof fn law_unlock_root_is_kept<P, R, E>(
    stage: OpenStage<P, R, E>,
    reply: OpenAnswer<R, E>,
)
    ensures
        open_stage_after(stage, reply) matches OpenStage::OpenRecords {
            data_root,
            below,
            root_key,
            ..
        } ==> {
            ||| {
                &&& stage matches OpenStage::OpenRecords {
                    data_root: in_root,
                    below: at,
                    root_key: under,
                    ..
                }
                &&& in_root == data_root
                &&& at == below
                &&& under == root_key
            }
            ||| {
                &&& stage matches OpenStage::Unlock { data_root: in_root, .. }
                &&& in_root == data_root
                &&& below == "personae/records"@
                &&& reply == OpenAnswer::<R, E>::Unlocked(Ok(Some(root_key)))
            }
        },
{
}

/// An identity that the records give is settled as it came, from the start; one
/// that they do not give ends the opening with what was said of them; and until
/// then the records go on being opened.
pub proof fn law_records_come_before_the_vault<P, R, E>(
    data_root: Directory<P>,
    below: Seq<char>,
    root_key: Seq<u8>,
    records: RecordsStage<R, E>,
    reply: RecordsAnswer<R, E>,
)
    ensures
        ({
            let opened = records_stage_after(records, reply);
            let next = open_stage_after(
                OpenStage::<P, R, E>::OpenRecords { data_root, below, root_key, records },
                OpenAnswer::Records(reply),
            );
            match opened {
                RecordsStage::Finished { outcome: Ok(identity) } => next == (OpenStage::<
                    P,
                    R,
                    E,
                >::Settle { identity, settlement: Stage::OpenVault }),
                RecordsStage::Finished { outcome: Err(error) } => next == (OpenStage::<
                    P,
                    R,
                    E,
                >::Finished { outcome: Err(OpenFailure::Outside(error)) }),
                _ => next == (OpenStage::<P, R, E>::OpenRecords {
                    data_root,
                    below,
                    root_key,
                    records: opened,
                }),
            }
        }),
{
}

/// An identity opens with its own key in the home that settling found, and goes
/// on settling until one is found.
pub proof fn law_home_comes_last<P, R, E>(identity: Identity, settlement: Stage, reply: Reply)
    ensures
        ({
            let asked = crate::settle::stage_after(identity.key, settlement, reply);
            let next = open_stage_after(
                OpenStage::<P, R, E>::Settle { identity, settlement },
                OpenAnswer::Vault(reply),
            );
            match asked {
                Stage::Settled { home } => next == (OpenStage::<P, R, E>::Finished {
                    outcome: Ok(Identity { key: identity.key, home }),
                }),
                _ => next == (OpenStage::<P, R, E>::Settle { identity, settlement: asked }),
            }
        }),
{
}

/// A reply to something that was not asked changes nothing, and at the end
/// nothing does.
pub proof fn law_unasked_reply_changes_nothing<P, R, E>(
    stage: OpenStage<P, R, E>,
    reply: OpenAnswer<R, E>,
)
    requires
        stage is AdoptRoot ==> reply !is Root,
        stage is Unlock ==> reply !is Unlocked,
        stage is OpenRecords ==> reply !is Records,
        stage is Settle ==> reply !is Vault,
    ensures
        open_stage_after(stage, reply) == stage,
{
}

/// The earlier record is adopted first. When that went well the identity is
/// loaded from the current record, or created there; when it did not, the
/// opening ends with what was said.
pub proof fn law_identity_is_loaded_after_the_adoption<R, E>(
    adoption: RecordAdoption<R, E>,
    reply: RecordReply<R, E>,
)
    ensures
        ({
            let adopted = crate::records::adoption_after(adoption, reply);
            let next = records_stage_after(
                RecordsStage::Adopt { adoption },
                RecordsAnswer::Record(reply),
            );
            match adopted {
                RecordAdoption::Finished { outcome: Ok(_) } => next == (RecordsStage::<
                    R,
                    E,
                >::LoadIdentity { record: "hocket/local-identity.json"@ }),
                RecordAdoption::Finished { outcome: Err(error) } => next == (RecordsStage::<
                    R,
                    E,
                >::Finished { outcome: Err(error) }),
                _ => next == (RecordsStage::Adopt { adoption: adopted }),
            }
        }),
{
}

/// The identity is known by the key that was loaded, and lives on this machine
/// only while the vault has not been asked; a failure to load is told as it
/// came.
pub proof fn law_identity_is_known_by_the_loaded_key<R, E>(
    record: Seq<char>,
    key: Seq<u8>,
    error: E,
)
    ensures
        ({
            let stage = RecordsStage::<R, E>::LoadIdentity { record };
            &&& records_stage_after(stage, RecordsAnswer::Identity(Ok(key))) == (RecordsStage::<
                R,
                E,
            >::Finished {
                outcome: Ok(
                    Identity {
                        key,
                        home: crate::home::Home::Local {
                            reason: "the shared vault was not consulted"@,
                        },
                    },
                ),
            })
            &&& records_stage_after(stage, RecordsAnswer::Identity(Err(error))) == (RecordsStage::<
                R,
                E,
            >::Finished { outcome: Err(error) })
        }),
{
}

/// A reply to something that was not asked changes nothing, and at the end
/// nothing does.
pub proof fn law_unasked_records_reply_changes_nothing<R, E>(
    stage: RecordsStage<R, E>,
    reply: RecordsAnswer<R, E>,
)
    requires
        stage is Adopt ==> reply !is Record,
        stage is LoadIdentity ==> reply !is Identity,
    ensures
        records_stage_after(stage, reply) == stage,
{
}

/// A stage of opening the records is seen as what it is, with what it holds.
pub proof fn law_records_opening_is_seen_as_it_is<R, E>(stage: RecordsOpening<R, E>)
    ensures
        match stage {
            RecordsOpening::Adopt { adoption } => stage@ == (RecordsStage::Adopt { adoption }),
            RecordsOpening::LoadIdentity { record } => stage@ == (RecordsStage::<
                R,
                E,
            >::LoadIdentity { record: record@ }),
            RecordsOpening::Finished { outcome: Ok(identity) } => stage@ == (RecordsStage::<
                R,
                E,
            >::Finished { outcome: Ok(identity@) }),
            RecordsOpening::Finished { outcome: Err(error) } => stage@ == (RecordsStage::<
                R,
                E,
            >::Finished { outcome: Err(error) }),
        },
{
}

/// A stage of an opening is seen as what it is, with what it holds.
pub proof fn law_opening_is_seen_as_it_is<'a, P, R, E>(stage: Opening<'a, P, R, E>)
    ensures
        match stage {
            Opening::AdoptRoot { data_root, adoption } => stage@ == (OpenStage::<
                P,
                R,
                E,
            >::AdoptRoot { data_root: data_root@, adoption: adoption@ }),
            Opening::Unlock { data_root, below } => stage@ == (OpenStage::<P, R, E>::Unlock {
                data_root: data_root@,
                below: below@,
            }),
            Opening::OpenRecords { data_root, below, root_key, records } => stage@ == (OpenStage::<
                P,
                R,
                E,
            >::OpenRecords {
                data_root: data_root@,
                below: below@,
                root_key: root_key@,
                records: records@,
            }),
            Opening::Settle { identity, settlement } => stage@ == (OpenStage::<P, R, E>::Settle {
                identity: identity@,
                settlement: settlement@,
            }),
            Opening::Finished { outcome: Ok(identity) } => stage@ == (OpenStage::<
                P,
                R,
                E,
            >::Finished { outcome: Ok(identity@) }),
            Opening::Finished { outcome: Err(OpenError::Backend(message)) } => stage@ == (
            OpenStage::<P, R, E>::Finished { outcome: Err(OpenFailure::Backend(message@)) }),
            Opening::Finished { outcome: Err(OpenError::Outside(error)) } => stage@ == (OpenStage::<
                P,
                R,
                E,
            >::Finished { outcome: Err(OpenFailure::Outside(error)) }),
        },
{
}

/// A reply to an opening is seen as what it is, with what it holds.
pub proof fn law_opening_reply_is_seen_as_it_is<R, E>(reply: OpenReply<R, E>)
    ensures
        match reply {
            OpenReply::Root(said) => reply@ == OpenAnswer::<R, E>::Root(said),
            OpenReply::Unlocked(Ok(Some(root_key))) => reply@ == OpenAnswer::<R, E>::Unlocked(
                Ok(Some(root_key@)),
            ),
            OpenReply::Unlocked(Ok(None)) => reply@ == OpenAnswer::<R, E>::Unlocked(Ok(None)),
            OpenReply::Unlocked(Err(error)) => reply@ == OpenAnswer::<R, E>::Unlocked(Err(error)),
            OpenReply::Records(RecordsReply::Record(said)) => reply@ == OpenAnswer::Records(
                RecordsAnswer::Record(said),
            ),
            OpenReply::Records(RecordsReply::Identity(Ok(key))) => reply@ == OpenAnswer::<
                R,
                E,
            >::Records(RecordsAnswer::Identity(Ok(key@))),
            OpenReply::Records(RecordsReply::Identity(Err(error))) => reply@ == OpenAnswer::<
                R,
                E,
            >::Records(RecordsAnswer::Identity(Err(error))),
            OpenReply::Vault(said) => reply@ == OpenAnswer::<R, E>::Vault(said@),
        },
{
}

} // verus!
