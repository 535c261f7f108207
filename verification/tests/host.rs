//! The stages, run against real sealed records and real vaults.

use std::path::Path;

use hocket_genet::opening::{OpenError, OpenReply, Opening, RecordsOpening, RecordsReply};
use hocket_genet::records::{
    IDENTITY_RECORD, LEGACY_IDENTITY_RECORD, RecordAdoption, RecordReply,
};
use hocket_genet::roots::{EnvRoots, RootAdoption, RootReply};
use hocket_genet::settle::{Settlement, VaultReply};
use hocket_genet::{IdentityHome, LocalIdentity, PublicKey};
use personae::bootstrap::{self, Unlock};
use personae::roster;
use personae::vault::{IdentityStorage, ProfileId};
use personae::{IdentityError, IdentityProvider, SealedIdentityProvider, SealedRecordStorage};
use serde_json::Value;

/// An opened identity, with the provider that holds its secret.
struct Host {
    identity: LocalIdentity,
    provider: SealedIdentityProvider,
}

impl Host {
    fn master_public_key(&self) -> [u8; 32] {
        assert_eq!(
            self.identity.master_public_key().to_bytes(),
            self.provider.master_public_key().to_bytes()
        );
        self.identity.master_public_key().to_bytes()
    }

    fn settle_home_with(&self, vault_dir: &Path, unlock: Unlock) -> IdentityHome {
        let mut vault = Vault { dir: vault_dir, unlock: Some(unlock), storage: None };
        let mut stage = Settlement::OpenVault;
        while !matches!(stage, Settlement::Settled { .. }) {
            let reply = vault.ask(&stage, &self.provider);
            stage = self.identity.settle_home_with(stage, reply);
        }
        match stage {
            Settlement::Settled { home } => home,
            _ => unreachable!(),
        }
    }
}

/// A real vault, as far as it was opened.
struct Vault<'a> {
    dir: &'a Path,
    unlock: Option<Unlock>,
    storage: Option<Box<dyn IdentityStorage>>,
}

impl Vault<'_> {
    fn ask(&mut self, stage: &Settlement, provider: &SealedIdentityProvider) -> VaultReply {
        match stage {
            Settlement::OpenVault => {
                let opened = bootstrap::open_storage(self.dir, self.unlock.take().unwrap());
                VaultReply::Opened(match opened {
                    Ok(opened) => {
                        self.storage = Some(opened.storage);
                        Ok(opened.description)
                    }
                    Err(error) => Err(error.to_string()),
                })
            }
            Settlement::ResolvePersona { .. } => VaultReply::Resolved(
                roster::resolve_profile(&**self.storage.as_ref().unwrap(), self.dir)
                    .map(|id| id.0)
                    .map_err(|error| error.to_string()),
            ),
            Settlement::LoadPersona { profile, .. } => VaultReply::Loaded(
                self.storage
                    .as_ref()
                    .unwrap()
                    .load_profile(&ProfileId(profile.clone()))
                    .map(|profile| profile.master.public_key().to_bytes())
                    .map_err(|error| error.to_string()),
            ),
            Settlement::ImportPersona { profile, display_name, master, .. } => {
                let keypair = provider.master_keypair().clone();
                assert_eq!(&keypair.public_key().to_bytes(), master);
                VaultReply::Imported(
                    roster::import_profile(
                        &**self.storage.as_ref().unwrap(),
                        &ProfileId(profile.clone()),
                        display_name.clone(),
                        keypair,
                    )
                    .map(|_| ())
                    .map_err(|error| error.to_string()),
                )
            }
            Settlement::Settled { .. } => panic!("nothing is asked once all is settled"),
        }
    }
}

fn ask_records(
    records: &SealedRecordStorage,
    adoption: &RecordAdoption<Value, IdentityError>,
) -> RecordReply<Value, IdentityError> {
    let name = adoption.record_name().unwrap();
    match adoption {
        RecordAdoption::LoadCurrent | RecordAdoption::LoadLegacy => {
            RecordReply::Loaded(records.load_record::<Value>(name))
        }
        RecordAdoption::SaveCurrent { record } => {
            RecordReply::Written(records.save_record(name, record))
        }
        RecordAdoption::DeleteLegacy => RecordReply::Written(records.delete_record(name)),
        RecordAdoption::Finished { .. } => panic!("nothing is asked at the end"),
    }
}

fn ask_opening(
    records: &SealedRecordStorage,
    stage: &RecordsOpening<Value, IdentityError>,
    provider: &mut Option<SealedIdentityProvider>,
) -> RecordsReply<Value, IdentityError> {
    match stage {
        RecordsOpening::Adopt { adoption } => RecordsReply::Record(ask_records(records, adoption)),
        RecordsOpening::LoadIdentity { record } => {
            let loaded = SealedIdentityProvider::load_or_create(records, record);
            RecordsReply::Identity(loaded.and_then(|loaded| {
                let key = loaded.master_public_key().to_bytes();
                *provider = Some(loaded);
                PublicKey::from_bytes(&key).map_err(|_| IdentityError::InvalidPublicKey)
            }))
        }
        RecordsOpening::Finished { .. } => panic!("nothing is asked at the end"),
    }
}

fn open_with_root(records_root: &Path, root_key: [u8; 32]) -> Result<Host, IdentityError> {
    let records = SealedRecordStorage::open_with_key(records_root, root_key);
    let mut provider = None;
    let mut stage = RecordsOpening::Adopt { adoption: RecordAdoption::LoadCurrent };
    while !matches!(stage, RecordsOpening::Finished { .. }) {
        let reply = ask_opening(&records, &stage, &mut provider);
        stage = LocalIdentity::open_with_root(stage, reply);
    }
    match stage {
        RecordsOpening::Finished { outcome } => {
            outcome.map(|identity| Host { identity, provider: provider.unwrap() })
        }
        _ => unreachable!(),
    }
}

/// A whole opening, with the data directory under `base`, the unlock root
/// `root_key` and the vault in `vault_dir`.
fn open_default(
    base: &Path,
    root_key: [u8; 32],
    vault_dir: &Path,
) -> Result<LocalIdentity, OpenError<IdentityError>> {
    let roots = EnvRoots { local_app_data: None, xdg_data_home: Some(base), home: None };
    let mut vault = Vault { dir: vault_dir, unlock: Some(unlock()), storage: None };
    let mut provider = None;
    let mut stage: Opening<'_, &Path, Value, IdentityError> = LocalIdentity::begin_opening(&roots);
    loop {
        let reply = match &stage {
            Opening::AdoptRoot { adoption, .. } => {
                let asked = match adoption {
                    RootAdoption::CheckCurrent { data_root, .. } => data_root,
                    RootAdoption::CheckLegacy { legacy, .. } => legacy,
                    _ => panic!("there is nothing to move"),
                };
                OpenReply::Root(RootReply::Exists(asked.base.join(asked.below).exists()))
            }
            Opening::Unlock { .. } => OpenReply::Unlocked(Ok(Some(root_key))),
            Opening::OpenRecords { data_root, below, root_key, records } => {
                let dir = data_root.base.join(data_root.below).join(below);
                let store = SealedRecordStorage::open_with_key(dir, *root_key);
                OpenReply::Records(ask_opening(&store, records, &mut provider))
            }
            Opening::Settle { settlement, .. } => {
                OpenReply::Vault(vault.ask(settlement, provider.as_ref().unwrap()))
            }
            Opening::Finished { .. } => break,
        };
        stage = LocalIdentity::open_default(stage, reply);
    }
    match stage {
        Opening::Finished { outcome } => outcome,
        _ => unreachable!(),
    }
}

fn unlock() -> Unlock {
    Unlock::Passphrase(b"hocket-identity-test".to_vec().into())
}

fn vault_storage(dir: &Path) -> Box<dyn IdentityStorage> {
    bootstrap::open_storage(dir, unlock()).unwrap().storage
}

#[test]
fn an_empty_vault_adopts_hocket_without_moving_the_fingerprint() {
    // The contact token a musician has already pasted to a peer is this key.
    let records = tempfile::tempdir().unwrap();
    let vault = tempfile::tempdir().unwrap();
    let host = open_with_root(records.path(), [0x61; 32]).unwrap();
    let before = host.master_public_key();

    let home = host.settle_home_with(vault.path(), unlock());

    assert!(matches!(home, IdentityHome::Family { .. }), "{home:?}");
    assert_eq!(host.master_public_key(), before, "adoption must not mint a new identity");
    // And the vault now holds exactly that key, so the other applications
    // open the same person.
    let profile = vault_storage(vault.path()).load_profile(&ProfileId("default".into())).unwrap();
    assert_eq!(profile.master.public_key().to_bytes(), before);
    assert_eq!(profile.display_name, "Hocket");
}

#[test]
fn a_vault_already_holding_somebody_else_is_left_alone() {
    // Adopting over the family persona would destroy it, and following it
    // would silently make the musician a different person to every peer.
    let records = tempfile::tempdir().unwrap();
    let vault = tempfile::tempdir().unwrap();
    let storage = vault_storage(vault.path());
    let theirs =
        roster::create_profile(&*storage, &ProfileId("default".into()), "Somebody else").unwrap();
    let theirs_public = theirs.master.public_key();
    drop(storage);

    let host = open_with_root(records.path(), [0x62; 32]).unwrap();
    let mine = host.master_public_key();
    let home = host.settle_home_with(vault.path(), unlock());

    assert!(matches!(home, IdentityHome::Apart { .. }), "{home:?}");
    assert_eq!(host.master_public_key(), mine, "nothing rotated");
    assert_eq!(
        vault_storage(vault.path())
            .load_profile(&ProfileId("default".into()))
            .unwrap()
            .master
            .public_key(),
        theirs_public,
        "the other persona survives untouched"
    );
}

#[test]
fn a_second_run_recognises_the_persona_it_adopted() {
    // Adoption is once; the run after it must read as Family rather than
    // adopting again or reading as a stranger.
    let records = tempfile::tempdir().unwrap();
    let vault = tempfile::tempdir().unwrap();
    let host = open_with_root(records.path(), [0x63; 32]).unwrap();
    let first = host.settle_home_with(vault.path(), unlock());
    assert!(matches!(first, IdentityHome::Family { .. }));

    let again = open_with_root(records.path(), [0x63; 32]).unwrap();
    let home = again.settle_home_with(vault.path(), unlock());
    assert!(matches!(home, IdentityHome::Family { .. }), "{home:?}");
    assert_eq!(home, first);
}

#[test]
fn no_vault_at_all_keeps_the_pre_vault_identity() {
    // A machine with no vault backend still runs.
    let records = tempfile::tempdir().unwrap();
    let file = tempfile::NamedTempFile::new().unwrap();

    let host = open_with_root(records.path(), [0x64; 32]).unwrap();
    let home = host.settle_home_with(&file.path().join("vault"), unlock());
    assert!(matches!(home, IdentityHome::Local { .. }), "{home:?}");
    assert!(home.summary().contains("no shared vault here: "));
}

#[test]
fn sealed_identity_is_stable_across_reopen() {
    let dir = tempfile::tempdir().unwrap();
    let first = open_with_root(dir.path(), [0x45; 32]).unwrap();
    let first_public = first.master_public_key();
    drop(first);

    let second = open_with_root(dir.path(), [0x45; 32]).unwrap();
    assert_eq!(second.master_public_key(), first_public);
}

#[test]
fn a_pre_rename_identity_keeps_its_fingerprint() {
    let dir = tempfile::tempdir().unwrap();
    let records = SealedRecordStorage::open_with_key(dir.path(), [0x51; 32]);
    let legacy = SealedIdentityProvider::load_or_create(&records, LEGACY_IDENTITY_RECORD)
        .expect("seal a pre-rename identity");
    let legacy_public = legacy.master_public_key();
    drop(legacy);

    let adopted = open_with_root(dir.path(), [0x51; 32]).unwrap();

    assert_eq!(
        adopted.master_public_key(),
        legacy_public.to_bytes(),
        "the rename must not mint a new identity"
    );
    assert!(dir.path().join("hocket/local-identity.json").exists());
    assert!(!dir.path().join("strophe/local-identity.json").exists());
}

#[test]
fn a_pre_rename_identity_does_not_displace_a_current_one() {
    let dir = tempfile::tempdir().unwrap();
    let records = SealedRecordStorage::open_with_key(dir.path(), [0x52; 32]);
    let current = SealedIdentityProvider::load_or_create(&records, IDENTITY_RECORD).unwrap();
    let current_public = current.master_public_key();
    drop(current);
    SealedIdentityProvider::load_or_create(&records, LEGACY_IDENTITY_RECORD).unwrap();

    let opened = open_with_root(dir.path(), [0x52; 32]).unwrap();

    assert_eq!(opened.master_public_key(), current_public.to_bytes());
    assert!(dir.path().join("strophe/local-identity.json").exists());
}

#[test]
fn wrong_record_root_cannot_open_identity() {
    let dir = tempfile::tempdir().unwrap();
    open_with_root(dir.path(), [0x45; 32]).unwrap();

    let error = open_with_root(dir.path(), [0x46; 32]).err().expect("wrong root should fail");
    assert!(error.to_string().contains("decrypt sealed record"));
}

#[test]
fn an_earlier_record_that_will_not_open_is_not_replaced_by_a_new_identity() {
    let dir = tempfile::tempdir().unwrap();
    let records = SealedRecordStorage::open_with_key(dir.path(), [0x54; 32]);
    let legacy = SealedIdentityProvider::load_or_create(&records, LEGACY_IDENTITY_RECORD).unwrap();

    let error = open_with_root(dir.path(), [0x55; 32]).err().expect("wrong root should fail");
    assert!(error.to_string().contains("decrypt sealed record"));
    assert!(!dir.path().join(IDENTITY_RECORD).exists());
    assert!(dir.path().join(LEGACY_IDENTITY_RECORD).exists());

    let opened = open_with_root(dir.path(), [0x54; 32]).unwrap();
    assert_eq!(opened.master_public_key(), legacy.master_public_key().to_bytes());
}

#[test]
fn an_earlier_record_that_will_not_open_does_not_hide_a_current_one() {
    let dir = tempfile::tempdir().unwrap();
    let earlier = SealedRecordStorage::open_with_key(dir.path(), [0x56; 32]);
    SealedIdentityProvider::load_or_create(&earlier, LEGACY_IDENTITY_RECORD).unwrap();
    let records = SealedRecordStorage::open_with_key(dir.path(), [0x57; 32]);
    let current = SealedIdentityProvider::load_or_create(&records, IDENTITY_RECORD).unwrap();

    let opened = open_with_root(dir.path(), [0x57; 32]).unwrap();
    assert_eq!(opened.master_public_key(), current.master_public_key().to_bytes());
    assert!(dir.path().join(LEGACY_IDENTITY_RECORD).exists());
}

#[test]
fn an_opened_identity_has_not_consulted_the_vault() {
    let dir = tempfile::tempdir().unwrap();
    let host = open_with_root(dir.path(), [0x47; 32]).unwrap();
    assert_eq!(
        host.identity.home(),
        &IdentityHome::Local { reason: "the shared vault was not consulted".into() }
    );
}

#[test]
fn an_adopted_record_is_adopted_once() {
    let dir = tempfile::tempdir().unwrap();
    let records = SealedRecordStorage::open_with_key(dir.path(), [0x53; 32]);
    let legacy = SealedIdentityProvider::load_or_create(&records, LEGACY_IDENTITY_RECORD).unwrap();
    let first = open_with_root(dir.path(), [0x53; 32]).unwrap();
    let second = open_with_root(dir.path(), [0x53; 32]).unwrap();
    assert_eq!(first.master_public_key(), legacy.master_public_key().to_bytes());
    assert_eq!(second.master_public_key(), legacy.master_public_key().to_bytes());
    assert_eq!(second.identity.fingerprint(), first.identity.fingerprint());
}

#[test]
fn a_vault_under_another_passphrase_leaves_the_identity_local() {
    let records = tempfile::tempdir().unwrap();
    let vault = tempfile::tempdir().unwrap();
    roster::create_profile(
        &*vault_storage(vault.path()),
        &ProfileId("default".into()),
        "Somebody else",
    )
    .unwrap();
    let host = open_with_root(records.path(), [0x65; 32]).unwrap();
    let home = host.settle_home_with(vault.path(), Unlock::passphrase("another"));
    assert_eq!(
        home,
        IdentityHome::Local {
            reason: "no shared vault here: identity backend error: incorrect passphrase".into()
        }
    );
}

#[test]
fn a_whole_opening_settles_what_its_records_hold_and_the_next_one_keeps_it() {
    let base = tempfile::tempdir().unwrap();
    let vault = tempfile::tempdir().unwrap();
    let dir = base.path().join("hocket/personae/records");
    let records = SealedRecordStorage::open_with_key(&dir, [0x58; 32]);
    let legacy = SealedIdentityProvider::load_or_create(&records, LEGACY_IDENTITY_RECORD).unwrap();
    let key = legacy.master_public_key().to_bytes();

    let first = open_default(base.path(), [0x58; 32], vault.path()).unwrap();
    assert_eq!(first.master_public_key().to_bytes(), key);
    assert!(matches!(first.home(), IdentityHome::Family { .. }), "{:?}", first.home());
    assert!(dir.join(IDENTITY_RECORD).exists());
    assert!(!dir.join(LEGACY_IDENTITY_RECORD).exists());

    let second = open_default(base.path(), [0x58; 32], vault.path()).unwrap();
    assert_eq!(second.master_public_key().to_bytes(), key);
    assert_eq!(second.home(), first.home());
}

#[test]
fn a_whole_opening_makes_somebody_up_once() {
    let base = tempfile::tempdir().unwrap();
    let vault = tempfile::tempdir().unwrap();
    let first = open_default(base.path(), [0x59; 32], vault.path()).unwrap();
    let second = open_default(base.path(), [0x59; 32], vault.path()).unwrap();
    assert_eq!(second.master_public_key(), first.master_public_key());
    assert_eq!(second.home(), first.home());
}

#[test]
fn a_whole_opening_ends_with_what_its_records_say() {
    let base = tempfile::tempdir().unwrap();
    let vault = tempfile::tempdir().unwrap();
    open_default(base.path(), [0x5a; 32], vault.path()).unwrap();
    let untouched = tempfile::tempdir().unwrap();
    match open_default(base.path(), [0x5b; 32], untouched.path()) {
        Err(OpenError::Outside(error)) => {
            assert!(error.to_string().contains("decrypt sealed record"));
        }
        _ => panic!("wrong root should fail"),
    }
    let storage = vault_storage(untouched.path());
    assert!(storage.load_profile(&ProfileId("default".into())).is_err());
}

#[test]
fn a_vault_refuses_to_import_over_a_persona_that_it_holds() {
    let vault = tempfile::tempdir().unwrap();
    let records = tempfile::tempdir().unwrap();
    let storage = vault_storage(vault.path());
    let id = ProfileId("default".into());
    let theirs = roster::create_profile(&*storage, &id, "Somebody else").unwrap();
    let host = open_with_root(records.path(), [0x66; 32]).unwrap();

    // What is asked where the persona would not load.
    let importing = Settlement::ImportPersona {
        protection: "a passphrase".into(),
        profile: "default".into(),
        display_name: "Hocket".into(),
        master: host.master_public_key(),
    };
    let mut asked = Vault { dir: vault.path(), unlock: None, storage: Some(storage) };
    let reply = asked.ask(&importing, &host.provider);
    assert!(matches!(reply, VaultReply::Imported(Err(_))));
    match host.identity.settle_home_with(importing, reply) {
        Settlement::Settled { home: IdentityHome::Local { reason } } => {
            assert!(reason.starts_with("could not place this identity in the vault: "));
        }
        stage => panic!("{stage:?}"),
    }
    let held = asked.storage.unwrap().load_profile(&id).unwrap();
    assert_eq!(held.master.public_key(), theirs.master.public_key());
}
