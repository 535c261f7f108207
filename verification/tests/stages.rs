//! The stages, reply by reply.

use hocket_genet::opening::{
    AUTO_UNLOCK_ROOT, OpenError, OpenReply, Opening, RECORDS, RecordsOpening, RecordsReply,
};
use hocket_genet::records::{
    IDENTITY_RECORD, LEGACY_IDENTITY_RECORD, RecordAdoption, RecordReply, adopt_legacy_record,
};
use hocket_genet::roots::{
    EnvRoots, MoveFailure, RootAdoption, RootReply, adopt_legacy_data_root, default_data_root,
    legacy_data_root,
};
use hocket_genet::settle::{Settlement, VaultReply};
use hocket_genet::{IdentityHome, LocalIdentity, PublicKey};
use personae::{IdentityProvider, InMemoryProvider};

fn key(seed: u8) -> PublicKey {
    let key = InMemoryProvider::from_seed([seed; 32]).master_public_key();
    PublicKey::from_bytes(&key.to_bytes()).unwrap()
}

fn env(
    local_app_data: Option<&'static str>,
    xdg_data_home: Option<&'static str>,
    home: Option<&'static str>,
) -> EnvRoots<&'static str> {
    EnvRoots { local_app_data, xdg_data_home, home }
}

fn text(s: &str) -> String {
    s.to_string()
}

fn loading() -> Settlement {
    Settlement::LoadPersona { protection: text("a passphrase"), profile: text("work") }
}

fn importing(master: [u8; 32]) -> Settlement {
    Settlement::ImportPersona {
        protection: text("a passphrase"),
        profile: text("work"),
        display_name: text("Hocket"),
        master,
    }
}

fn local(reason: &str) -> Settlement {
    Settlement::Settled { home: IdentityHome::Local { reason: text(reason) } }
}

fn family() -> Settlement {
    Settlement::Settled {
        home: IdentityHome::Family { profile: text("work"), protection: text("a passphrase") },
    }
}

#[test]
fn settling_asks_one_thing_after_the_other() {
    let identity = LocalIdentity::new(key(1));
    let mine = key(1).to_bytes();
    let resolving = Settlement::ResolvePersona { protection: text("a passphrase") };
    assert_eq!(
        identity.settle_home_with(
            Settlement::OpenVault,
            VaultReply::Opened(Ok(text("a passphrase")))
        ),
        resolving
    );
    assert_eq!(
        identity.settle_home_with(resolving, VaultReply::Resolved(Ok(text("work")))),
        loading()
    );
    assert_eq!(
        identity.settle_home_with(loading(), VaultReply::Loaded(Err(text("not found")))),
        importing(mine)
    );
    assert_eq!(
        identity.settle_home_with(importing(mine), VaultReply::Imported(Ok(()))),
        family()
    );
}

#[test]
fn a_loaded_persona_is_recognised_or_left_apart() {
    let identity = LocalIdentity::new(key(1));
    assert_eq!(
        identity.settle_home_with(loading(), VaultReply::Loaded(Ok(key(1).to_bytes()))),
        family()
    );
    assert_eq!(
        identity.settle_home_with(loading(), VaultReply::Loaded(Ok(key(2).to_bytes()))),
        Settlement::Settled { home: IdentityHome::Apart { family_profile: text("work") } }
    );
}

#[test]
fn a_vault_that_fails_leaves_the_identity_local_and_says_why() {
    let identity = LocalIdentity::new(key(1));
    assert_eq!(
        identity.settle_home_with(
            Settlement::OpenVault,
            VaultReply::Opened(Err(text("locked")))
        ),
        local("no shared vault here: locked")
    );
    assert_eq!(
        identity.settle_home_with(
            Settlement::ResolvePersona { protection: text("a passphrase") },
            VaultReply::Resolved(Err(text("garbled")))
        ),
        local("the vault would not say which persona: garbled")
    );
    assert_eq!(
        identity.settle_home_with(
            importing(key(1).to_bytes()),
            VaultReply::Imported(Err(text("taken")))
        ),
        local("could not place this identity in the vault: taken")
    );
}

#[test]
fn a_reply_to_another_question_changes_nothing() {
    let identity = LocalIdentity::new(key(1));
    assert_eq!(
        identity.settle_home_with(Settlement::OpenVault, VaultReply::Imported(Ok(()))),
        Settlement::OpenVault
    );
    assert_eq!(identity.settle_home_with(family(), VaultReply::Opened(Ok(text("x")))), family());
    let stage: RecordAdoption<u8, u8> =
        adopt_legacy_record(RecordAdoption::LoadLegacy, RecordReply::Written(Ok(())));
    assert!(matches!(stage, RecordAdoption::LoadLegacy));
}

#[test]
fn settling_keeps_the_key() {
    let mut identity = LocalIdentity::new(key(5));
    identity.settle(IdentityHome::Apart { family_profile: text("work") });
    assert_eq!(identity.master_public_key(), key(5));
    assert_eq!(identity.home(), &IdentityHome::Apart { family_profile: text("work") });
}

#[test]
fn the_earlier_record_is_saved_before_it_is_deleted() {
    let start: RecordAdoption<u8, u8> = RecordAdoption::LoadCurrent;
    assert_eq!(start.record_name(), Some(IDENTITY_RECORD));
    let legacy = adopt_legacy_record(start, RecordReply::Loaded(Ok(None)));
    assert_eq!(legacy.record_name(), Some(LEGACY_IDENTITY_RECORD));
    let save = adopt_legacy_record(legacy, RecordReply::Loaded(Ok(Some(42))));
    assert!(matches!(save, RecordAdoption::SaveCurrent { record: 42 }));
    assert_eq!(save.record_name(), Some("hocket/local-identity.json"));
    let delete = adopt_legacy_record(save, RecordReply::Written(Ok(())));
    assert!(matches!(delete, RecordAdoption::DeleteLegacy));
    assert_eq!(delete.record_name(), Some("strophe/local-identity.json"));
    let end = adopt_legacy_record(delete, RecordReply::Written(Ok(())));
    assert!(matches!(end, RecordAdoption::Finished { outcome: Ok(()) }));
    assert_eq!(end.record_name(), None);
}

#[test]
fn an_adoption_ends_where_there_is_nothing_to_adopt_or_something_fails() {
    let current: RecordAdoption<u8, u8> =
        adopt_legacy_record(RecordAdoption::LoadCurrent, RecordReply::Loaded(Ok(Some(1))));
    assert!(matches!(current, RecordAdoption::Finished { outcome: Ok(()) }));
    let neither: RecordAdoption<u8, u8> =
        adopt_legacy_record(RecordAdoption::LoadLegacy, RecordReply::Loaded(Ok(None)));
    assert!(matches!(neither, RecordAdoption::Finished { outcome: Ok(()) }));
    for stage in [RecordAdoption::LoadCurrent, RecordAdoption::LoadLegacy] {
        let failed: RecordAdoption<u8, u8> =
            adopt_legacy_record(stage, RecordReply::Loaded(Err(9)));
        assert!(matches!(failed, RecordAdoption::Finished { outcome: Err(9) }));
    }
    for stage in [RecordAdoption::SaveCurrent { record: 1 }, RecordAdoption::DeleteLegacy] {
        let failed: RecordAdoption<u8, u8> =
            adopt_legacy_record(stage, RecordReply::Written(Err(9)));
        assert!(matches!(failed, RecordAdoption::Finished { outcome: Err(9) }));
    }
}

#[test]
fn data_roots_lie_side_by_side() {
    for (roots, base, current, earlier) in [
        (env(Some("l"), Some("x"), Some("h")), "l", "Hocket", "Strophe"),
        (env(None, Some("x"), Some("h")), "x", "hocket", "strophe"),
        (env(None, None, Some("h")), "h", ".local/share/hocket", ".local/share/strophe"),
    ] {
        let data_root = default_data_root(&roots).unwrap();
        assert_eq!((*data_root.base, data_root.below), (base, current));
        let legacy = legacy_data_root(&roots).unwrap();
        assert_eq!((*legacy.base, legacy.below), (base, earlier));
    }
    assert_eq!(
        default_data_root(&env(None, None, None)).unwrap_err(),
        "could not determine Hocket's local data directory"
    );
    assert!(legacy_data_root(&env(None, None, None)).is_none());
}

#[test]
fn only_a_missing_data_root_is_filled() {
    let roots = env(None, Some("x"), None);
    let data_root = default_data_root(&roots).unwrap();
    let earlier = legacy_data_root(&roots);

    let start = RootAdoption::CheckCurrent { data_root, earlier };
    let found = adopt_legacy_data_root(start, RootReply::Exists(true));
    assert!(matches!(found, RootAdoption::Finished { outcome: Ok(()) }));

    let start = RootAdoption::CheckCurrent { data_root, earlier };
    let look = adopt_legacy_data_root(start, RootReply::Exists(false));
    let go = adopt_legacy_data_root(look, RootReply::Exists(true));
    match &go {
        RootAdoption::MoveLegacy { data_root, legacy } => {
            assert_eq!((data_root.below, legacy.below), ("hocket", "strophe"));
        }
        _ => panic!("{go:?}"),
    }
    let moved = adopt_legacy_data_root(go, RootReply::Moved(Ok(())));
    assert!(matches!(moved, RootAdoption::Finished { outcome: Ok(()) }));

    let start = RootAdoption::CheckCurrent { data_root, earlier: None };
    let none = adopt_legacy_data_root(start, RootReply::Exists(false));
    assert!(matches!(none, RootAdoption::Finished { outcome: Ok(()) }));

    let look = RootAdoption::CheckLegacy { data_root, legacy: earlier.unwrap() };
    let none = adopt_legacy_data_root(look, RootReply::Exists(false));
    assert!(matches!(none, RootAdoption::Finished { outcome: Ok(()) }));
}

#[test]
fn a_failed_move_says_what_was_to_go_where() {
    let roots = env(None, Some("x"), None);
    let data_root = default_data_root(&roots).unwrap();
    let legacy = legacy_data_root(&roots).unwrap();
    let failure = MoveFailure {
        legacy: text("\"x/strophe\""),
        data_root: text("\"x/hocket\""),
        error: text("denied"),
    };
    let stage = adopt_legacy_data_root(
        RootAdoption::MoveLegacy { data_root, legacy },
        RootReply::Moved(Err(failure)),
    );
    match stage {
        RootAdoption::Finished { outcome: Err(message) } => assert_eq!(
            message,
            "move pre-rename identity \"x/strophe\" -> \"x/hocket\": denied"
        ),
        _ => panic!("{stage:?}"),
    }
}

type Stage<'a> = Opening<'a, &'static str, u8, u8>;

fn failure(stage: Stage<'_>) -> OpenError<u8> {
    match stage {
        Opening::Finished { outcome: Err(error) } => error,
        _ => panic!("the opening has not failed"),
    }
}

/// The opening of the host on `roots` once its data directory was found.
fn unlocking<'a>(roots: &'a EnvRoots<&'static str>) -> Stage<'a> {
    let start = LocalIdentity::begin_opening(roots);
    LocalIdentity::open_default(start, OpenReply::Root(RootReply::Exists(true)))
}

#[test]
fn an_identity_opens_part_by_part() {
    let roots = env(Some("l"), None, None);
    let stage = unlocking(&roots);
    match &stage {
        Opening::Unlock { data_root, below } => {
            assert_eq!((*data_root.base, data_root.below), ("l", "Hocket"));
            assert_eq!(*below, AUTO_UNLOCK_ROOT);
            assert_eq!(*below, "personae/auto-unlock-root.json");
        }
        _ => panic!("the data directory was found"),
    }
    let stage = LocalIdentity::open_default(stage, OpenReply::Unlocked(Ok(Some([8; 32]))));
    match &stage {
        Opening::OpenRecords { data_root, below, root_key, records } => {
            assert_eq!((*data_root.base, data_root.below), ("l", "Hocket"));
            assert_eq!(*below, RECORDS);
            assert_eq!(*below, "personae/records");
            assert_eq!(root_key, &[8; 32]);
            assert!(matches!(
                records,
                RecordsOpening::Adopt { adoption: RecordAdoption::LoadCurrent }
            ));
        }
        _ => panic!("the unlock root was found"),
    }
    let loaded = RecordsReply::Record(RecordReply::Loaded(Ok(Some(1))));
    let stage = LocalIdentity::open_default(stage, OpenReply::Records(loaded));
    match &stage {
        Opening::OpenRecords { records: RecordsOpening::LoadIdentity { record }, .. } => {
            assert_eq!(*record, IDENTITY_RECORD);
        }
        _ => panic!("there was nothing to adopt"),
    }
    let stage = LocalIdentity::open_default(
        stage,
        OpenReply::Records(RecordsReply::Identity(Ok(key(6)))),
    );
    match &stage {
        Opening::Settle { identity, settlement } => {
            assert_eq!(identity.master_public_key(), key(6));
            assert_eq!(settlement, &Settlement::OpenVault);
        }
        _ => panic!("the identity was loaded"),
    }
    let refused = VaultReply::Opened(Err(text("locked")));
    match LocalIdentity::open_default(stage, OpenReply::Vault(refused)) {
        Opening::Finished { outcome: Ok(identity) } => {
            assert_eq!(identity.master_public_key(), key(6));
            assert_eq!(
                identity.home(),
                &IdentityHome::Local { reason: text("no shared vault here: locked") }
            );
        }
        _ => panic!("no vault keeps an identity from opening"),
    }
}

#[test]
fn the_longest_opening_takes_thirteen_replies() {
    let roots = env(Some("l"), None, None);
    let mut stage: Stage<'_> = LocalIdentity::begin_opening(&roots);
    let mut replies = 0;
    loop {
        let reply = match &stage {
            Opening::AdoptRoot { adoption, .. } => OpenReply::Root(match adoption {
                RootAdoption::CheckCurrent { .. } => RootReply::Exists(false),
                RootAdoption::CheckLegacy { .. } => RootReply::Exists(true),
                RootAdoption::MoveLegacy { .. } => RootReply::Moved(Ok(())),
                RootAdoption::Finished { .. } => unreachable!(),
            }),
            Opening::Unlock { .. } => OpenReply::Unlocked(Ok(Some([8; 32]))),
            Opening::OpenRecords { records, .. } => OpenReply::Records(match records {
                RecordsOpening::Adopt { adoption } => RecordsReply::Record(match adoption {
                    RecordAdoption::LoadCurrent => RecordReply::Loaded(Ok(None)),
                    RecordAdoption::LoadLegacy => RecordReply::Loaded(Ok(Some(42))),
                    RecordAdoption::SaveCurrent { .. } => RecordReply::Written(Ok(())),
                    RecordAdoption::DeleteLegacy => RecordReply::Written(Ok(())),
                    RecordAdoption::Finished { .. } => unreachable!(),
                }),
                RecordsOpening::LoadIdentity { .. } => RecordsReply::Identity(Ok(key(6))),
                RecordsOpening::Finished { .. } => unreachable!(),
            }),
            Opening::Settle { settlement, .. } => OpenReply::Vault(match settlement {
                Settlement::OpenVault => VaultReply::Opened(Ok(text("a passphrase"))),
                Settlement::ResolvePersona { .. } => VaultReply::Resolved(Ok(text("work"))),
                Settlement::LoadPersona { .. } => VaultReply::Loaded(Err(text("not found"))),
                Settlement::ImportPersona { .. } => VaultReply::Imported(Ok(())),
                Settlement::Settled { .. } => unreachable!(),
            }),
            Opening::Finished { .. } => break,
        };
        stage = LocalIdentity::open_default(stage, reply);
        replies += 1;
    }
    assert_eq!(replies, 13);
    match stage {
        Opening::Finished { outcome: Ok(identity) } => {
            assert_eq!(identity.master_public_key(), key(6));
            assert_eq!(Settlement::Settled { home: identity.home().clone() }, family());
        }
        _ => panic!("everything went well"),
    }
}

#[test]
fn an_opening_that_fails_before_the_vault_ends() {
    let nowhere = env(None, None, None);
    assert_eq!(
        failure(LocalIdentity::begin_opening(&nowhere)),
        OpenError::Backend(text("could not determine Hocket's local data directory"))
    );

    let roots = env(Some("l"), None, None);
    let failed = MoveFailure { legacy: text("a"), data_root: text("b"), error: text("c") };
    let mut stage = LocalIdentity::begin_opening(&roots);
    for reply in [
        RootReply::Exists(false),
        RootReply::Exists(true),
        RootReply::Moved(Err(failed)),
    ] {
        stage = LocalIdentity::open_default(stage, OpenReply::Root(reply));
    }
    assert_eq!(
        failure(stage),
        OpenError::Backend(text("move pre-rename identity a -> b: c"))
    );

    let unlocked = |reply| failure(LocalIdentity::open_default(unlocking(&roots), reply));
    assert_eq!(
        unlocked(OpenReply::Unlocked(Ok(None))),
        OpenError::Backend(text(
            "OS-protected automatic identity unlock is unavailable on this platform"
        ))
    );
    assert_eq!(unlocked(OpenReply::Unlocked(Err(3))), OpenError::Outside(3));

    let opening = |reply| {
        let stage =
            LocalIdentity::open_default(unlocking(&roots), OpenReply::Unlocked(Ok(Some([8; 32]))));
        LocalIdentity::open_default(stage, OpenReply::Records(reply))
    };
    assert_eq!(
        failure(opening(RecordsReply::Record(RecordReply::Loaded(Err(4))))),
        OpenError::Outside(4)
    );
    let loading = opening(RecordsReply::Record(RecordReply::Loaded(Ok(Some(1)))));
    let reply = OpenReply::Records(RecordsReply::Identity(Err(5)));
    assert_eq!(failure(LocalIdentity::open_default(loading, reply)), OpenError::Outside(5));
}
