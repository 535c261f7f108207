//! Settling where an identity stands relative to the shared vault.
//!
//! The vault is on disk, so the work is split: [`Settlement`] says what to ask
//! of the vault next, the host asks it, and
//! [`LocalIdentity::settle_home_with`] turns the reply into the next question
//! or into the home that was found.

use vstd::prelude::*;

use crate::home::{Home, IdentityHome};
use crate::identity::LocalIdentity;
use crate::key::same_bytes;

verus! {

/// How far settling has come, and so what is to be asked next.
#[derive(Debug, PartialEq, Eq)]
pub enum Settlement {
    /// Open the shared vault.
    OpenVault,
    /// Ask the opened vault which persona the family uses.
    ResolvePersona { protection: String },
    /// Load the persona `profile`.
    LoadPersona { protection: String, profile: String },
    /// Import the key pair of `master` as the persona `profile`, shown as
    /// `display_name`. The one request that writes.
    ImportPersona {
        protection: String,
        profile: String,
        display_name: String,
        master: [u8; 32],
    },
    /// Nothing more to ask.
    Settled { home: IdentityHome },
}

/// What the vault replied. Failures carry the vault's own words.
#[derive(Debug, PartialEq, Eq)]
pub enum VaultReply {
    /// The vault is open, under this protection; or would not open.
    Opened(Result<String, String>),
    /// The family persona; or why it is unknown.
    Resolved(Result<String, String>),
    /// The public key of the persona that was loaded; or why none was.
    Loaded(Result<[u8; 32], String>),
    /// The persona was imported; or why not.
    Imported(Result<(), String>),
}

/// A [`Settlement`] with its strings as characters and its key as bytes.
pub enum Stage {
    /// Open the vault.
    OpenVault,
    /// Ask for the family persona.
    ResolvePersona { protection: Seq<char> },
    /// Load it.
    LoadPersona { protection: Seq<char>, profile: Seq<char> },
    /// Import this identity as it.
    ImportPersona {
        protection: Seq<char>,
        profile: Seq<char>,
        display_name: Seq<char>,
        master: Seq<u8>,
    },
    /// Settled.
    Settled { home: Home },
}

impl View for Settlement {
    type V = Stage;

    open spec fn view(&self) -> Stage {
        match self {
            Settlement::OpenVault => Stage::OpenVault,
            Settlement::ResolvePersona { protection } => Stage::ResolvePersona {
                protection: protection@,
            },
            Settlement::LoadPersona { protection, profile } => Stage::LoadPersona {
                protection: protection@,
                profile: profile@,
            },
            Settlement::ImportPersona { protection, profile, display_name, master } =>
                Stage::ImportPersona {
                protection: protection@,
                profile: profile@,
                display_name: display_name@,
                master: master@,
            },
            Settlement::Settled { home } => Stage::Settled { home: home@ },
        }
    }
}

/// A [`VaultReply`] with its strings as characters and its key as bytes.
pub enum Reply {
    /// Open, or not.
    Opened(Result<Seq<char>, Seq<char>>),
    /// The family persona, or none.
    Resolved(Result<Seq<char>, Seq<char>>),
    /// The key that was loaded, or none.
    Loaded(Result<Seq<u8>, Seq<char>>),
    /// Imported, or not.
    Imported(Result<(), Seq<char>>),
}

/// A reply of text, as characters.
pub open spec fn text_reply(reply: Result<String, String>) -> Result<Seq<char>, Seq<char>> {
    match reply {
        Ok(text) => Ok(text@),
        Err(error) => Err(error@),
    }
}

impl View for VaultReply {
    type V = Reply;

    open spec fn view(&self) -> Reply {
        match self {
            VaultReply::Opened(reply) => Reply::Opened(text_reply(*reply)),
            VaultReply::Resolved(reply) => Reply::Resolved(text_reply(*reply)),
            VaultReply::Loaded(Ok(key)) => Reply::Loaded(Ok(key@)),
            VaultReply::Loaded(Err(error)) => Reply::Loaded(Err(error@)),
            VaultReply::Imported(Ok(())) => Reply::Imported(Ok(())),
            VaultReply::Imported(Err(error)) => Reply::Imported(Err(error@)),
        }
    }
}

/// The stage that the identity known by `key` is at, once `reply` came in at
/// `stage`. A reply to something that was not asked changes nothing.
pub open spec fn stage_after(key: Seq<u8>, stage: Stage, reply: Reply) -> Stage {
    match (stage, reply) {
        (Stage::OpenVault, Reply::Opened(Ok(protection))) => Stage::ResolvePersona { protection },
        (Stage::OpenVault, Reply::Opened(Err(error))) => Stage::Settled {
            home: Home::Local { reason: "no shared vault here: "@ + error },
        },
        (Stage::ResolvePersona { protection }, Reply::Resolved(Ok(profile))) =>
            Stage::LoadPersona { protection, profile },
        (Stage::ResolvePersona { .. }, Reply::Resolved(Err(error))) => Stage::Settled {
            home: Home::Local { reason: "the vault would not say which persona: "@ + error },
        },
        (Stage::LoadPersona { protection, profile }, Reply::Loaded(Ok(loaded))) => Stage::Settled {
            home: if loaded == key {
                Home::Family { profile, protection }
            } else {
                Home::Apart { family_profile: profile }
            },
        },
        (Stage::LoadPersona { protection, profile }, Reply::Loaded(Err(_))) =>
            Stage::ImportPersona { protection, profile, display_name: "Hocket"@, master: key },
        (Stage::ImportPersona { protection, profile, .. }, Reply::Imported(Ok(()))) =>
            Stage::Settled { home: Home::Family { profile, protection } },
        (Stage::ImportPersona { .. }, Reply::Imported(Err(error))) => Stage::Settled {
            home: Home::Local { reason: "could not place this identity in the vault: "@ + error },
        },
        _ => stage,
    }
}

/// The home of an identity that stays on this machine: `what`, and the reason
/// `error` that was given for it.
fn local_home(what: &str, error: &str) -> (stage: Settlement)
    ensures
        stage@ == (Stage::Settled { home: Home::Local { reason: what@ + error@ } }),
{
    let mut reason = what.to_owned();
    reason.append(error);
    Settlement::Settled { home: IdentityHome::Local { reason } }
}

impl LocalIdentity {
    /// Where this identity stands relative to the shared vault, one reply at a
    /// time.
    ///
    /// **Never rotates and never overwrites.** The only request that writes is
    /// the one that cannot lose anything: when the family persona does not
    /// load, this identity's key is offered for import under its name, so the
    /// user gains a shared persona without their fingerprint moving. That loses
    /// nothing because a vault refuses to import over a persona that it holds:
    /// where the persona is there and merely would not load, the offer is
    /// turned down, nothing is written and the identity stays local. When the
    /// persona does load and holds a different key, the vault is left as found
    /// and the identity stays apart, because following the family choice there
    /// would silently make the user a different person to every peer holding
    /// their token. That switch is theirs to make, knowing the cost.
    pub fn settle_home_with(&self, stage: Settlement, reply: VaultReply) -> (next: Settlement)
        ensures
            next@ == stage_after(self@.key, stage@, reply@),
    {
        let mine = self.master_public_key().to_bytes();
        match (stage, reply) {
            (Settlement::OpenVault, VaultReply::Opened(Ok(protection))) => {
                Settlement::ResolvePersona { protection }
            },
            (Settlement::OpenVault, VaultReply::Opened(Err(error))) => local_home(
                "no shared vault here: ",
                error.as_str(),
            ),
            (Settlement::ResolvePersona { protection }, VaultReply::Resolved(Ok(profile))) => {
                Settlement::LoadPersona { protection, profile }
            },
            (Settlement::ResolvePersona { .. }, VaultReply::Resolved(Err(error))) => local_home(
                "the vault would not say which persona: ",
                error.as_str(),
            ),
            (Settlement::LoadPersona { protection, profile }, VaultReply::Loaded(Ok(loaded))) => {
                if same_bytes(&loaded, &mine) {
                    Settlement::Settled { home: IdentityHome::Family { profile, protection } }
                } else {
                    Settlement::Settled { home: IdentityHome::Apart { family_profile: profile } }
                }
            },
            (Settlement::LoadPersona { protection, profile }, VaultReply::Loaded(Err(_))) => {
                Settlement::ImportPersona {
                    protection,
                    profile,
                    display_name: "Hocket".to_owned(),
                    master: mine,
                }
            },
            (
                Settlement::ImportPersona { protection, profile, .. },
                VaultReply::Imported(Ok(())),
            ) => Settlement::Settled { home: IdentityHome::Family { profile, protection } },
            (Settlement::ImportPersona { .. }, VaultReply::Imported(Err(error))) => local_home(
                "could not place this identity in the vault: ",
                error.as_str(),
            ),
            (stage, _) => stage,
        }
    }
}

/// The vault is opened, then asked which persona the family uses, then asked
/// for that persona; and what it said is kept.
pub proof fn law_vault_is_asked_in_turn(key: Seq<u8>, protection: Seq<char>, profile: Seq<char>)
    ensures
        stage_after(key, Stage::OpenVault, Reply::Opened(Ok(protection))) == (
        Stage::ResolvePersona { protection }),
        stage_after(key, (Stage::ResolvePersona { protection }), Reply::Resolved(Ok(profile))) == (
        Stage::LoadPersona { protection, profile }),
{
}

/// A persona that loads decides by its key alone: with the identity's own key
/// it is the identity's home, with any other the identity stays apart from it.
pub proof fn law_loaded_key_decides(
    key: Seq<u8>,
    protection: Seq<char>,
    profile: Seq<char>,
    loaded: Seq<u8>,
)
    ensures
        ({
            let next = stage_after(
                key,
                Stage::LoadPersona { protection, profile },
                Reply::Loaded(Ok(loaded)),
            );
            &&& next is Settled
            &&& loaded == key ==> next->home == (Home::Family { profile, protection })
            &&& loaded != key ==> next->home == (Home::Apart { family_profile: profile })
        }),
{
}

/// A persona that does not load is offered the identity's own key, under the
/// name that was asked for and shown as Hocket; and where it is taken, that is
/// the identity's home.
pub proof fn law_own_key_is_offered_and_taken(
    key: Seq<u8>,
    protection: Seq<char>,
    profile: Seq<char>,
    display_name: Seq<char>,
    master: Seq<u8>,
    error: Seq<char>,
)
    ensures
        stage_after(key, (Stage::LoadPersona { protection, profile }), Reply::Loaded(Err(error)))
            == (Stage::ImportPersona {
            protection,
            profile,
            display_name: "Hocket"@,
            master: key,
        }),
        stage_after(
            key,
            (Stage::ImportPersona { protection, profile, display_name, master }),
            Reply::Imported(Ok(())),
        ) == (Stage::Settled { home: Home::Family { profile, protection } }),
{
}

/// A vault that does not open, does not name a persona or does not take the
/// identity in leaves it local, and it is told which of them and in the vault's
/// own words.
pub proof fn law_vault_failures_are_told(key: Seq<u8>, stage: Stage, error: Seq<char>)
    ensures
        stage is OpenVault ==> stage_after(key, stage, Reply::Opened(Err(error))) == (
        Stage::Settled { home: Home::Local { reason: "no shared vault here: "@ + error } }),
        stage is ResolvePersona ==> stage_after(key, stage, Reply::Resolved(Err(error))) == (
        Stage::Settled {
            home: Home::Local { reason: "the vault would not say which persona: "@ + error },
        }),
        stage is ImportPersona ==> stage_after(key, stage, Reply::Imported(Err(error))) == (
        Stage::Settled {
            home: Home::Local { reason: "could not place this identity in the vault: "@ + error },
        }),
{
}

/// A reply to something that was not asked changes nothing, and once all is
/// settled nothing does.
pub proof fn law_unasked_vault_reply_changes_nothing(key: Seq<u8>, stage: Stage, reply: Reply)
    requires
        stage is OpenVault ==> reply !is Opened,
        stage is ResolvePersona ==> reply !is Resolved,
        stage is LoadPersona ==> reply !is Loaded,
        stage is ImportPersona ==> reply !is Imported,
    ensures
        stage_after(key, stage, reply) == stage,
{
}

/// A stage of settling is seen as what it is, with what it holds.
pub proof fn law_settlement_is_seen_as_it_is(stage: Settlement)
    ensures
        match stage {
            Settlement::OpenVault => stage@ == Stage::OpenVault,
            Settlement::ResolvePersona { protection } => stage@ == (Stage::ResolvePersona {
                protection: protection@,
            }),
            Settlement::LoadPersona { protection, profile } => stage@ == (Stage::LoadPersona {
                protection: protection@,
                profile: profile@,
            }),
            Settlement::ImportPersona { protection, profile, display_name, master } => stage@ == (
            Stage::ImportPersona {
                protection: protection@,
                profile: profile@,
                display_name: display_name@,
                master: master@,
            }),
            Settlement::Settled { home } => stage@ == (Stage::Settled { home: home@ }),
        },
{
}

/// A reply of the vault is seen as what it is, with what it holds.
pub proof fn law_vault_reply_is_seen_as_it_is(reply: VaultReply)
    ensures
        match reply {
            VaultReply::Opened(Ok(protection)) => reply@ == Reply::Opened(Ok(protection@)),
            VaultReply::Opened(Err(error)) => reply@ == Reply::Opened(Err(error@)),
            VaultReply::Resolved(Ok(profile)) => reply@ == Reply::Resolved(Ok(profile@)),
            VaultReply::Resolved(Err(error)) => reply@ == Reply::Resolved(Err(error@)),
            VaultReply::Loaded(Ok(key)) => reply@ == Reply::Loaded(Ok(key@)),
            VaultReply::Loaded(Err(error)) => reply@ == Reply::Loaded(Err(error@)),
            VaultReply::Imported(Ok(_)) => reply@ == Reply::Imported(Ok(())),
            VaultReply::Imported(Err(error)) => reply@ == Reply::Imported(Err(error@)),
        },
{
}

} // verus!
