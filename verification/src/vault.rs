//! What settling an identity does to a shared vault, and what it never does.
//!
//! The laws here hold of every vault that answers as [`Vault`] does: it loads
//! what it holds, and it refuses to import over a persona that it holds.

use vstd::prelude::*;

use crate::home::Home;
use crate::settle::{Reply, Stage};

verus! {

/// A persona in a vault.
pub struct Persona {
    /// The name it is shown by.
    pub display_name: Seq<char>,
    /// The encoding of its public key.
    pub key: Seq<u8>,
}

/// A shared vault: what it holds, and how the requests made of it fare.
pub struct Vault {
    /// What protects the vault, or why it does not open.
    pub opening: Result<Seq<char>, Seq<char>>,
    /// The family persona, or why it is unknown.
    pub family: Result<Seq<char>, Seq<char>>,
    /// Whether a persona that the vault holds can be loaded, or why not.
    pub loading: Result<(), Seq<char>>,
    /// Whether a new persona can be written, or why not.
    pub importing: Result<(), Seq<char>>,
    /// What is said of a persona that the vault does not hold.
    pub absent: Seq<char>,
    /// What is said to an import over a persona that the vault holds.
    pub taken: Seq<char>,
    /// The personas, by their names.
    pub personas: Map<Seq<char>, Persona>,
}

impl Vault {
    /// What the vault replies at `stage`. Nothing is asked once all is
    /// settled.
    pub open spec fn reply(self, stage: Stage) -> Reply {
        match stage {
            Stage::OpenVault => Reply::Opened(self.opening),
            Stage::ResolvePersona { .. } => Reply::Resolved(self.family),
            Stage::LoadPersona { profile, .. } => Reply::Loaded(
                if !self.personas.contains_key(profile) {
                    Err(self.absent)
                } else {
                    match self.loading {
                        Ok(()) => Ok(self.personas[profile].key),
                        Err(error) => Err(error),
                    }
                },
            ),
            Stage::ImportPersona { profile, .. } => Reply::Imported(
                if self.personas.contains_key(profile) {
                    Err(self.taken)
                } else {
                    self.importing
                },
            ),
            Stage::Settled { .. } => Reply::Imported(Ok(())),
        }
    }

    /// The vault once it has done what is asked at `stage`.
    pub open spec fn after(self, stage: Stage) -> Vault {
        match stage {
            Stage::ImportPersona { profile, display_name, master, .. } => if self.reply(
                stage,
            ) matches Reply::Imported(Ok(_)) {
                Vault {
                    personas: self.personas.insert(profile, Persona { display_name, key: master }),
                    ..self
                }
            } else {
                self
            },
            _ => self,
        }
    }
}

/// How many questions there can still be.
pub open spec fn questions_left(stage: Stage) -> nat {
    match stage {
        Stage::OpenVault => 4,
        Stage::ResolvePersona { .. } => 3,
        Stage::LoadPersona { .. } => 2,
        Stage::ImportPersona { .. } => 1,
        Stage::Settled { .. } => 0,
    }
}

/// The home that the identity known by `key` comes to, and the vault that is
/// left behind, when `vault` is asked from `stage` on.
pub open spec fn settled_from(key: Seq<u8>, stage: Stage, vault: Vault) -> (Home, Vault)
    decreases questions_left(stage),
{
    match stage {
        Stage::Settled { home } => (home, vault),
        _ => settled_from(
            key,
            crate::settle::stage_after(key, stage, vault.reply(stage)),
            vault.after(stage),
        ),
    }
}

/// The home that the identity known by `key` comes to, and the vault that is
/// left behind.
pub open spec fn settled(key: Seq<u8>, vault: Vault) -> (Home, Vault) {
    settled_from(key, Stage::OpenVault, vault)
}

/// Settling, all in one.
proof fn lemma_settled(key: Seq<u8>, vault: Vault)
    ensures
        settled(key, vault) == match (vault.opening, vault.family) {
            (Err(error), _) => (Home::Local { reason: "no shared vault here: "@ + error }, vault),
            (Ok(_), Err(error)) => (
                Home::Local { reason: "the vault would not say which persona: "@ + error },
                vault,
            ),
            (Ok(protection), Ok(profile)) => {
                let import = Stage::ImportPersona {
                    protection,
                    profile,
                    display_name: "Hocket"@,
                    master: key,
                };
                if vault.personas.contains_key(profile) && vault.loading is Ok {
                    if vault.personas[profile].key == key {
                        (Home::Family { profile, protection }, vault)
                    } else {
                        (Home::Apart { family_profile: profile }, vault)
                    }
                } else {
                    match vault.reply(import) {
                        Reply::Imported(Err(error)) => (
                            Home::Local {
                                reason: "could not place this identity in the vault: "@ + error,
                            },
                            vault,
                        ),
                        _ => (Home::Family { profile, protection }, vault.after(import)),
                    }
                }
            },
        },
{
    reveal_with_fuel(settled_from, 5);
}

/// Whether `reply` is one to what is asked at `stage`.
pub open spec fn answers_settling(stage: Stage, reply: Reply) -> bool {
    match stage {
        Stage::OpenVault => reply is Opened,
        Stage::ResolvePersona { .. } => reply is Resolved,
        Stage::LoadPersona { .. } => reply is Loaded,
        Stage::ImportPersona { .. } => reply is Imported,
        Stage::Settled { .. } => false,
    }
}

/// Every reply to what was asked leaves fewer questions, so settling ends
/// after four of them; any other reply changes nothing.
pub proof fn law_settling_ends(key: Seq<u8>, stage: Stage, reply: Reply)
    ensures
        questions_left(stage) <= 4,
        questions_left(stage) == 0 <==> stage is Settled,
        answers_settling(stage, reply) ==> questions_left(
            crate::settle::stage_after(key, stage, reply),
        ) < questions_left(stage),
        !answers_settling(stage, reply) ==> crate::settle::stage_after(key, stage, reply) == stage,
{
}

/// Nothing rotates: whatever is replied, a key that is offered for import is
/// the identity's own, under Hocket's name; and it is offered only because the
/// family persona did not load.
pub proof fn law_only_own_key_is_offered(key: Seq<u8>, stage: Stage, reply: Reply)
    requires
        stage !is ImportPersona,
        crate::settle::stage_after(key, stage, reply) is ImportPersona,
    ensures
        reply matches Reply::Loaded(Err(_)),
        stage matches Stage::LoadPersona { protection, profile } && crate::settle::stage_after(
            key,
            stage,
            reply,
        ) == (Stage::ImportPersona { protection, profile, display_name: "Hocket"@, master: key }),
{
}

/// Nothing is overwritten: every persona that a vault holds is still there, as
/// it was, when an identity has settled. What may come in is that identity's
/// own key, as the family persona.
pub proof fn law_nothing_is_overwritten(key: Seq<u8>, vault: Vault)
    ensures
        ({
            let (home, left) = settled(key, vault);
            ||| left == vault
            ||| {
                &&& vault.opening is Ok
                &&& vault.family matches Ok(profile)
                &&& !vault.personas.contains_key(profile)
                &&& left == (Vault {
                    personas: vault.personas.insert(
                        profile,
                        Persona { display_name: "Hocket"@, key },
                    ),
                    ..vault
                })
                &&& home is Family
            }
        }),
        forall|profile: Seq<char>|
            vault.personas.contains_key(profile) ==> {
                &&& #[trigger] settled(key, vault).1.personas.contains_key(profile)
                &&& settled(key, vault).1.personas[profile] == vault.personas[profile]
            },
{
    lemma_settled(key, vault);
}

/// A vault without the family persona adopts the identity, key intact.
pub proof fn law_free_persona_is_adopted(
    key: Seq<u8>,
    vault: Vault,
    protection: Seq<char>,
    profile: Seq<char>,
)
    requires
        vault.opening == Ok::<Seq<char>, Seq<char>>(protection),
        vault.family == Ok::<Seq<char>, Seq<char>>(profile),
        vault.importing is Ok,
        !vault.personas.contains_key(profile),
    ensures
        settled(key, vault).0 == (Home::Family { profile, protection }),
        settled(key, vault).1.personas == vault.personas.insert(
            profile,
            Persona { display_name: "Hocket"@, key },
        ),
{
    lemma_settled(key, vault);
}

/// A vault whose family persona is somebody else is left alone, and the
/// identity stays apart from it.
pub proof fn law_somebody_else_is_left_alone(
    key: Seq<u8>,
    vault: Vault,
    profile: Seq<char>,
)
    requires
        vault.opening is Ok,
        vault.family == Ok::<Seq<char>, Seq<char>>(profile),
        vault.loading is Ok,
        vault.personas.contains_key(profile),
        vault.personas[profile].key != key,
    ensures
        settled(key, vault).0 == (Home::Apart { family_profile: profile }),
        settled(key, vault).1 == vault,
{
    lemma_settled(key, vault);
}

/// A vault that holds the family persona and cannot load it is left alone: it
/// refuses the key that it is offered, and the identity stays local and says
/// so.
pub proof fn law_unloadable_persona_is_left_alone(
    key: Seq<u8>,
    vault: Vault,
    profile: Seq<char>,
)
    requires
        vault.opening is Ok,
        vault.family == Ok::<Seq<char>, Seq<char>>(profile),
        vault.loading is Err,
        vault.personas.contains_key(profile),
    ensures
        settled(key, vault).0 == (Home::Local {
            reason: "could not place this identity in the vault: "@ + vault.taken,
        }),
        settled(key, vault).1 == vault,
{
    lemma_settled(key, vault);
}

/// An identity is told that it is the family persona only where the vault
/// holds its key under that name when it has settled.
pub proof fn law_family_holds_own_key(key: Seq<u8>, vault: Vault)
    requires
        settled(key, vault).0 is Family,
    ensures
        ({
            let (home, left) = settled(key, vault);
            &&& home matches Home::Family { profile, protection }
            &&& vault.opening == Ok::<Seq<char>, Seq<char>>(protection)
            &&& vault.family == Ok::<Seq<char>, Seq<char>>(profile)
            &&& left.personas.contains_key(profile)
            &&& left.personas[profile].key == key
        }),
{
    lemma_settled(key, vault);
}

/// Adoption is once: the run after one that ended in the family persona, on
/// the vault that it left behind, recognises that persona and writes nothing.
pub proof fn law_second_run_recognises(key: Seq<u8>, vault: Vault)
    requires
        settled(key, vault).0 is Family,
        vault.loading is Ok,
    ensures
        settled(key, settled(key, vault).1) == settled(key, vault),
{
    lemma_settled(key, vault);
    lemma_settled(key, settled(key, vault).1);
}

/// The run after any other leaves the vault as it finds it, and ends in the
/// same home, unless the vault that took the identity in cannot load what it
/// holds.
pub proof fn law_settling_again_writes_nothing(key: Seq<u8>, vault: Vault)
    ensures
        ({
            let (home, left) = settled(key, vault);
            &&& settled(key, left).1 == left
            &&& vault.loading is Ok || home !is Family ==> settled(key, left).0 == home
        }),
{
    lemma_settled(key, vault);
    lemma_settled(key, settled(key, vault).1);
}

/// Without a vault that opens and names a persona, the identity stays local,
/// for the reason that was given, and nothing is written.
pub proof fn law_no_vault_stays_local(key: Seq<u8>, vault: Vault)
    requires
        vault.opening is Err || vault.family is Err,
    ensures
        settled(key, vault).0 is Local,
        settled(key, vault).1 == vault,
        vault.opening matches Err(error) ==> settled(key, vault).0 == (Home::Local {
            reason: "no shared vault here: "@ + error,
        }),
{
    lemma_settled(key, vault);
}

} // verus!
