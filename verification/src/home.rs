//! Where an identity lives, and how that is told.

use vstd::prelude::*;

verus! {

/// Where this identity lives, and whether it is the family persona.
///
/// A musician's durable public key is routinely already in the world: the
/// contact token they paste to a peer is that key, and hand-off envelopes name
/// it as their signer. So placing an identity in the shared vault never mints
/// a different one, and this says which of the three situations the user is
/// in.
#[derive(Debug, PartialEq, Eq)]
pub enum IdentityHome {
    /// In the shared vault as `profile`, and it is the persona the rest of the
    /// family opens. Adopted with its key intact, so tokens already shared
    /// still resolve.
    Family { profile: String, protection: String },
    /// Hocket's own key, deliberately kept apart: the family persona is a
    /// different identity, and moving onto it would change the fingerprint
    /// peers already hold.
    Apart { family_profile: String },
    /// No shared vault on this machine. The sealed record, and nothing else.
    Local { reason: String },
}

/// An [`IdentityHome`] with its strings as sequences of characters.
pub enum Home {
    /// The family persona, and what protects it.
    Family { profile: Seq<char>, protection: Seq<char> },
    /// Apart from the family persona.
    Apart { family_profile: Seq<char> },
    /// On this machine only, and why.
    Local { reason: Seq<char> },
}

impl View for IdentityHome {
    type V = Home;

    open spec fn view(&self) -> Home {
        match self {
            IdentityHome::Family { profile, protection } => Home::Family {
                profile: profile@,
                protection: protection@,
            },
            IdentityHome::Apart { family_profile } => Home::Apart {
                family_profile: family_profile@,
            },
            IdentityHome::Local { reason } => Home::Local { reason: reason@ },
        }
    }
}

impl Clone for IdentityHome {
    fn clone(&self) -> (home: Self)
        ensures
            home@ == self@,
    {
        match self {
            IdentityHome::Family { profile, protection } => IdentityHome::Family {
                profile: profile.clone(),
                protection: protection.clone(),
            },
            IdentityHome::Apart { family_profile } => IdentityHome::Apart {
                family_profile: family_profile.clone(),
            },
            IdentityHome::Local { reason } => IdentityHome::Local { reason: reason.clone() },
        }
    }
}

/// The one-line reading of a home.
pub open spec fn summary_text(home: Home) -> Seq<char> {
    match home {
        Home::Family { profile, protection } => "Persona "@ + profile
            + ", shared across your Merely apps. Held by "@ + protection + "."@,
        Home::Apart { family_profile } => "Hocket's own identity. Your persona "@ + family_profile
            + " is a different key, and moving to it would change the contact token you have already shared."@,
        Home::Local { reason } => "Hocket's own identity, on this machine only ("@ + reason
            + ")."@,
    }
}

impl IdentityHome {
    /// The one-line reading for the circle.
    pub fn summary(&self) -> (line: String)
        ensures
            line@ == summary_text(self@),
    {
        match self {
            IdentityHome::Family { profile, protection } => {
                let mut line = "Persona ".to_owned();
                line.append(profile.as_str());
                line.append(", shared across your Merely apps. Held by ");
                line.append(protection.as_str());
                line.append(".");
                line
            },
            IdentityHome::Apart { family_profile } => {
                let mut line = "Hocket's own identity. Your persona ".to_owned();
                line.append(family_profile.as_str());
                line.append(
                    " is a different key, and moving to it would change the contact token you have already shared.",
                );
                line
            },
            IdentityHome::Local { reason } => {
                let mut line = "Hocket's own identity, on this machine only (".to_owned();
                line.append(reason.as_str());
                line.append(").");
                line
            },
        }
    }
}

/// Whether `part` stands somewhere in `text`.
pub open spec fn mentions(text: Seq<char>, part: Seq<char>) -> bool {
    exists|before: Seq<char>, after: Seq<char>| text == #[trigger] (before + part + after)
}

/// The reading of a home says what the home holds: the persona and what
/// protects it; the persona it stands apart from, and that the contact token
/// is at stake; or the reason why it is local.
pub proof fn law_summary_says_what_is_held(home: Home)
    ensures
        match home {
            Home::Family { profile, protection } => {
                &&& mentions(summary_text(home), profile)
                &&& mentions(summary_text(home), protection)
            },
            Home::Apart { family_profile } => {
                &&& mentions(summary_text(home), family_profile)
                &&& mentions(summary_text(home), "contact token"@)
            },
            Home::Local { reason } => mentions(summary_text(home), reason),
        },
{
    let text = summary_text(home);
    match home {
        Home::Family { profile, protection } => {
            let middle = ", shared across your Merely apps. Held by "@;
            assert(text =~= "Persona "@ + profile + (middle + protection + "."@));
            assert(text =~= ("Persona "@ + profile + middle) + protection + "."@);
        },
        Home::Apart { family_profile } => {
            let opening = "Hocket's own identity. Your persona "@;
            let cost =
                " is a different key, and moving to it would change the contact token you have already shared."@;
            assert(text =~= opening + family_profile + cost);
            reveal_strlit(
                " is a different key, and moving to it would change the contact token you have already shared.",
            );
            reveal_strlit("contact token");
            assert(cost =~= cost.take(55) + "contact token"@ + cost.skip(68));
            assert(text =~= (opening + family_profile + cost.take(55)) + "contact token"@
                + cost.skip(68));
        },
        Home::Local { reason } => {
            assert(text =~= "Hocket's own identity, on this machine only ("@ + reason + ")."@);
        },
    }
}

/// How the readings of the three kinds of home begin.
proof fn lemma_summary_opening(home: Home)
    ensures
        match home {
            Home::Family { .. } => summary_text(home)[0] == 'P',
            Home::Apart { .. } => summary_text(home)[0] == 'H' && summary_text(home)[21] == '.',
            Home::Local { .. } => summary_text(home)[0] == 'H' && summary_text(home)[21] == ',',
        },
{
    reveal_strlit("Persona ");
    reveal_strlit("Hocket's own identity. Your persona ");
    reveal_strlit("Hocket's own identity, on this machine only (");
    match home {
        Home::Family { .. } => {
            assert("Persona "@[0] == 'P');
        },
        Home::Apart { .. } => {
            assert("Hocket's own identity. Your persona "@[0] == 'H');
            assert("Hocket's own identity. Your persona "@[21] == '.');
        },
        Home::Local { .. } => {
            assert("Hocket's own identity, on this machine only ("@[0] == 'H');
            assert("Hocket's own identity, on this machine only ("@[21] == ',');
        },
    }
}

/// Every reading says which of the three situations the user is in: homes of
/// different kinds never read alike.
pub proof fn law_summary_tells_situations_apart(home: Home, other: Home)
    requires
        summary_text(home) == summary_text(other),
    ensures
        home is Family <==> other is Family,
        home is Apart <==> other is Apart,
        home is Local <==> other is Local,
{
    lemma_summary_opening(home);
    lemma_summary_opening(other);
}

/// A home apart is told what moving would cost: whatever the persona is called,
/// that it is a different key, and that moving to it would change the contact
/// token. The words around the name are the same for every name.
pub proof fn law_apart_is_told_the_cost(family_profile: Seq<char>)
    ensures
        ({
            let line = summary_text(Home::Apart { family_profile });
            let before = "Hocket's own identity. Your persona "@;
            let after =
                " is a different key, and moving to it would change the contact token you have already shared."@;
            &&& line == before + family_profile + after
            &&& mentions(line, "is a different key"@)
            &&& mentions(line, "moving to it would change the contact token"@)
        }),
{
    let line = summary_text(Home::Apart { family_profile });
    let before = "Hocket's own identity. Your persona "@;
    let after =
        " is a different key, and moving to it would change the contact token you have already shared."@;
    reveal_strlit(
        " is a different key, and moving to it would change the contact token you have already shared.",
    );
    reveal_strlit("is a different key");
    reveal_strlit("moving to it would change the contact token");
    assert(after =~= after.take(1) + "is a different key"@ + after.skip(19));
    assert(line =~= (before + family_profile + after.take(1)) + "is a different key"@
        + after.skip(19));
    assert(after =~= after.take(25) + "moving to it would change the contact token"@ + after.skip(
        68,
    ));
    assert(line =~= (before + family_profile + after.take(25))
        + "moving to it would change the contact token"@ + after.skip(68));
}

/// A home in the family is told whose it is and what holds it, and a local one
/// why it is local, in words that are the same whatever is filled in.
pub proof fn law_homes_are_told_in_the_same_words(
    profile: Seq<char>,
    protection: Seq<char>,
    reason: Seq<char>,
)
    ensures
        summary_text(Home::Family { profile, protection }) == "Persona "@ + profile
            + ", shared across your Merely apps. Held by "@ + protection + "."@,
        summary_text(Home::Local { reason }) == "Hocket's own identity, on this machine only ("@
            + reason + ")."@,
{
}

/// A home is seen as what it is, with what it holds.
pub proof fn law_home_is_seen_as_it_is(home: IdentityHome)
    ensures
        match home {
            IdentityHome::Family { profile, protection } => home@ == (Home::Family {
                profile: profile@,
                protection: protection@,
            }),
            IdentityHome::Apart { family_profile } => home@ == (Home::Apart {
                family_profile: family_profile@,
            }),
            IdentityHome::Local { reason } => home@ == (Home::Local { reason: reason@ }),
        },
{
}

} // verus!
