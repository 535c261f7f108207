//! A host's own identity.

use vstd::prelude::*;

use crate::home::IdentityHome;
use crate::key::PublicKey;
use crate::text::hex_text;
use crate::token::encode_contact_token;

verus! {

/// A durable host identity: the public key it is known by, and where it lives.
pub struct LocalIdentity {
    master: PublicKey,
    home: IdentityHome,
}

/// A [`LocalIdentity`] with its key as bytes and its home as characters.
pub struct Identity {
    /// The encoding of the public key.
    pub key: Seq<u8>,
    /// Where the identity lives.
    pub home: crate::home::Home,
}

impl View for LocalIdentity {
    type V = Identity;

    closed spec fn view(&self) -> Identity {
        Identity { key: self.master@, home: self.home@ }
    }
}

/// Where an identity lives while the shared vault has not been asked.
pub open spec fn unconsulted() -> crate::home::Home {
    crate::home::Home::Local { reason: "the shared vault was not consulted"@ }
}

impl LocalIdentity {
    /// The identity known by `master`, before the shared vault was asked.
    pub fn new(master: PublicKey) -> (identity: LocalIdentity)
        ensures
            identity@.key == master@,
            identity@.home == unconsulted(),
            identity@.home == (crate::home::Home::Local {
                reason: "the shared vault was not consulted"@,
            }),
    {
        LocalIdentity {
            master,
            home: IdentityHome::Local { reason: "the shared vault was not consulted".to_owned() },
        }
    }

    /// The public key of this identity.
    pub fn master_public_key(&self) -> (master: PublicKey)
        ensures
            master@ == self@.key,
    {
        self.master
    }

    /// Where this identity lives, for the circle to report.
    pub fn home(&self) -> (home: &IdentityHome)
        ensures
            home@ == self@.home,
    {
        &self.home
    }

    /// Records where this identity lives. Its key stays what it is.
    pub fn settle(&mut self, home: IdentityHome)
        ensures
            final(self)@.key == old(self)@.key,
            final(self)@.home == home@,
    {
        self.home = home;
    }

    /// Short display fingerprint of the public key. This is not an address.
    pub fn fingerprint(&self) -> (fingerprint: String)
        ensures
            fingerprint@ == crate::token::fingerprint_text(self@.key),
    {
        let bytes = self.master.to_bytes();
        let mut first: [u8; 6] = [0;6];
        for i in 0..6usize
            invariant
                forall|j: int| 0 <= j < i ==> first@[j] == bytes@[j],
        {
            first[i] = bytes[i];
        }
        proof {
            assert(first@ =~= bytes@.take(6));
        }
        hex_text(&first)
    }

    /// The whole public key as a copyable contact token: 64 lowercase hex
    /// characters. Unlike [`fingerprint`](Self::fingerprint), this is the full
    /// key, so a peer can address a hand-off back to this identity.
    pub fn contact_token(&self) -> (token: String)
        ensures
            token@ == crate::text::hex(self@.key),
            token@.len() == 64,
            crate::token::token_key(token@) == Ok::<Seq<u8>, Seq<char>>(self@.key),
    {
        encode_contact_token(&self.master)
    }
}

} // verus!
