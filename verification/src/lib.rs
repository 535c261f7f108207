//! Host-local Hocket identity: the key a musician is known by, the contact
//! tokens they paste to peers, and the decisions that place an identity on a
//! machine without ever changing who it is.
//!
//! What reads or writes a disk is left to the host. The stages of
//! [`records`], [`roots`], [`settle`] and [`opening`] say what to ask for, and
//! take the replies.

pub mod disk;
pub mod home;
pub mod identity;
pub mod key;
pub mod machine;
pub mod opened;
pub mod opening;
pub mod records;
pub mod roots;
pub mod settle;
pub mod text;
pub mod token;
pub mod vault;

pub use home::IdentityHome;
pub use identity::LocalIdentity;
pub use key::PublicKey;
pub use token::{encode_contact_token, parse_contact_token};
