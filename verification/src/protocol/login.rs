use crate::protocol::types;
use crate::protocol::types::{PrefixedOptional, Property};
use vstd::prelude::*;

verus! {

/// How far the login of a client has come.
#[derive(Debug)]
pub enum LoginState {
    /// The encryption request has gone out with this verify token; the
    /// encryption response has not come back yet.
    Start([u8; 4]),
    /// The client has proved that it holds the server's public key.
    Verified,
}

/// The secrets of an encrypted connection.
#[derive(Debug)]
pub struct EncryptionState {
    pub verify_token: [u8; 4],
    pub shared_secret: Option<[u8; 16]>,
    pub initial_vector: Option<[u8; 16]>,
}

/// What the session server answers when it confirms that a player joined.
#[derive(Debug)]
pub struct MojangAuthenticateResult {
    pub id: [u8; 16],
    pub name: std::string::String,
    pub properties: Vec<MojangProfileProperty>,
}

/// One signed property of a profile, as the session server gives it.
#[derive(Debug)]
pub struct MojangProfileProperty {
    pub name: std::string::String,
    pub value: std::string::String,
    pub signature: std::string::String,
}

impl From<&MojangProfileProperty> for types::Property {
    fn from(value: &MojangProfileProperty) -> (res: Self) {
        Property {
            name: types::String(value.name.clone()),
            value: types::String(value.value.clone()),
            signature: PrefixedOptional(Some(types::String(value.signature.clone()))),
        }
    }
}

impl vstd::std_specs::convert::FromSpecImpl<&MojangProfileProperty> for types::Property {
    open spec fn obeys_from_spec() -> bool {
        true
    }

    open spec fn from_spec(value: &MojangProfileProperty) -> types::Property {
        Property {
            name: types::String(value.name),
            value: types::String(value.value),
            signature: PrefixedOptional(Some(types::String(value.signature))),
        }
    }
}

} // verus!
