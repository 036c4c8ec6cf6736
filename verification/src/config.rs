//! The record of one configured token, and the registry of such records by
//! the name the user gave each.

use crate::totp::{parameter_fault, valid_parameters, ConfigError, TOTP};
use std::collections::HashMap;
use vstd::prelude::*;
use vstd::utf8::encode_utf8;

verus! {

/// What is kept of one token: the parameters of its generator and how its
/// tokens are printed.
#[derive(Debug)]
pub struct TokenConfig {
    /// The shared secret, as text. Its UTF-8 bytes are the key.
    pub secret: String,
    /// The number of decimal digits of a token.
    pub digits: usize,
    /// The width of a time window, in seconds.
    pub timestep: u64,
    /// The template that a token is printed with, if any.
    pub format: Option<String>,
}

impl TokenConfig {
    /// A record is valid when a generator can be made of its parameters.
    pub open spec fn valid(&self) -> bool {
        valid_parameters(self.digits, self.timestep)
    }

    /// The key that the record stands for: the UTF-8 bytes of the secret.
    pub open spec fn secret_bytes(&self) -> Seq<u8> {
        encode_utf8(self.secret@)
    }

    /// The generator that the record describes, keyed with the bytes of the
    /// secret, or what is wrong with the record's parameters.
    pub fn totp(&self) -> (result: Result<TOTP<'_>, ConfigError>)
        ensures
            result is Ok <==> self.valid(),
            result matches Ok(totp) ==> {
                &&& totp.valid()
                &&& totp.secret@ == self.secret_bytes()
                &&& totp.digits == self.digits
                &&& totp.timestep == self.timestep
            },
            result matches Err(error) ==> {
                parameter_fault(self.digits, self.timestep) == Some(error)
            },
    {
        TOTP::try_new(self.secret.as_str().as_bytes(), self.digits, self.timestep)
    }
}

/// The registry: the configured tokens, each under its name.
pub struct TOTPGenConfig {
    /// The record of each token, by the token's name.
    pub tokens: HashMap<String, TokenConfig>,
}

impl Default for TOTPGenConfig {
    /// The registry without any token.
    fn default() -> (config: Self)
        ensures
            config.tokens@ == Map::<String, TokenConfig>::empty(),
    {
        Self { tokens: HashMap::new() }
    }
}

} // verus!
