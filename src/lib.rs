//! Password hashing behind a small capability interface, with an Argon2
//! realization and a facade that forwards to whichever algorithm it holds.

mod algorithms;
mod argon2_impl;
mod errors;

pub use algorithms::PasswordHasherImpl;
pub use argon2_impl::{
    argon2_phc, argon2_verdict, b64_salt, digits_value, has_lanes_out_of_range, is_digit,
    lanes_exceed_at, lanes_out_of_range, lemma_own_digest_verifies, verifies_back, phc_parse_error, phc_parses, resolve_outcome, utf8_len,
    verify_error_text, Argon2Impl, Argon2Params, CheckOutcome, DEFAULT_M_COST, DEFAULT_OUTPUT_LEN,
    DEFAULT_P_COST, DEFAULT_T_COST, MAX_OUTPUT_LEN, MAX_P_COST, MAX_PWD_LEN, MAX_SALT_LEN, MIN_OUTPUT_LEN,
    SALT_LEN,
};
pub use errors::PasswordError;

use vstd::prelude::*;

verus! {

/// Holds one hashing algorithm, fixed at construction, and forwards every call
/// to it, so that call sites do not depend on the algorithm chosen.
pub struct PasswordHasher<A: PasswordHasherImpl> {
    algorithm: Box<A>,
}

impl<A: PasswordHasherImpl> PasswordHasher<A> {
    /// The algorithm this facade forwards to.
    pub closed spec fn algorithm(&self) -> A {
        *self.algorithm
    }

    /// A facade bound to `algorithm` for its whole lifetime.
    pub fn new(algorithm: Box<A>) -> (r: Self)
        ensures
            r.algorithm() == *algorithm,
    {
        PasswordHasher { algorithm }
    }

    /// Hashes `password` with the held algorithm.
    pub fn hash_password(&self, password: &str) -> (r: Result<String, PasswordError>)
        ensures
            match r {
                Ok(d) => self.algorithm().produces(password@, d@),
                Err(e) => e is HashError,
            },
    {
        self.algorithm.hash_password(password, "")
    }

    /// Checks `password` against `hashed` with the held algorithm.
    pub fn verify_password(&self, password: &str, hashed: &str) -> (r: Result<bool, PasswordError>)
        ensures
            match r {
                Ok(b) => self.algorithm().readable(hashed@) && self.algorithm().verdict(
                    password@,
                    hashed@,
                ) == Some(b),
                Err(e) => e is VerifyError && (!self.algorithm().readable(hashed@)
                    || self.algorithm().verdict(password@, hashed@) is None),
            },
    {
        self.algorithm.verify_password(password, hashed)
    }
}

} // verus!
