use vstd::prelude::*;
use crate::errors::PasswordError;

verus! {

/// The capability that every password-hashing algorithm provides.
///
/// An algorithm describes itself through three spec functions: which digests it
/// may hand out for a password, which digests it can read, and the verdict it
/// reaches on a readable digest (`Some(true)` a match, `Some(false)` a
/// mismatch, `None` a computation that could not complete).
pub trait PasswordHasherImpl {
    /// `digest` is one of the digests that hashing `password` may return.
    spec fn produces(&self, password: Seq<char>, digest: Seq<char>) -> bool;

    /// `digest` is well formed for this algorithm.
    spec fn readable(&self, digest: Seq<char>) -> bool;

    /// The outcome of checking `password` against a readable `digest`.
    spec fn verdict(&self, password: Seq<char>, digest: Seq<char>) -> Option<bool>;

    /// Hashes `password` into a self-describing digest. The `salt` hint may be
    /// ignored: an algorithm is free to draw its own salt, and callers must not
    /// rely on the hint being honoured.
    fn hash_password(&self, password: &str, salt: &str) -> (r: Result<String, PasswordError>)
        ensures
            match r {
                Ok(d) => self.produces(password@, d@),
                Err(e) => e is HashError,
            },
    ;

    /// Checks `password` against `hashed`: `Ok(true)` on a match, `Ok(false)`
    /// on a mismatch, and `VerifyError` when `hashed` cannot be read or the
    /// check cannot complete.
    fn verify_password(&self, password: &str, hashed: &str) -> (r: Result<bool, PasswordError>)
        ensures
            match r {
                Ok(b) => self.readable(hashed@) && self.verdict(password@, hashed@) == Some(b),
                Err(e) => e is VerifyError && (!self.readable(hashed@) || self.verdict(
                    password@,
                    hashed@,
                ) is None),
            },
    ;
}

} // verus!
