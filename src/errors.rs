use vstd::prelude::*;
use vstd::string::StringExecFns;

verus! {

/// Failures of the hashing operations. A wrong password is not one of them:
/// verification reports it as `Ok(false)`.
#[derive(Debug, Clone, PartialEq, Eq)]
pub enum PasswordError {
    /// Hashing could not complete (bad parameters, no randomness, oversized input).
    HashError(String),
    /// Verification could not complete (malformed or unsupported digest, failed recomputation).
    VerifyError(String),
}

impl PasswordError {
    /// The human-readable description of the failure, for the caller's logs.
    pub fn message(&self) -> (r: String)
        ensures
            match self {
                PasswordError::HashError(m) => r@ == "Hash error: "@ + m@,
                PasswordError::VerifyError(m) => r@ == "Verify error: "@ + m@,
            },
    {
        match self {
            PasswordError::HashError(m) => String::from_str("Hash error: ").concat(m.as_str()),
            PasswordError::VerifyError(m) => String::from_str("Verify error: ").concat(m.as_str()),
        }
    }
}

} // verus!
