use vstd::prelude::*;
use crate::algorithms::PasswordHasherImpl;
use crate::errors::PasswordError;
use vstd::string::StringExecFns;
use vstd::utf8::encode_utf8;

verus! {

/// Default memory cost, in KiB.
pub const DEFAULT_M_COST: u32 = 19456;
/// Default number of passes.
pub const DEFAULT_T_COST: u32 = 2;
/// Default degree of parallelism.
pub const DEFAULT_P_COST: u32 = 1;
/// Default length of the derived key, in bytes.
pub const DEFAULT_OUTPUT_LEN: usize = 32;
/// Smallest memory cost Argon2 accepts, in KiB.
pub const MIN_M_COST: u32 = 8;
/// Largest degree of parallelism Argon2 accepts.
pub const MAX_P_COST: u32 = 0xFFFFFF;
/// Shortest derived key a PHC digest holds, in bytes.
pub const MIN_OUTPUT_LEN: usize = 10;
/// Longest derived key a PHC digest holds, in bytes.
pub const MAX_OUTPUT_LEN: usize = 64;
/// Longest password Argon2 accepts, in UTF-8 bytes.
pub const MAX_PWD_LEN: u64 = 0xFFFF_FFFF;

/// The number of bytes in the UTF-8 encoding of a text.
pub open spec fn utf8_len(s: Seq<char>) -> int {
    vstd::utf8::encode_utf8(s).len() as int
}

/// The cost parameters of one Argon2 instance: memory (KiB), passes,
/// parallelism and length of the derived key.
#[derive(Debug, Clone, Copy, PartialEq, Eq)]
pub struct Argon2Params {
    pub m_cost: u32,
    pub t_cost: u32,
    pub p_cost: u32,
    pub output_len: usize,
}

impl Argon2Params {
    /// The ranges that Argon2 accepts: at least eight blocks of memory, and
    /// eight per lane; at least one pass; between one and 2^24 - 1 lanes. The
    /// derived key is 10 to 64 bytes long, what a PHC digest can hold.
    pub open spec fn valid(&self) -> bool {
        &&& self.m_cost >= MIN_M_COST
        &&& self.m_cost >= 8 * self.p_cost
        &&& self.t_cost >= 1
        &&& 1 <= self.p_cost <= MAX_P_COST
        &&& MIN_OUTPUT_LEN <= self.output_len <= MAX_OUTPUT_LEN
    }

    /// Whether the parameters lie in the ranges Argon2 accepts.
    pub fn is_valid(&self) -> (r: bool)
        ensures
            r == self.valid(),
    {
        self.m_cost >= MIN_M_COST && self.m_cost as u64 >= 8 * (self.p_cost as u64)
            && self.t_cost >= 1 && 1 <= self.p_cost && self.p_cost <= MAX_P_COST
            && MIN_OUTPUT_LEN <= self.output_len && self.output_len <= MAX_OUTPUT_LEN
    }

    /// Parameters with the given costs, refused with `HashError` when Argon2
    /// would not accept them.
    pub fn new(m_cost: u32, t_cost: u32, p_cost: u32, output_len: usize) -> (r: Result<
        Argon2Params,
        PasswordError,
    >)
        ensures
            match r {
                Ok(p) => p.valid() && p.m_cost == m_cost && p.t_cost == t_cost && p.p_cost
                    == p_cost && p.output_len == output_len,
                Err(e) => e matches PasswordError::HashError(m) && m@ == "invalid Argon2 parameters"@
                    && !(Argon2Params { m_cost, t_cost, p_cost, output_len }).valid(),
            },
    {
        let p = Argon2Params { m_cost, t_cost, p_cost, output_len };
        if p.is_valid() {
            Ok(p)
        } else {
            Err(PasswordError::HashError(String::from_str("invalid Argon2 parameters")))
        }
    }
}

impl Default for Argon2Params {
    /// About 19 MiB of memory, two passes, one lane, a 32-byte key.
    fn default() -> (r: Self)
        ensures
            r.m_cost == DEFAULT_M_COST && r.t_cost == DEFAULT_T_COST && r.p_cost == DEFAULT_P_COST
                && r.output_len == DEFAULT_OUTPUT_LEN,
            r.valid(),
    {
        Argon2Params {
            m_cost: DEFAULT_M_COST,
            t_cost: DEFAULT_T_COST,
            p_cost: DEFAULT_P_COST,
            output_len: DEFAULT_OUTPUT_LEN,
        }
    }
}


/// Bytes of fresh randomness in every salt: 128 bits.
pub const SALT_LEN: usize = 16;
/// Longest salt a PHC digest holds, in bytes (64 B64 characters).
pub const MAX_SALT_LEN: usize = 48;

/// The B64 text (PHC alphabet, unpadded) that encodes salt bytes.
pub uninterp spec fn b64_salt(bytes: Seq<u8>) -> Seq<char>;

/// The PHC string of an Argon2id (version 0x13) digest with the given costs,
/// over the password's UTF-8 bytes and the salt given as B64 text.
pub uninterp spec fn argon2_phc(
    m_cost: u32,
    t_cost: u32,
    p_cost: u32,
    output_len: usize,
    password: Seq<char>,
    salt: Seq<char>,
) -> Seq<char>;

/// Why the text does not parse as a PHC string, or `None` when it does.
pub uninterp spec fn phc_parse_error(digest: Seq<char>) -> Option<Seq<char>>;

/// Whether the text parses as a PHC string.
pub open spec fn phc_parses(digest: Seq<char>) -> bool {
    phc_parse_error(digest) is None
}

/// What Argon2 concludes of a password against a parsed PHC string, with the
/// algorithm, version, costs and salt that the string carries: `Ok(true)`
/// when the recomputed key equals the stored one; `Ok(false)` when it
/// differs, when the string carries no salt or no key, and when the password
/// is longer than Argon2 accepts; `Err` with the error's text when the
/// recomputation fails.
pub uninterp spec fn argon2_verdict(password: Seq<char>, digest: Seq<char>) -> Result<bool, Seq<char>>;

/// An ASCII decimal digit.
pub open spec fn is_digit(b: u8) -> bool {
    0x30 <= b <= 0x39
}

/// The number written by the decimal digits `s[start..end]`.
pub open spec fn digits_value(s: Seq<u8>, start: int, end: int) -> int
    decreases end - start,
{
    if end <= start {
        0
    } else {
        digits_value(s, start, end - 1) * 10 + (s[end - 1] - 0x30)
    }
}

/// At `i` the text holds `p=` followed by the digits `s[i + 2..e]`, and their
/// value exceeds `MAX_P_COST`.
pub open spec fn lanes_exceed_at(s: Seq<u8>, i: int, e: int) -> bool {
    &&& 0 <= i
    &&& i + 2 < e <= s.len()
    &&& s[i] == 0x70u8
    &&& s[i + 1] == 0x3Du8
    &&& forall|k: int| i + 2 <= k < e ==> is_digit(#[trigger] s[k])
    &&& digits_value(s, i + 2, e) > MAX_P_COST
}

/// The text asks for more lanes than Argon2 supports: some `p=` in it is
/// followed by a decimal above `MAX_P_COST`.
pub open spec fn lanes_out_of_range(s: Seq<u8>) -> bool {
    exists|i: int, e: int| lanes_exceed_at(s, i, e)
}

/// Whether some `p=` in the text is followed by a decimal above `MAX_P_COST`.
pub fn has_lanes_out_of_range(b: &[u8]) -> (r: bool)
    ensures
        r == lanes_out_of_range(b@),
{
    let mut i: usize = 0;
    while i < b.len() && b.len() - i > 2
        invariant
            i <= b.len(),
            forall|i0: int, e: int| 0 <= i0 < i ==> !#[trigger] lanes_exceed_at(b@, i0, e),
        decreases b.len() - i,
    {
        if b[i] == 0x70u8 && b[i + 1] == 0x3Du8 {
            let mut j: usize = i + 2;
            let mut v: u64 = 0;
            while j < b.len() && 0x30u8 <= b[j] && b[j] <= 0x39u8
                invariant
                    i + 2 <= j <= b.len(),
                    b@[i as int] == 0x70u8,
                    b@[i + 1] == 0x3Du8,
                    v == digits_value(b@, i + 2, j as int),
                    v <= MAX_P_COST,
                    forall|k: int| i + 2 <= k < j ==> is_digit(#[trigger] b@[k]),
                    forall|e: int| i + 2 < e <= j ==> #[trigger] digits_value(b@, i + 2, e) <= MAX_P_COST,
                decreases b.len() - j,
            {
                v = v * 10 + (b[j] - 0x30u8) as u64;
                j = j + 1;
                if v > MAX_P_COST as u64 {
                    assert(lanes_exceed_at(b@, i as int, j as int));
                    return true;
                }
            }
            assert forall|e: int| !#[trigger] lanes_exceed_at(b@, i as int, e) by {
                if lanes_exceed_at(b@, i as int, e) && e > j {
                    assert(is_digit(b@[j as int]));
                }
            }
        }
        i = i + 1;
    }
    assert forall|i0: int, e: int| !#[trigger] lanes_exceed_at(b@, i0, e) by {
        if lanes_exceed_at(b@, i0, e) {
            assert(i0 < i);
        }
    }
    false
}

/// The text of the `VerifyError` that checking `password` against `digest`
/// reports, when it reports one.
pub open spec fn verify_error_text(password: Seq<char>, digest: Seq<char>) -> Seq<char> {
    if utf8_len(password) > MAX_PWD_LEN {
        "password too long"@
    } else if lanes_out_of_range(encode_utf8(digest)) {
        "parallelism out of range"@
    } else {
        match phc_parse_error(digest) {
            Some(t) => t,
            None => match argon2_verdict(password, digest) {
                Err(t) => t,
                Ok(_) => Seq::empty(),
            },
        }
    }
}

/// Relies on rand's `OsRng` through `RngCore::try_fill_bytes`: fills the
/// buffer from the operating system's secure source, or reports its failure.
#[verifier::external_body]
fn fill_from_os(buf: &mut Vec<u8>) -> (r: Result<(), String>)
    ensures
        final(buf)@.len() == old(buf)@.len(),
{
    rand::RngCore::try_fill_bytes(&mut rand::rngs::OsRng, buf.as_mut_slice()).map_err(
        |e| e.to_string(),
    )
}

/// Relies on password_hash's `SaltString::encode_b64`: the B64 text of the
/// bytes, which fits its 64-character buffer for up to 48 bytes.
#[verifier::external_body]
fn encode_salt(bytes: &Vec<u8>) -> (r: Result<String, String>)
    ensures
        r is Ok ==> r->Ok_0@ == b64_salt(bytes@),
        bytes@.len() <= MAX_SALT_LEN ==> r is Ok,
{
    match argon2::password_hash::SaltString::encode_b64(bytes.as_slice()) {
        Ok(s) => Ok(s.as_str().to_string()),
        Err(e) => Err(e.to_string()),
    }
}

/// A digest that reads back and verifies under `password`: it opens with `$`,
/// asks for no more lanes than Argon2 supports, parses, and Argon2 finds that
/// `password` matches it.
pub open spec fn verifies_back(password: Seq<char>, digest: Seq<char>) -> bool {
    &&& digest.len() > 0
    &&& digest[0] == '$'
    &&& !lanes_out_of_range(encode_utf8(digest))
    &&& phc_parse_error(digest) is None
    &&& argon2_verdict(password, digest) == Ok::<bool, Seq<char>>(true)
}

/// Relies on argon2's `Params::new`, `Argon2::from(Params)` (its default
/// algorithm Argon2id and version 0x13) and `PasswordHasher::hash_password`,
/// whose `PasswordHash` is written out as its PHC string. `Params::new` is
/// handed only valid costs, on which it neither fails nor overflows. Hashing
/// succeeds when the salt text is the B64 of 8 to 48 bytes (`Salt::from_b64`,
/// argon2's salt bounds), the key length fits an `Output` (10 to 64 bytes) and
/// the password has at most `MAX_PWD_LEN` bytes. The digest written,
/// `$argon2id$v=19$m=..,t=..,p=..$<salt>$<key>`, holds B64 text and one `p=`
/// with the given lane count; `PasswordHash::new` parses it back to the same
/// fields, and `verify_password` recomputes the same key from them.
#[verifier::external_body]
fn argon2_hash(params: &Argon2Params, password: &str, salt: &str) -> (r: Result<String, String>)
    requires
        params.valid(),
    ensures
        r is Ok ==> r->Ok_0@ == argon2_phc(
            params.m_cost,
            params.t_cost,
            params.p_cost,
            params.output_len,
            password@,
            salt@,
        ),
        r is Ok ==> verifies_back(password@, r->Ok_0@),
        utf8_len(password@) <= MAX_PWD_LEN && (exists|b: Seq<u8>|
            #![trigger b64_salt(b)]
            8 <= b.len() <= MAX_SALT_LEN && salt@ == b64_salt(b)) ==> r is Ok,
{
    let costs = argon2::Params::new(
        params.m_cost,
        params.t_cost,
        params.p_cost,
        Some(params.output_len),
    ).map_err(|e| e.to_string())?;
    let salt = argon2::password_hash::Salt::from_b64(salt).map_err(|e| e.to_string())?;
    let hasher = argon2::Argon2::from(costs);
    match argon2::PasswordHasher::hash_password(&hasher, password.as_bytes(), salt) {
        Ok(h) => Ok(h.to_string()),
        Err(e) => Err(e.to_string()),
    }
}

/// How a check of a password against a stored digest ended.
#[derive(Debug, Clone, PartialEq, Eq)]
pub enum CheckOutcome {
    /// The recomputed key equals the stored one.
    Match,
    /// The digest is well formed and the recomputed key differs from the
    /// stored one, or there is no salt or key to recompute and compare.
    Mismatch,
    /// The digest does not parse; the text says why.
    Malformed(String),
    /// The digest parses but the key could not be recomputed; the text says why.
    Failed(String),
}

/// Relies on password_hash's `PasswordHash::new`, which refuses an empty
/// string and one that does not open with `$`, and on argon2's
/// `PasswordVerifier::verify_password`, which recomputes the key with the
/// digest's own algorithm, version, costs and salt, compares it in constant
/// time, and reports a mismatch as `Error::Password`. Other errors are
/// carried as their `Display` text, a function of the inputs alone. The digest
/// asks for no more than `MAX_P_COST` lanes: `Params::new` multiplies the lane
/// count by 8 in `u32`, which would overflow beyond that.
#[verifier::external_body]
fn argon2_check(password: &str, hashed: &str) -> (r: CheckOutcome)
    requires
        !lanes_out_of_range(encode_utf8(hashed@)),
    ensures
        match phc_parse_error(hashed@) {
            Some(t) => r matches CheckOutcome::Malformed(m) && m@ == t,
            None => match argon2_verdict(password@, hashed@) {
                Ok(true) => r is Match,
                Ok(false) => r is Mismatch,
                Err(t) => r matches CheckOutcome::Failed(m) && m@ == t,
            },
        },
        hashed@.len() == 0 || hashed@[0] != '$' ==> r is Malformed,
{
    let parsed = match argon2::PasswordHash::new(hashed) {
        Ok(p) => p,
        Err(e) => return CheckOutcome::Malformed(e.to_string()),
    };
    let verifier = argon2::Argon2::default();
    match argon2::PasswordVerifier::verify_password(&verifier, password.as_bytes(), &parsed) {
        Ok(()) => CheckOutcome::Match,
        Err(argon2::password_hash::Error::Password) => CheckOutcome::Mismatch,
        Err(e) => CheckOutcome::Failed(e.to_string()),
    }
}

/// The result that verification reports for each way a check can end:
/// a match or mismatch is a boolean, anything else a `VerifyError` carrying
/// the description.
pub fn resolve_outcome(outcome: CheckOutcome) -> (r: Result<bool, PasswordError>)
    ensures
        match outcome {
            CheckOutcome::Match => r == Ok::<bool, PasswordError>(true),
            CheckOutcome::Mismatch => r == Ok::<bool, PasswordError>(false),
            CheckOutcome::Malformed(m) => r == Err::<bool, PasswordError>(PasswordError::VerifyError(m)),
            CheckOutcome::Failed(m) => r == Err::<bool, PasswordError>(PasswordError::VerifyError(m)),
        },
{
    match outcome {
        CheckOutcome::Match => Ok(true),
        CheckOutcome::Mismatch => Ok(false),
        CheckOutcome::Malformed(m) => Err(PasswordError::VerifyError(m)),
        CheckOutcome::Failed(m) => Err(PasswordError::VerifyError(m)),
    }
}

/// The Argon2id realization of the hashing capability, with fixed costs.
#[derive(Debug, Clone, Copy, PartialEq, Eq)]
pub struct Argon2Impl {
    /// The costs used for every digest this instance produces.
    pub params: Argon2Params,
}

impl Default for Argon2Impl {
    fn default() -> (r: Self)
        ensures
            r.params.m_cost == DEFAULT_M_COST && r.params.t_cost == DEFAULT_T_COST
                && r.params.p_cost == DEFAULT_P_COST && r.params.output_len == DEFAULT_OUTPUT_LEN,
            r.params.valid(),
    {
        Argon2Impl { params: Argon2Params::default() }
    }
}

impl Argon2Impl {
    /// Hashes `password` with the given salt bytes: they are encoded as the
    /// digest's salt and the key is derived with this instance's costs. It
    /// succeeds exactly when the costs are valid, the salt has `SALT_LEN` to
    /// `MAX_SALT_LEN` bytes and the password at most `MAX_PWD_LEN` bytes; the
    /// digest is then determined by the password, the salt and the costs.
    pub fn hash_with_salt(&self, password: &str, salt: &Vec<u8>) -> (r: Result<String, PasswordError>)
        ensures
            r is Ok <==> self.params.valid() && SALT_LEN <= salt@.len() <= MAX_SALT_LEN
                && utf8_len(password@) <= MAX_PWD_LEN,
            r is Ok ==> r->Ok_0@ == argon2_phc(
                self.params.m_cost,
                self.params.t_cost,
                self.params.p_cost,
                self.params.output_len,
                password@,
                b64_salt(salt@),
            ),
            r is Ok ==> verifies_back(password@, r->Ok_0@),
            r is Err ==> r->Err_0 is HashError,
            r matches Err(PasswordError::HashError(m)) ==> m@ == (if !self.params.valid() {
                "invalid Argon2 parameters"@
            } else if salt@.len() < SALT_LEN || salt@.len() > MAX_SALT_LEN {
                "salt length out of range"@
            } else {
                "password too long"@
            }),
    {
        proof {
            reveal_strlit("invalid Argon2 parameters");
            reveal_strlit("salt length out of range");
            reveal_strlit("password too long");
        }
        if !self.params.is_valid() {
            return Err(PasswordError::HashError(String::from_str("invalid Argon2 parameters")));
        }
        if salt.len() < SALT_LEN || salt.len() > MAX_SALT_LEN {
            return Err(PasswordError::HashError(String::from_str("salt length out of range")));
        }
        if password.as_bytes().len() as u64 > MAX_PWD_LEN {
            return Err(PasswordError::HashError(String::from_str("password too long")));
        }
        let encoded = match encode_salt(salt) {
            Ok(s) => s,
            Err(m) => return Err(PasswordError::HashError(m)),
        };
        assert(8 <= salt@.len() <= MAX_SALT_LEN && encoded@ == b64_salt(salt@));
        match argon2_hash(&self.params, password, encoded.as_str()) {
            Ok(d) => Ok(d),
            Err(m) => Err(PasswordError::HashError(m)),
        }
    }
}

impl PasswordHasherImpl for Argon2Impl {
    /// A digest of this instance's costs over the password and the B64 text of
    /// some `SALT_LEN` salt bytes, which verifies back under the password.
    open spec fn produces(&self, password: Seq<char>, digest: Seq<char>) -> bool {
        &&& self.params.valid()
        &&& utf8_len(password) <= MAX_PWD_LEN
        &&& verifies_back(password, digest)
        &&& exists|salt: Seq<u8>|
            #![trigger b64_salt(salt)]
            salt.len() == SALT_LEN && digest == argon2_phc(
                self.params.m_cost,
                self.params.t_cost,
                self.params.p_cost,
                self.params.output_len,
                password,
                b64_salt(salt),
            )
    }

    /// A PHC string: it opens with `$`, asks for no more lanes than Argon2
    /// supports, and parses.
    open spec fn readable(&self, digest: Seq<char>) -> bool {
        digest.len() > 0 && digest[0] == '$' && !lanes_out_of_range(encode_utf8(digest))
            && phc_parses(digest)
    }

    /// Argon2's verdict, but a password longer than Argon2 accepts is a
    /// failure rather than a mismatch: it is never silently cut short.
    open spec fn verdict(&self, password: Seq<char>, digest: Seq<char>) -> Option<bool> {
        if utf8_len(password) > MAX_PWD_LEN {
            None
        } else {
            match argon2_verdict(password, digest) {
                Ok(b) => Some(b),
                Err(_) => None,
            }
        }
    }

    /// Draws `SALT_LEN` fresh bytes from the operating system and hashes with
    /// them. The hint is ignored: a caller-chosen salt could be reused.
    fn hash_password(&self, password: &str, salt: &str) -> (r: Result<String, PasswordError>)
        ensures
            !self.params.valid() || utf8_len(password@) > MAX_PWD_LEN ==> r is Err,
    {
        let mut bytes: Vec<u8> = Vec::new();
        let mut i: usize = 0;
        while i < SALT_LEN
            invariant
                i <= SALT_LEN,
                bytes@.len() == i,
            decreases SALT_LEN - i,
        {
            bytes.push(0u8);
            i = i + 1;
        }
        match fill_from_os(&mut bytes) {
            Ok(()) => {},
            Err(m) => return Err(PasswordError::HashError(m)),
        }
        self.hash_with_salt(password, &bytes)
    }

    /// Parses `hashed`, recomputes the key with the parameters and salt it
    /// carries, and compares in constant time.
    fn verify_password(&self, password: &str, hashed: &str) -> (r: Result<bool, PasswordError>)
        ensures
            hashed@.len() == 0 || hashed@[0] != '$' ==> r matches Err(PasswordError::VerifyError(_)),
            utf8_len(password@) > MAX_PWD_LEN ==> r matches Err(PasswordError::VerifyError(_)),
            r matches Err(PasswordError::VerifyError(m)) ==> m@ == verify_error_text(
                password@,
                hashed@,
            ),
    {
        if password.as_bytes().len() as u64 > MAX_PWD_LEN {
            let r = Err(PasswordError::VerifyError(String::from_str("password too long")));
            proof {
                reveal_strlit("password too long");
            }
            return r;
        }
        if has_lanes_out_of_range(hashed.as_bytes()) {
            let r = Err(PasswordError::VerifyError(String::from_str("parallelism out of range")));
            proof {
                reveal_strlit("parallelism out of range");
            }
            return r;
        }
        resolve_outcome(argon2_check(password, hashed))
    }
}

/// A digest that an Argon2 instance hands out for a password is readable and
/// verifies under that password: checking it returns `Ok(true)`. Two digests
/// of one password, whatever salts they drew, therefore both verify.
pub proof fn lemma_own_digest_verifies(a: Argon2Impl, password: Seq<char>, digest: Seq<char>)
    requires
        a.produces(password, digest),
    ensures
        a.readable(digest),
        a.verdict(password, digest) == Some(true),
{
}

} // verus!
