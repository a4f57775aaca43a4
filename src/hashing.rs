//! The hash task's action: a PBKDF2 hash of the secret under a fresh random
//! salt, in PHC string form, encoded as standard base64 for display.

use vstd::prelude::*;
use pbkdf2::password_hash::PasswordHasher;
use vstd::string::StringSliceAdditionalSpecFns;

verus! {

#[verifier::external_type_specification]
#[verifier::external_body]
pub struct ExPasswordHashError(pbkdf2::password_hash::Error);

/// The PHC string of PBKDF2-HMAC-SHA256 over `secret` with the base64 salt
/// `salt`, `rounds` iterations and an output of `output_length` bytes.
pub uninterp spec fn pbkdf2_phc(
    secret: Seq<u8>,
    salt: Seq<char>,
    rounds: u32,
    output_length: usize,
) -> Seq<char>;

/// Whether pbkdf2's hashing takes a salt text: `Salt::from_b64` accepts it
/// (4 to 64 characters of `[a-zA-Z0-9/+.-]`) and it decodes as base64.
pub uninterp spec fn salt_accepted(s: Seq<char>) -> bool;

/// The standard, padded base64 encoding of the UTF-8 bytes of a text.
pub uninterp spec fn base64_of_text(s: Seq<char>) -> Seq<char>;

/// The iteration count of the key derivation.
pub const ROUNDS: u32 = 600_000;

/// The length of the derived key in bytes.
pub const OUTPUT_LENGTH: usize = 32;

/// The parameters of the key derivation.
#[derive(Clone, Copy, Debug, PartialEq, Eq, Structural)]
pub struct HashParams {
    pub rounds: u32,
    pub output_length: usize,
}

impl HashParams {
    /// The parameters hash tasks run with.
    pub fn standard() -> (p: HashParams)
        ensures
            p.rounds == ROUNDS,
            p.output_length == OUTPUT_LENGTH,
    {
        HashParams { rounds: ROUNDS, output_length: OUTPUT_LENGTH }
    }
}

/// Why a hash could not be derived.
#[derive(Clone, Copy, Debug, PartialEq, Eq, Structural)]
pub enum HashError {
    Derivation,
}

/// Relies on password-hash's `SaltString::generate` with rand's `OsRng`: a
/// fresh random salt of 16 bytes in unpadded base64 (22 characters), which
/// the hashing takes.
#[verifier::external_body]
fn fresh_salt() -> (r: String)
    ensures
        salt_accepted(r@),
{
    pbkdf2::password_hash::SaltString::generate(&mut rand::rngs::OsRng).as_str().to_string()
}

/// Relies on pbkdf2's `Pbkdf2::hash_password_customized` (default algorithm
/// PBKDF2-SHA256, no version), with the salt read by `Salt::from_b64` and the
/// hash written out in PHC form by its `Display`, which starts with `$`. It
/// fails only on a salt it does not take or an output length outside 10 to
/// 64 bytes. The PHC string holds the salt text between `$` separators, which
/// no salt character is, so other salts give other strings.
#[verifier::external_body]
fn hash_password(secret: &[u8], salt: &str, rounds: u32, output_length: usize) -> (r: Result<
    String,
    pbkdf2::password_hash::Error,
>)
    ensures
        salt_accepted(salt@) && 10 <= output_length <= 64 ==> r is Ok,
        r matches Ok(h) ==> h@ == pbkdf2_phc(secret@, salt@, rounds, output_length) && h@.len()
            > 0,
        r matches Ok(h) ==> forall|t: Seq<char>|
            salt_accepted(t) && t != salt@ ==> h@ != #[trigger] pbkdf2_phc(
                secret@,
                t,
                rounds,
                output_length,
            ),
{
    let s = pbkdf2::password_hash::Salt::from_b64(salt)?;
    let params = pbkdf2::Params { rounds, output_length };
    let h = pbkdf2::Pbkdf2.hash_password_customized(secret, None, None, params, s)?;
    Ok(h.to_string())
}

/// Relies on base64's `BASE64_STANDARD.encode`, whose output depends on the
/// input alone, is empty exactly when the input is, and differs for
/// different inputs.
#[verifier::external_body]
fn base64_encode(s: &str) -> (r: String)
    ensures
        r@ == base64_of_text(s@),
        r@.len() == 0 <==> s@.len() == 0,
        forall|t: Seq<char>| t != s@ ==> r@ != #[trigger] base64_of_text(t),
{
    base64::Engine::encode(&base64::prelude::BASE64_STANDARD, s)
}

/// What a derivation's outcome becomes: its PHC string in base64, or the
/// derivation error.
pub fn encode_derived(phc: Result<String, pbkdf2::password_hash::Error>) -> (r: Result<
    String,
    HashError,
>)
    ensures
        match phc {
            Ok(h) => r matches Ok(e) && e@ == base64_of_text(h@) && (h@.len() > 0 ==> e@.len()
                > 0) && forall|t: Seq<char>| t != h@ ==> e@ != #[trigger] base64_of_text(t),
            Err(_) => r == Err::<String, HashError>(HashError::Derivation),
        },
{
    match phc {
        Ok(h) => Ok(base64_encode(h.as_str())),
        Err(_) => Err(HashError::Derivation),
    }
}

/// Derives the base64-encoded PHC hash of `secret` under the base64 salt
/// `salt`. It succeeds on a salt the hashing takes and an output length of 10
/// to 64 bytes; its encoding differs from that under any other such salt.
pub fn derive_hash_with_salt(secret: &str, salt: &str, params: HashParams) -> (r: Result<
    String,
    HashError,
>)
    ensures
        salt_accepted(salt@) && 10 <= params.output_length <= 64 ==> r is Ok,
        r matches Err(e) ==> e == HashError::Derivation,
        r matches Ok(e) ==> e@.len() > 0 && e@ == base64_of_text(
            pbkdf2_phc(secret.spec_bytes(), salt@, params.rounds, params.output_length),
        ),
        r matches Ok(e) ==> forall|t: Seq<char>|
            salt_accepted(t) && t != salt@ ==> e@ != base64_of_text(
                #[trigger] pbkdf2_phc(secret.spec_bytes(), t, params.rounds, params.output_length),
            ),
{
    let phc = hash_password(secret.as_bytes(), salt, params.rounds, params.output_length);
    let ghost derived = phc;
    let r = encode_derived(phc);
    proof {
        if derived is Ok && r is Ok {
            let h = derived->Ok_0;
            let e = r->Ok_0;
            assert forall|t: Seq<char>| salt_accepted(t) && t != salt@ implies e@ != base64_of_text(
                #[trigger] pbkdf2_phc(secret.spec_bytes(), t, params.rounds, params.output_length),
            ) by {
                let p = pbkdf2_phc(secret.spec_bytes(), t, params.rounds, params.output_length);
                assert(h@ != p);
                assert(e@ != base64_of_text(p));
            }
        }
    }
    r
}

/// Derives the base64-encoded PHC hash of `secret` under a fresh random salt.
/// It succeeds for an output length of 10 to 64 bytes, and a success is the
/// encoding of the PBKDF2 hash under some salt the hashing takes; it is never
/// empty.
pub fn derive_hash(secret: &str, params: HashParams) -> (r: Result<String, HashError>)
    ensures
        10 <= params.output_length <= 64 ==> r is Ok,
        r matches Err(e) ==> e == HashError::Derivation,
        r matches Ok(e) ==> e@.len() > 0 && exists|salt: Seq<char>|
            salt_accepted(salt) && e@ == base64_of_text(
                #[trigger] pbkdf2_phc(secret.spec_bytes(), salt, params.rounds, params.output_length),
            ),
{
    let salt = fresh_salt();
    derive_hash_with_salt(secret, salt.as_str(), params)
}

} // verus!
