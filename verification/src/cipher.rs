use vstd::prelude::*;

use crate::errors::AppError;

verus! {

/// The fixed work-factor acceptance bound handed to the decryption
/// backend. age stores the scrypt work factor (a power-of-two exponent)
/// inside the container and would otherwise bound it by a fresh timing
/// benchmark, which varies with the machine and its load; fixing the bound
/// makes the outcome of decryption a function of the container bytes and
/// the passphrase alone. The trade-off is deliberate and documented: a
/// container demanding up to 2^30 scrypt iterations (a terabyte-scale
/// working set) is attempted before it fails, so a hostile container can
/// cost that much work. Encryption itself picks a factor targeting about
/// one second of work — 2^30 basic scrypt operations under a second is
/// beyond machine limits, so everything encrypted here stays far below
/// this bound.
pub const MAX_WORK_FACTOR: u8 = 30;

/// What age passphrase decryption, run with the work-factor acceptance
/// bound `max_log_n`, yields on given container bytes and passphrase:
/// `Some(plaintext)` when header parsing, key derivation at the stored
/// work factor (at most `max_log_n`) and authenticated decryption all
/// succeed, `None` otherwise — also when the stored factor exceeds the
/// bound. With the bound fixed, every step (parser, scrypt, header MAC,
/// payload stream) is deterministic in these arguments. Named rather than
/// written out, since spelling scrypt and ChaCha20-Poly1305 here would
/// state nothing checkable.
pub uninterp spec fn decrypt_outcome(
    container: Seq<u8>,
    passphrase: Seq<char>,
    max_log_n: u8,
) -> Option<Seq<u8>>;

/// Whether the bytes parse as a passphrase-encrypted age file: the verdict
/// of age's container parser, a function of the bytes alone.
pub uninterp spec fn passphrase_container(container: Seq<u8>) -> bool;

/// What one run of the decryption backend reported.
enum RawDecrypt {
    Plain(Vec<u8>),
    BadAuth,
    Malformed,
}

/// Relies on age::Encryptor::with_user_passphrase, Encryptor::wrap_output
/// and StreamWriter::finish: together they write a passphrase-encrypted age
/// file (a single scrypt stanza, fresh salt and nonce) that age's parser
/// accepts and that decrypts under the same passphrase to exactly the
/// bytes written. Its work factor targets about one second of work, which
/// no machine reaches at `MAX_WORK_FACTOR` doublings, so decryption under
/// that bound accepts it. The container differs from call to call; only
/// what holds of every outcome is stated.
#[verifier::external_body]
fn age_encrypt(plaintext: &Vec<u8>, passphrase: &str) -> (r: Option<Vec<u8>>)
    ensures
        r matches Some(c) ==> decrypt_outcome(c@, passphrase@, MAX_WORK_FACTOR) == Some(
            plaintext@,
        ) && passphrase_container(c@),
{
    let enc = age::Encryptor::with_user_passphrase(age::secrecy::Secret::new(
        passphrase.to_string(),
    ));
    let mut out: Vec<u8> = Vec::new();
    let mut w = enc.wrap_output(&mut out).ok()?;
    std::io::Write::write_all(&mut w, plaintext.as_slice()).ok()?;
    w.finish().ok()?;
    Some(out)
}

/// Relies on age::Decryptor::new and PassphraseDecryptor::decrypt, called
/// with `max_log_n` as the explicit work-factor bound so that both are
/// deterministic in the container bytes and the passphrase: `Malformed`
/// comes exactly when the bytes do not parse as a passphrase-encrypted age
/// file; `BadAuth` when they do but the stored work factor exceeds the
/// bound, or key derivation or the authenticated payload rejects them
/// under this passphrase; `Plain` carries the recovered bytes otherwise.
#[verifier::external_body]
fn age_decrypt(container: &Vec<u8>, passphrase: &str, max_log_n: u8) -> (r: RawDecrypt)
    ensures
        r matches RawDecrypt::Plain(p) ==> decrypt_outcome(container@, passphrase@, max_log_n)
            == Some(p@) && passphrase_container(container@),
        r is BadAuth ==> decrypt_outcome(container@, passphrase@, max_log_n) is None
            && passphrase_container(container@),
        r is Malformed ==> decrypt_outcome(container@, passphrase@, max_log_n) is None
            && !passphrase_container(container@),
{
    let d = match age::Decryptor::new(container.as_slice()) {
        Ok(age::Decryptor::Passphrase(d)) => d,
        _ => return RawDecrypt::Malformed,
    };
    let secret = age::secrecy::Secret::new(passphrase.to_string());
    let mut reader = match d.decrypt(&secret, Some(max_log_n)) {
        Ok(reader) => reader,
        Err(_) => return RawDecrypt::BadAuth,
    };
    let mut plain: Vec<u8> = Vec::new();
    match std::io::Read::read_to_end(&mut reader, &mut plain) {
        Ok(_) => RawDecrypt::Plain(plain),
        Err(_) => RawDecrypt::BadAuth,
    }
}

/// Encrypts a buffer under a passphrase. The container embeds the key
/// derivation parameters, salt and nonce, so every call yields a fresh
/// container; what each one satisfies is that decrypting it under the same
/// passphrase returns exactly the plaintext — the round trip, stated here
/// and discharged by `decrypt`'s contract. Fails only when the backend
/// reports a fault, never for any particular input length.
pub fn encrypt(plaintext: &Vec<u8>, passphrase: &str) -> (r: Result<Vec<u8>, AppError>)
    ensures
        r matches Ok(c) ==> decrypt_outcome(c@, passphrase@, MAX_WORK_FACTOR) == Some(plaintext@)
            && passphrase_container(c@),
        r matches Err(e) ==> e == AppError::EncryptionFailed,
{
    match age_encrypt(plaintext, passphrase) {
        Some(c) => Ok(c),
        None => Err(AppError::EncryptionFailed),
    }
}

/// Decrypts a container under a passphrase, accepting work factors up to
/// `MAX_WORK_FACTOR`. Succeeds exactly when the authenticated decryption
/// does — so only on bytes that parse as a passphrase-encrypted container;
/// a wrong passphrase, an altered container and an excessive work factor
/// are reported as the same `AuthenticationFailed`, while bytes that do
/// not even parse are `MalformedContainer`.
pub fn decrypt(container: &Vec<u8>, passphrase: &str) -> (r: Result<Vec<u8>, AppError>)
    ensures
        r is Ok <==> decrypt_outcome(container@, passphrase@, MAX_WORK_FACTOR) is Some,
        r matches Ok(p) ==> decrypt_outcome(container@, passphrase@, MAX_WORK_FACTOR) == Some(p@)
            && passphrase_container(container@),
        r matches Err(e) ==> (e == AppError::AuthenticationFailed <==> passphrase_container(
            container@,
        )) && (e == AppError::MalformedContainer <==> !passphrase_container(container@)),
{
    match age_decrypt(container, passphrase, MAX_WORK_FACTOR) {
        RawDecrypt::Plain(p) => Ok(p),
        RawDecrypt::BadAuth => Err(AppError::AuthenticationFailed),
        RawDecrypt::Malformed => Err(AppError::MalformedContainer),
    }
}

/// Round trip: a container that `encrypt` produced for plaintext `p` under
/// passphrase `k` — one satisfying what `encrypt` states of its result —
/// decrypts under `k` and the same work-factor bound to exactly `p`, the
/// success case of `decrypt`'s contract.
pub proof fn lemma_round_trip(container: Seq<u8>, p: Seq<u8>, k: Seq<char>, max_log_n: u8)
    requires
        decrypt_outcome(container, k, max_log_n) == Some(p),
    ensures
        decrypt_outcome(container, k, max_log_n) is Some,
        decrypt_outcome(container, k, max_log_n).unwrap() == p,
{
}

} // verus!
