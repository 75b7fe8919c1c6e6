use vstd::prelude::*;
use vstd::string::{StrSliceExecFns, StringExecFns};

use crate::cipher::{decrypt, decrypt_outcome, encrypt, passphrase_container, MAX_WORK_FACTOR};
use crate::errors::AppError;
use crate::passphrase::{generate_passphrase, generated_phrase, joined, WordList, PASSWORD_LEN};

verus! {

/// The suffix that marks an encrypted file.
pub open spec fn age_suffix() -> Seq<char> {
    seq!['.', 'a', 'g', 'e']
}

/// Whether a file name carries the encrypted suffix.
pub open spec fn has_age_suffix(name: Seq<char>) -> bool {
    name.len() >= 4 && name.subrange(name.len() - 4, name.len() as int) == age_suffix()
}

fn ends_with_age(name: &str) -> (r: bool)
    ensures
        r == has_age_suffix(name@),
{
    let n = name.unicode_len();
    if n < 4 {
        return false;
    }
    let r = name.get_char(n - 4) == '.' && name.get_char(n - 3) == 'a' && name.get_char(n - 2)
        == 'g' && name.get_char(n - 1) == 'e';
    proof {
        let tail = name@.subrange(name@.len() - 4, name@.len() as int);
        if r {
            assert(tail =~= age_suffix());
        } else {
            assert(tail == age_suffix() ==> tail[0] == '.' && tail[1] == 'a' && tail[2] == 'g'
                && tail[3] == 'e');
        }
    }
    r
}

/// What one encryption pass produces: where to write, what to write, and
/// the passphrase that was used — returned so the caller can display it;
/// it is never persisted here.
pub struct EncryptedFile {
    /// The source name with the encrypted suffix appended.
    pub dest_name: String,
    /// The self-describing encrypted container, to be written as is.
    pub container: Vec<u8>,
    /// The passphrase the container was sealed under.
    pub passphrase: String,
}

/// What one decryption pass produces.
pub struct DecryptedFile {
    /// The source name with the encrypted suffix stripped.
    pub dest_name: String,
    /// The recovered content, to be written as is.
    pub plaintext: Vec<u8>,
}

/// Encrypts one file's content. `name` is the source file's name and
/// `contents` its full bytes, both supplied by the caller that read it; no
/// filesystem is touched here. A name already carrying the encrypted
/// suffix is rejected before anything else. When no passphrase is given,
/// one is drawn from the word list. On success the container decrypts
/// under the returned passphrase to exactly `contents`.
pub fn encrypt_file(
    name: &str,
    contents: &Vec<u8>,
    passphrase: Option<&str>,
    list: &WordList,
) -> (r: Result<EncryptedFile, AppError>)
    ensures
        r matches Ok(out) ==> {
            &&& !has_age_suffix(name@)
            &&& out.dest_name@ == name@ + age_suffix()
            &&& decrypt_outcome(out.container@, out.passphrase@, MAX_WORK_FACTOR) == Some(
                contents@,
            )
            &&& passphrase_container(out.container@)
            &&& (passphrase matches Some(p) ==> out.passphrase@ == p@)
            &&& (passphrase is None ==> generated_phrase(
                list@,
                PASSWORD_LEN as nat,
                out.passphrase@,
            ))
        },
        r matches Err(e) ==> {
            &&& (e == AppError::AlreadyEncrypted <==> has_age_suffix(name@))
            &&& (e == AppError::ConfigurationError <==> !has_age_suffix(name@) && passphrase
                is None && list@.len() == 0)
            &&& (e == AppError::EncryptionFailed ==> !has_age_suffix(name@) && (passphrase is Some
                || list@.len() > 0))
            &&& (e == AppError::AlreadyEncrypted || e == AppError::ConfigurationError || e
                == AppError::EncryptionFailed)
        },
{
    if ends_with_age(name) {
        return Err(AppError::AlreadyEncrypted);
    }
    let pass: String = match passphrase {
        Some(p) => p.to_owned(),
        None => {
            let phrase = match generate_passphrase(list, PASSWORD_LEN) {
                Ok(phrase) => phrase,
                Err(e) => {
                    return Err(e);
                },
            };
            let text = phrase.text();
            proof {
                assert(generated_phrase(list@, PASSWORD_LEN as nat, text@)) by {
                    let ws = phrase@;
                    assert(ws.len() == PASSWORD_LEN && text@ == joined(ws) && forall|i: int|
                        0 <= i < ws.len() ==> list@.contains(#[trigger] ws[i]));
                }
            }
            text
        },
    };
    let container = match encrypt(contents, pass.as_str()) {
        Ok(c) => c,
        Err(e) => {
            return Err(e);
        },
    };
    let mut dest = String::from_str(name);
    dest.append(".age");
    proof {
        reveal_strlit(".age");
        assert(".age"@ =~= age_suffix());
        assert(dest@ == name@ + age_suffix());
    }
    Ok(EncryptedFile { dest_name: dest, container, passphrase: pass })
}

/// Decrypts one file's content. `name` is the source file's name and
/// `container` its full bytes, supplied by the caller that read it. A name
/// without the encrypted suffix — or one that is nothing but the suffix —
/// is rejected before any cryptography. On success the plaintext is
/// exactly what the container decrypts to under this passphrase, and the
/// destination name is the source name with the suffix stripped.
pub fn decrypt_file(name: &str, container: &Vec<u8>, passphrase: &str) -> (r: Result<
    DecryptedFile,
    AppError,
>)
    ensures
        r is Ok <==> has_age_suffix(name@) && name@.len() > 4 && decrypt_outcome(
            container@,
            passphrase@,
            MAX_WORK_FACTOR,
        ) is Some,
        r matches Ok(out) ==> {
            &&& out.dest_name@ == name@.subrange(0, name@.len() - 4)
            &&& decrypt_outcome(container@, passphrase@, MAX_WORK_FACTOR) == Some(out.plaintext@)
            &&& passphrase_container(container@)
        },
        r matches Err(e) ==> {
            &&& (e == AppError::NotEncrypted <==> !has_age_suffix(name@) || name@.len() == 4)
            &&& (has_age_suffix(name@) && name@.len() > 4 ==> (e == AppError::AuthenticationFailed
                <==> passphrase_container(container@)) && (e == AppError::MalformedContainer <==> !passphrase_container(
                container@,
            )))
        },
{
    if !ends_with_age(name) {
        return Err(AppError::NotEncrypted);
    }
    let n = name.unicode_len();
    if n == 4 {
        return Err(AppError::NotEncrypted);
    }
    let plaintext = match decrypt(container, passphrase) {
        Ok(p) => p,
        Err(e) => {
            return Err(e);
        },
    };
    let stem = name.substring_char(0, n - 4);
    Ok(DecryptedFile { dest_name: String::from_str(stem), plaintext })
}

} // verus!
