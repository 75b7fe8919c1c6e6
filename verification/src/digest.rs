use vstd::prelude::*;

use crate::errors::AppError;

verus! {

/// The SHA-512 digest of a byte sequence: 64 bytes, a function of the
/// input alone. Named, not written out; `sha512` below ties it to the
/// backend that computes it.
pub uninterp spec fn sha512_of(data: Seq<u8>) -> Seq<u8>;

/// Relies on hmac_sha512::Hash::hash: computes SHA-512 of the input, a
/// pure function of the input bytes, returning a 64-byte digest.
#[verifier::external_body]
fn sha512(data: &Vec<u8>) -> (r: Vec<u8>)
    ensures
        r@ == sha512_of(data@),
        r@.len() == 64,
{
    hmac_sha512::Hash::hash(data.as_slice()).to_vec()
}

/// Relies on String::push: appends one character to the string.
#[verifier::external_body]
fn push_char(s: &mut String, c: char)
    ensures
        final(s)@ == old(s)@.push(c),
{
    s.push(c);
}

/// The lowercase hex character for one value below 16.
pub open spec fn hex_digit(n: u8) -> char
    recommends
        n < 16,
{
    if n < 10 {
        ((n + 48) as u8) as char
    } else {
        ((n + 87) as u8) as char
    }
}

/// Lowercase hex rendering of a byte sequence: two digits per byte,
/// high nibble first.
pub open spec fn hex_of(data: Seq<u8>) -> Seq<char>
    decreases data.len(),
{
    if data.len() == 0 {
        Seq::empty()
    } else {
        hex_of(data.drop_last()) + seq![
            hex_digit((data.last() / 16) as u8),
            hex_digit((data.last() % 16) as u8),
        ]
    }
}

/// A lowercase hex character: a digit or one of 'a' through 'f'.
pub open spec fn is_hex_lower(c: char) -> bool {
    ('0' <= c && c <= '9') || ('a' <= c && c <= 'f')
}

/// A well-formed digest string: exactly 128 lowercase hex characters,
/// the rendering of a 512-bit value.
pub open spec fn is_valid_digest(s: Seq<char>) -> bool {
    &&& s.len() == 128
    &&& forall|i: int| 0 <= i < s.len() ==> is_hex_lower(#[trigger] s[i])
}

/// Every character of a hex rendering is a lowercase hex character, and
/// the rendering is twice as long as the input.
pub proof fn lemma_hex_of_form(data: Seq<u8>)
    ensures
        hex_of(data).len() == 2 * data.len(),
        forall|i: int| 0 <= i < hex_of(data).len() ==> is_hex_lower(#[trigger] hex_of(data)[i]),
    decreases data.len(),
{
    if data.len() > 0 {
        lemma_hex_of_form(data.drop_last());
    }
}

fn hex_digit_exec(n: u8) -> (c: char)
    requires
        n < 16,
    ensures
        c == hex_digit(n),
{
    if n < 10 {
        (n + 48) as char
    } else {
        (n + 87) as char
    }
}

/// Lowercase hex rendering of a byte buffer.
fn to_hex(data: &Vec<u8>) -> (r: String)
    ensures
        r@ == hex_of(data@),
{
    let mut out = String::new();
    let mut i: usize = 0;
    while i < data.len()
        invariant
            i <= data@.len(),
            out@ == hex_of(data@.subrange(0, i as int)),
        decreases data@.len() - i,
    {
        let b = data[i];
        push_char(&mut out, hex_digit_exec(b / 16));
        push_char(&mut out, hex_digit_exec(b % 16));
        i = i + 1;
        proof {
            assert(data@.subrange(0, i as int).drop_last() =~= data@.subrange(0, i - 1));
            assert(data@.subrange(0, i as int).last() == data@[i - 1]);
        }
    }
    proof {
        assert(data@.subrange(0, data@.len() as int) =~= data@);
    }
    out
}

/// The digest of a file's content, rendered for display and comparison:
/// SHA-512 of the bytes, as a 128-character lowercase hex string. The
/// caller reads the file; this computes the digest of what was read.
pub fn hash_file(data: &Vec<u8>) -> (r: String)
    ensures
        r@ == hex_of(sha512_of(data@)),
        is_valid_digest(r@),
{
    let digest = sha512(data);
    let r = to_hex(&digest);
    proof {
        lemma_hex_of_form(sha512_of(data@));
    }
    r
}

/// Whether a string is a well-formed digest: 128 lowercase hex characters.
pub fn is_valid_digest_str(s: &str) -> (r: bool)
    ensures
        r == is_valid_digest(s@),
{
    let n = s.unicode_len();
    if n != 128 {
        return false;
    }
    let mut i: usize = 0;
    while i < n
        invariant
            n == s@.len(),
            i <= n,
            forall|j: int| 0 <= j < i ==> is_hex_lower(#[trigger] s@[j]),
        decreases n - i,
    {
        let c = s.get_char(i);
        let ok = ('0' <= c && c <= '9') || ('a' <= c && c <= 'f');
        if !ok {
            return false;
        }
        i = i + 1;
    }
    true
}

/// Compares two digest strings. Both must be well-formed 128-character
/// lowercase hex digests; otherwise no comparison happens and
/// `InvalidDigestFormat` is reported. The comparison itself inspects
/// every character pair and folds the differences into one accumulator,
/// so its running time does not depend on where or whether the inputs
/// differ.
pub fn compare_hashes(a: &str, b: &str) -> (r: Result<bool, AppError>)
    ensures
        r is Ok <==> is_valid_digest(a@) && is_valid_digest(b@),
        r matches Ok(eq) ==> (eq <==> a@ == b@),
        r matches Err(e) ==> e == AppError::InvalidDigestFormat,
{
    if !is_valid_digest_str(a) || !is_valid_digest_str(b) {
        return Err(AppError::InvalidDigestFormat);
    }
    let mut acc: u32 = 0;
    let mut i: usize = 0;
    while i < 128
        invariant
            a@.len() == 128,
            b@.len() == 128,
            i <= 128,
            acc == 0 <==> (forall|j: int| 0 <= j < i ==> a@[j] == b@[j]),
        decreases 128 - i,
    {
        let ca = a.get_char(i) as u32;
        let cb = b.get_char(i) as u32;
        let ghost old_acc = acc;
        acc = acc | (ca ^ cb);
        proof {
            assert((old_acc | (ca ^ cb)) == 0 <==> old_acc == 0 && (ca ^ cb) == 0)
                by (bit_vector);
            assert((ca ^ cb) == 0 <==> ca == cb) by (bit_vector);
            if ca == cb {
                vstd::utf8::char_u32_cast(a@[i as int], ca);
                vstd::utf8::char_u32_cast(b@[i as int], cb);
            }
        }
        i = i + 1;
    }
    if acc == 0 {
        proof {
            assert(a@ =~= b@);
        }
        Ok(true)
    } else {
        Ok(false)
    }
}

} // verus!
