//! Encryption of the credentials of payment provider instances.
//!
//! A sealed text is three base64 parts with `:` between them: the nonce, the
//! authentication tag, and the ciphertext of AES-256-GCM under a key that is the
//! SHA-256 digest of the administrator's secret.
use aes_gcm::{AeadInOut, KeyInit};
use vstd::prelude::*;
use vstd::utf8::*;

use crate::hash;
use crate::ids;
use crate::text;

verus! {

#[derive(Debug, Clone, Copy, PartialEq, Eq, Structural)]
pub enum CryptoError {
    TooLong,
    MissingAuthTag,
    MissingCiphertext,
    TooManyParts,
    IvEncoding,
    AuthTagEncoding,
    CiphertextEncoding,
    IvLength,
    AuthTagLength,
    NotAuthentic,
    NotUtf8,
}

impl CryptoError {
    pub open spec fn text(self) -> Seq<char> {
        match self {
            CryptoError::TooLong => "failed to encrypt provider instance config"@,
            CryptoError::MissingAuthTag => "invalid encrypted payload: missing auth tag"@,
            CryptoError::MissingCiphertext => "invalid encrypted payload: missing ciphertext"@,
            CryptoError::TooManyParts => "invalid encrypted payload: too many parts"@,
            CryptoError::IvEncoding => "failed to decode IV"@,
            CryptoError::AuthTagEncoding => "failed to decode auth tag"@,
            CryptoError::CiphertextEncoding => "failed to decode ciphertext"@,
            CryptoError::IvLength => "invalid encrypted payload: IV length mismatch"@,
            CryptoError::AuthTagLength => "invalid encrypted payload: auth tag length mismatch"@,
            CryptoError::NotAuthentic => "failed to decrypt provider instance config"@,
            CryptoError::NotUtf8 => "decrypted provider instance config is not valid UTF-8"@,
        }
    }

    pub fn message(&self) -> (r: &'static str)
        ensures
            r@ == self.text(),
    {
        match self {
            CryptoError::TooLong => "failed to encrypt provider instance config",
            CryptoError::MissingAuthTag => "invalid encrypted payload: missing auth tag",
            CryptoError::MissingCiphertext => "invalid encrypted payload: missing ciphertext",
            CryptoError::TooManyParts => "invalid encrypted payload: too many parts",
            CryptoError::IvEncoding => "failed to decode IV",
            CryptoError::AuthTagEncoding => "failed to decode auth tag",
            CryptoError::CiphertextEncoding => "failed to decode ciphertext",
            CryptoError::IvLength => "invalid encrypted payload: IV length mismatch",
            CryptoError::AuthTagLength => "invalid encrypted payload: auth tag length mismatch",
            CryptoError::NotAuthentic => "failed to decrypt provider instance config",
            CryptoError::NotUtf8 => "decrypted provider instance config is not valid UTF-8",
        }
    }
}

// ---------------------------------------------------------------------------
// AES-256-GCM
// ---------------------------------------------------------------------------
/// The ciphertext and the authentication tag of a plaintext under AES-256-GCM,
/// with no associated data.
pub uninterp spec fn aes_sealed(key: Seq<u8>, nonce: Seq<u8>, plaintext: Seq<u8>) -> (
    Seq<u8>,
    Seq<u8>,
);

/// The plaintext of a ciphertext under AES-256-GCM, with no associated data, if the
/// tag authenticates it.
pub uninterp spec fn aes_opened(
    key: Seq<u8>,
    nonce: Seq<u8>,
    ciphertext: Seq<u8>,
    tag: Seq<u8>,
) -> Option<Seq<u8>>;

/// `encrypt_inout_detached` of `aes_gcm::Aes256Gcm`, with no associated data: the
/// ciphertext and the tag that the name `aes_sealed` stands for. It fails only on a
/// plaintext longer than the crate's `P_MAX`, and `decrypt_inout_detached` gives the
/// plaintext back.
#[verifier::external_body]
fn aes_seal(key: &[u8; 32], nonce: &[u8; 12], plaintext: &[u8]) -> (r: Option<(Vec<u8>, Vec<u8>)>)
    ensures
        r is Some <==> plaintext@.len() <= hash::MAX_ENCODED_BYTES,
        r matches Some((ciphertext, tag)) ==> {
            &&& (ciphertext@, tag@) == aes_sealed(key@, nonce@, plaintext@)
            &&& ciphertext@.len() == plaintext@.len()
            &&& tag@.len() == 16
            &&& aes_opened(key@, nonce@, ciphertext@, tag@) == Some(plaintext@)
        },
{
    let cipher = aes_gcm::Aes256Gcm::new(key.into());
    let mut buffer = plaintext.to_vec();
    let sealed = cipher.encrypt_inout_detached(nonce.into(), b"", buffer.as_mut_slice().into());
    match sealed {
        Ok(tag) => Some((buffer, tag.to_vec())),
        Err(_) => None,
    }
}

/// `decrypt_inout_detached` of `aes_gcm::Aes256Gcm`, with no associated data: the
/// plaintext, or that there is none, as the name `aes_opened` stands for.
#[verifier::external_body]
fn aes_open(
    key: &[u8; 32],
    nonce: &[u8; 12],
    ciphertext: &[u8],
    tag: &[u8; 16],
) -> (r: Option<Vec<u8>>)
    ensures
        match r {
            Some(plaintext) => aes_opened(key@, nonce@, ciphertext@, tag@) == Some(plaintext@),
            None => aes_opened(key@, nonce@, ciphertext@, tag@) is None,
        },
{
    let cipher = aes_gcm::Aes256Gcm::new(key.into());
    let mut buffer = ciphertext.to_vec();
    let tag = tag.into();
    match cipher.decrypt_inout_detached(nonce.into(), b"", buffer.as_mut_slice().into(), tag) {
        Ok(()) => Some(buffer),
        Err(_) => None,
    }
}

/// `String::from_utf8`: the text whose UTF-8 encoding the bytes are, or nothing
/// where they are not valid UTF-8.
#[verifier::external_body]
pub(crate) fn utf8_text(bytes: Vec<u8>) -> (r: Option<String>)
    ensures
        match r {
            Some(s) => encode_utf8(s@) == bytes@,
            None => !valid_utf8(bytes@),
        },
{
    String::from_utf8(bytes).ok()
}

/// The text in which `std::str::from_utf8` tells why bytes are not valid UTF-8.
pub uninterp spec fn utf8_fault(bytes: Seq<u8>) -> Seq<char>;

/// `std::str::from_utf8`: the text whose UTF-8 encoding the bytes are, or the text of the
/// error that says why they are not valid UTF-8, which depends on the bytes alone.
#[verifier::external_body]
pub(crate) fn utf8_str<'a>(bytes: &'a [u8]) -> (r: Result<&'a str, String>)
    ensures
        match r {
            Ok(s) => encode_utf8(s@) == bytes@,
            Err(e) => !valid_utf8(bytes@) && e@ == utf8_fault(bytes@),
        },
{
    std::str::from_utf8(bytes).map_err(|error| error.to_string())
}

// ---------------------------------------------------------------------------
// Sealing and opening texts
// ---------------------------------------------------------------------------
/// The key for a secret; no secret is the empty one.
pub open spec fn key_of(secret: Option<&str>) -> Seq<u8> {
    match secret {
        Some(s) => hash::sha256(encode_utf8(s@)),
        None => hash::sha256(encode_utf8(Seq::empty())),
    }
}

/// What a sealed text holds, or why it cannot be opened.
pub open spec fn opened(key: Seq<u8>, sealed: Seq<char>) -> Result<Seq<char>, CryptoError> {
    let parts = text::pieces(sealed, ':');
    if parts.len() == 1 {
        Err(CryptoError::MissingAuthTag)
    } else if parts.len() == 2 {
        Err(CryptoError::MissingCiphertext)
    } else if parts.len() > 3 {
        Err(CryptoError::TooManyParts)
    } else {
        opened_parts(
            key,
            hash::base64_bytes(parts[0]),
            hash::base64_bytes(parts[1]),
            hash::base64_bytes(parts[2]),
        )
    }
}

pub open spec fn opened_parts(
    key: Seq<u8>,
    iv: Option<Seq<u8>>,
    tag: Option<Seq<u8>>,
    data: Option<Seq<u8>>,
) -> Result<Seq<char>, CryptoError> {
    if iv is None {
        Err(CryptoError::IvEncoding)
    } else if tag is None {
        Err(CryptoError::AuthTagEncoding)
    } else if data is None {
        Err(CryptoError::CiphertextEncoding)
    } else if iv->0.len() != 12 {
        Err(CryptoError::IvLength)
    } else if tag->0.len() != 16 {
        Err(CryptoError::AuthTagLength)
    } else {
        opened_plaintext(aes_opened(key, iv->0, data->0, tag->0))
    }
}

pub open spec fn opened_plaintext(plaintext: Option<Seq<u8>>) -> Result<Seq<char>, CryptoError> {
    match plaintext {
        None => Err(CryptoError::NotAuthentic),
        Some(bytes) => if valid_utf8(bytes) {
            Ok(decode_utf8(bytes))
        } else {
            Err(CryptoError::NotUtf8)
        },
    }
}

fn derive_key(secret: Option<&str>) -> (r: [u8; 32])
    ensures
        r@ == key_of(secret),
{
    match secret {
        Some(s) => hash::sha256_digest(s.as_bytes()),
        None => {
            let none: [u8; 0] = [];
            proof {
                assert(none@ =~= encode_utf8(Seq::<char>::empty()));
            }
            hash::sha256_digest(none.as_slice())
        },
    }
}

/// The sealed text for a nonce, a tag and a ciphertext.
pub open spec fn sealed_parts(iv: Seq<u8>, tag: Seq<u8>, data: Seq<u8>) -> Seq<char> {
    hash::base64_text(iv) + seq![':'] + hash::base64_text(tag) + seq![':'] + hash::base64_text(data)
}

/// Seals a text under a given nonce.
pub fn encrypt_with_nonce(
    admin_secret: Option<&str>,
    plaintext: &str,
    nonce: &[u8; 12],
) -> (r: Result<String, CryptoError>)
    ensures
        r is Ok <==> encode_utf8(plaintext@).len() <= hash::MAX_ENCODED_BYTES,
        r matches Err(e) ==> e == CryptoError::TooLong,
        r matches Ok(sealed) ==> {
            let (data, tag) = aes_sealed(key_of(admin_secret), nonce@, encode_utf8(plaintext@));
            &&& sealed@ == sealed_parts(nonce@, tag, data)
            &&& opened(key_of(admin_secret), sealed@) == Ok::<Seq<char>, CryptoError>(plaintext@)
        },
{
    let key = derive_key(admin_secret);
    match aes_seal(&key, nonce, plaintext.as_bytes()) {
        None => Err(CryptoError::TooLong),
        Some((data, tag)) => {
            let a = hash::base64_encode(nonce.as_slice());
            let b = hash::base64_encode(tag.as_slice());
            let c = hash::base64_encode(data.as_slice());
            let mut out = a.clone();
            out.push(':');
            out.append(b.as_str());
            out.push(':');
            out.append(c.as_str());
            proof {
                assert(!a@.contains(':'));
                assert(!b@.contains(':'));
                assert(!c@.contains(':'));
                text::lemma_one_piece(a@, ':');
                text::lemma_last_piece(a@, b@, ':');
                text::lemma_last_piece(a@.push(':') + b@, c@, ':');
                assert(out@ =~= (a@.push(':') + b@).push(':') + c@);
                assert(out@ =~= sealed_parts(nonce@, tag@, data@));
                let parts = text::pieces(out@, ':');
                assert(parts =~= seq![a@, b@, c@]);
                encode_utf8_valid_utf8(plaintext@);
                encode_utf8_decode_utf8(plaintext@);
            }
            Ok(out)
        },
    }
}

/// Seals a text under a nonce drawn at random. What the nonce is, no clause says;
/// whatever it is, the sealed text opens to the plaintext.
pub fn encrypt(admin_secret: Option<&str>, plaintext: &str) -> (r: Result<String, CryptoError>)
    ensures
        r is Ok <==> encode_utf8(plaintext@).len() <= hash::MAX_ENCODED_BYTES,
        r matches Err(e) ==> e == CryptoError::TooLong,
        r matches Ok(sealed) ==> opened(key_of(admin_secret), sealed@) == Ok::<
            Seq<char>,
            CryptoError,
        >(plaintext@),
{
    let random = ids::random_uuid();
    let nonce: [u8; 12] = [
        random[0],
        random[1],
        random[2],
        random[3],
        random[4],
        random[5],
        random[6],
        random[7],
        random[8],
        random[9],
        random[10],
        random[11],
    ];
    encrypt_with_nonce(admin_secret, plaintext, &nonce)
}

/// Opens a sealed text.
pub fn decrypt(admin_secret: Option<&str>, ciphertext: &str) -> (r: Result<String, CryptoError>)
    ensures
        match r {
            Ok(s) => opened(key_of(admin_secret), ciphertext@) == Ok::<Seq<char>, CryptoError>(s@),
            Err(e) => opened(key_of(admin_secret), ciphertext@) == Err::<Seq<char>, CryptoError>(
                e,
            ),
        },
{
    let key = derive_key(admin_secret);
    let parts = text::split(ciphertext, ':');
    let ghost all = text::pieces(ciphertext@, ':');
    assert(text::texts(parts@).len() == parts@.len());
    if parts.len() == 1 {
        return Err(CryptoError::MissingAuthTag);
    }
    if parts.len() == 2 {
        return Err(CryptoError::MissingCiphertext);
    }
    if parts.len() > 3 {
        return Err(CryptoError::TooManyParts);
    }
    assert(all[0] == parts@[0]@ && all[1] == parts@[1]@ && all[2] == parts@[2]@);
    let iv = match hash::base64_decode(parts[0].as_str()) {
        Some(v) => v,
        None => {
            return Err(CryptoError::IvEncoding);
        },
    };
    let tag = match hash::base64_decode(parts[1].as_str()) {
        Some(v) => v,
        None => {
            return Err(CryptoError::AuthTagEncoding);
        },
    };
    let data = match hash::base64_decode(parts[2].as_str()) {
        Some(v) => v,
        None => {
            return Err(CryptoError::CiphertextEncoding);
        },
    };
    decrypt_parts(&key, &iv, &tag, &data)
}

/// Opens a sealed text whose parts are decoded.
fn decrypt_parts(key: &[u8; 32], iv: &Vec<u8>, tag: &Vec<u8>, data: &Vec<u8>) -> (r: Result<
    String,
    CryptoError,
>)
    ensures
        match r {
            Ok(s) => opened_parts(key@, Some(iv@), Some(tag@), Some(data@)) == Ok::<
                Seq<char>,
                CryptoError,
            >(s@),
            Err(e) => opened_parts(key@, Some(iv@), Some(tag@), Some(data@)) == Err::<
                Seq<char>,
                CryptoError,
            >(e),
        },
{
    if iv.len() != 12 {
        return Err(CryptoError::IvLength);
    }
    if tag.len() != 16 {
        return Err(CryptoError::AuthTagLength);
    }
    let nonce: [u8; 12] = [
        iv[0],
        iv[1],
        iv[2],
        iv[3],
        iv[4],
        iv[5],
        iv[6],
        iv[7],
        iv[8],
        iv[9],
        iv[10],
        iv[11],
    ];
    let seal: [u8; 16] = [
        tag[0],
        tag[1],
        tag[2],
        tag[3],
        tag[4],
        tag[5],
        tag[6],
        tag[7],
        tag[8],
        tag[9],
        tag[10],
        tag[11],
        tag[12],
        tag[13],
        tag[14],
        tag[15],
    ];
    assert(nonce@ =~= iv@);
    assert(seal@ =~= tag@);
    plaintext_result(aes_open(key, &nonce, data.as_slice(), &seal))
}

/// What comes of an opened message: its text, where it is authentic and UTF-8.
pub fn plaintext_result(plaintext: Option<Vec<u8>>) -> (r: Result<String, CryptoError>)
    ensures
        match plaintext {
            None => r == Err::<String, CryptoError>(CryptoError::NotAuthentic),
            Some(bytes) => match r {
                Ok(s) => valid_utf8(bytes@) && s@ == decode_utf8(bytes@),
                Err(e) => !valid_utf8(bytes@) && e == CryptoError::NotUtf8,
            },
        },
{
    match plaintext {
        None => Err(CryptoError::NotAuthentic),
        Some(bytes) => match utf8_text(bytes) {
            Some(s) => {
                proof {
                    encode_utf8_valid_utf8(s@);
                    encode_utf8_decode_utf8(s@);
                }
                Ok(s)
            },
            None => Err(CryptoError::NotUtf8),
        },
    }
}

/// Texts are sealed under the digest of the administrator's secret, or of the empty text
/// without one.
pub proof fn law_texts_are_sealed_under_the_secret(secret: &str)
    ensures
        key_of(Some(secret)) == hash::sha256(encode_utf8(secret@)),
        key_of(None) == hash::sha256(encode_utf8(Seq::empty())),
{
}

/// A sealed text opens only where it is a nonce of twelve bytes, a tag of sixteen and the data,
/// in that order and with colons between them, that the key authenticates, and whose plaintext
/// is UTF-8; it then opens to that plaintext.
pub proof fn law_only_authentic_texts_open(key: Seq<u8>, sealed: Seq<char>, plain: Seq<char>)
    requires
        opened(key, sealed) == Ok::<Seq<char>, CryptoError>(plain),
    ensures
        ({
            let parts = text::pieces(sealed, ':');
            &&& parts.len() == 3
            &&& hash::base64_bytes(parts[0]) matches Some(iv)
            &&& hash::base64_bytes(parts[1]) matches Some(tag)
            &&& hash::base64_bytes(parts[2]) matches Some(data)
            &&& iv.len() == 12
            &&& tag.len() == 16
            &&& aes_opened(key, iv, data, tag) matches Some(bytes)
            &&& valid_utf8(bytes)
            &&& plain == decode_utf8(bytes)
        }),
{
    text::lemma_pieces_count(sealed, ':');
}

/// A sealed text is its nonce, its tag and its data, each in base64.
pub proof fn law_sealed_texts_begin_with_their_nonce(iv: Seq<u8>, tag: Seq<u8>, data: Seq<u8>)
    ensures
        sealed_parts(iv, tag, data) == hash::base64_text(iv).push(':') + hash::base64_text(
            tag,
        ).push(':') + hash::base64_text(data),
{
    assert(sealed_parts(iv, tag, data) =~= hash::base64_text(iv).push(':') + hash::base64_text(
        tag,
    ).push(':') + hash::base64_text(data));
}

/// What is sealed under a secret opens under it, as what was sealed.
pub proof fn law_sealed_texts_open_again(
    secret: Option<&str>,
    plaintext: &str,
    nonce: [u8; 12],
    sealed: String,
    read: &str,
    back: Result<String, CryptoError>,
)
    requires
        call_ensures(
            encrypt_with_nonce,
            (secret, plaintext, &nonce),
            Ok::<String, CryptoError>(sealed),
        ),
        read@ == sealed@,
        call_ensures(decrypt, (secret, read), back),
    ensures
        back matches Ok(s) && s@ == plaintext@,
{
}

/// Whatever the nonce was, what is sealed under a secret opens under it, as what was sealed;
/// and what is not authentic, or is no text, is told apart.
pub proof fn law_any_sealing_opens_again(
    secret: Option<&str>,
    plaintext: &str,
    sealed: String,
    read: &str,
    back: Result<String, CryptoError>,
    bytes: Option<Vec<u8>>,
    r: Result<String, CryptoError>,
)
    requires
        call_ensures(encrypt, (secret, plaintext), Ok::<String, CryptoError>(sealed)),
        read@ == sealed@,
        call_ensures(decrypt, (secret, read), back),
        call_ensures(plaintext_result, (bytes,), r),
    ensures
        back matches Ok(s) && s@ == plaintext@,
        bytes is None ==> r == Err::<String, CryptoError>(CryptoError::NotAuthentic),
        bytes matches Some(b) ==> (r is Ok <==> valid_utf8(b@)),
        bytes matches Some(b) ==> (r is Err ==> r->Err_0 == CryptoError::NotUtf8),
        bytes matches Some(b) ==> (r is Ok ==> r->Ok_0@ == decode_utf8(b@)),
{
}

}
