//! The key/cipher service: derives 256-bit keys from the OS sample source
//! and performs authenticated encryption and decryption with them.
//!
//! The hex codec and the AES-256-GCM implementation are called through
//! trusted wrappers.  Encryption here reuses a fixed all-zero nonce for
//! every call, as the service's callers expect; reusing a nonce under one
//! key breaks confidentiality, so a key must not encrypt more than once
//! outside a test fixture.

use vstd::prelude::*;
use vstd::string::StrSliceExecFns;
use vstd::string::StringSliceAdditionalSpecFns;
use vstd::utf8::{decode_utf8, encode_utf8, is_ascii_chars, valid_utf8};

use aes_gcm::aead::{Aead, KeyInit};

use crate::entropy::generate_random_number;
use crate::errors::{CollectError, CryptoError};

verus! {

/// Hex digits per derived key: 64 characters encode a 256-bit key.
pub const KEY_HEX_LEN: usize = 64;

/// Bytes in an AES-256 key.
pub const KEY_BYTES: usize = 32;

/// Bytes in an AES-GCM nonce.
pub const NONCE_BYTES: usize = 12;

/// Bytes in an AES-GCM authentication tag.
pub const TAG_BYTES: usize = 16;

/// The largest plaintext one AES-GCM encryption accepts: `2^36` bytes.
pub const MAX_PLAINTEXT_BYTES: u64 = 68719476736;

/// The lowercase hex digit with value `n`.
pub open spec fn hex_digit_char(n: int) -> char
    recommends
        0 <= n < 16,
{
    if n < 10 {
        ((0x30 + n) as u8) as char
    } else {
        ((0x57 + n) as u8) as char
    }
}

/// The lowercase hex expansion of a byte string: two digits per byte,
/// high nibble first.
pub open spec fn hex_chars_of(bs: Seq<u8>) -> Seq<char> {
    Seq::new(
        2 * bs.len(),
        |i: int|
            if i % 2 == 0 {
                hex_digit_char(bs[i / 2] as int / 16)
            } else {
                hex_digit_char(bs[i / 2] as int % 16)
            },
    )
}

/// `c` is a lowercase hex digit.
pub open spec fn is_lower_hex_char(c: char) -> bool {
    ('0' <= c <= '9') || ('a' <= c <= 'f')
}

/// `b` is the ASCII code of a hex digit of either case.
pub open spec fn is_hex_digit_byte(b: u8) -> bool {
    (0x30 <= b <= 0x39) || (0x41 <= b <= 0x46) || (0x61 <= b <= 0x66)
}

/// The value of the hex digit with ASCII code `b`.
pub open spec fn hex_val(b: u8) -> int
    recommends
        is_hex_digit_byte(b),
{
    if 0x30 <= b <= 0x39 {
        b - 0x30
    } else if 0x41 <= b <= 0x46 {
        b - 0x41 + 10
    } else {
        b - 0x61 + 10
    }
}

/// `bs` is a decodable hex string: even length, all digits.
pub open spec fn valid_hex_bytes(bs: Seq<u8>) -> bool {
    bs.len() % 2 == 0 && forall|i: int| 0 <= i < bs.len() ==> is_hex_digit_byte(#[trigger] bs[i])
}

/// The bytes a hex string decodes to.
pub open spec fn hex_decoded(bs: Seq<u8>) -> Seq<u8>
    recommends
        valid_hex_bytes(bs),
{
    Seq::new(bs.len() / 2, |i: int| (hex_val(bs[2 * i]) * 16 + hex_val(bs[2 * i + 1])) as u8)
}

/// The hex expansion has two lowercase-hex characters per byte.
pub proof fn lemma_hex_chars_props(bs: Seq<u8>)
    ensures
        hex_chars_of(bs).len() == 2 * bs.len(),
        forall|i: int|
            0 <= i < hex_chars_of(bs).len() ==> is_lower_hex_char(#[trigger] hex_chars_of(bs)[i]),
        is_ascii_chars(hex_chars_of(bs)),
{
    assert forall|i: int| 0 <= i < hex_chars_of(bs).len() implies is_lower_hex_char(
        #[trigger] hex_chars_of(bs)[i],
    ) by {
        let b = bs[i / 2] as int;
        assert(0 <= b < 256);
        assert(0 <= b / 16 < 16) by (nonlinear_arith)
            requires
                0 <= b < 256,
        ;
        assert(0 <= b % 16 < 16);
    }
    assert forall|i: int| 0 <= i < hex_chars_of(bs).len() implies '\0'
        <= #[trigger] hex_chars_of(bs)[i] <= '\u{7f}' by {
        assert(is_lower_hex_char(hex_chars_of(bs)[i]));
    }
}

/// Decoding the hex expansion of a byte string gives the bytes back.
pub proof fn lemma_hex_round_trip(bs: Seq<u8>)
    ensures
        encode_utf8(hex_chars_of(bs)).len() == 2 * bs.len(),
        valid_hex_bytes(encode_utf8(hex_chars_of(bs))),
        hex_decoded(encode_utf8(hex_chars_of(bs))) == bs,
{
    lemma_hex_chars_props(bs);
    vstd::utf8::is_ascii_chars_encode_utf8(hex_chars_of(bs));
    let ebs = encode_utf8(hex_chars_of(bs));
    assert forall|i: int| 0 <= i < ebs.len() implies is_hex_digit_byte(#[trigger] ebs[i]) by {
        assert(ebs[i] == hex_chars_of(bs)[i] as u8);
        assert(is_lower_hex_char(hex_chars_of(bs)[i]));
    }
    assert forall|i: int| 0 <= i < bs.len() implies hex_decoded(ebs)[i] == bs[i] by {
        let b = bs[i] as int;
        assert(ebs[2 * i] == hex_chars_of(bs)[2 * i] as u8);
        assert(ebs[2 * i + 1] == hex_chars_of(bs)[2 * i + 1] as u8);
        assert(hex_chars_of(bs)[2 * i] == hex_digit_char(b / 16));
        assert(hex_chars_of(bs)[2 * i + 1] == hex_digit_char(b % 16));
        assert(0 <= b / 16 < 16) by (nonlinear_arith)
            requires
                0 <= b < 256,
        ;
        assert(hex_val(hex_digit_char(b / 16) as u8) == b / 16);
        assert(hex_val(hex_digit_char(b % 16) as u8) == b % 16);
        vstd::arithmetic::div_mod::lemma_fundamental_div_mod(b, 16);
    }
    assert(hex_decoded(ebs) =~= bs);
}

/// Relies on hex::encode: two lowercase hex digits per input byte, high
/// nibble first.
#[verifier::external_body]
fn hex_encode(bytes: &[u8]) -> (r: String)
    ensures
        r@ == hex_chars_of(bytes@),
{
    hex::encode(bytes)
}

/// Relies on hex::decode: succeeds exactly on even-length strings of hex
/// digits of either case, pairing digits high nibble first.  On failure
/// hands back hex's own error text.
#[verifier::external_body]
fn hex_decode(s: &str) -> (r: Result<Vec<u8>, String>)
    ensures
        r is Ok <==> valid_hex_bytes(s.spec_bytes()),
        r matches Ok(v) ==> v@ == hex_decoded(s.spec_bytes()),
{
    match hex::decode(s) {
        Ok(v) => Ok(v),
        Err(e) => Err(e.to_string()),
    }
}

/// What AES-256-GCM encryption returns for a key, nonce and plaintext:
/// the ciphertext with its authentication tag appended.
pub uninterp spec fn aes_seal(key: Seq<u8>, nonce: Seq<u8>, msg: Seq<u8>) -> Seq<u8>;

/// What AES-256-GCM decryption returns for a key, nonce and ciphertext:
/// the plaintext when the tag authenticates, nothing otherwise.
pub uninterp spec fn aes_open(key: Seq<u8>, nonce: Seq<u8>, ct: Seq<u8>) -> Option<Seq<u8>>;

/// Relies on aes_gcm's Aead::encrypt for Aes256Gcm: deterministic in key,
/// nonce and plaintext; appends the 16-byte tag; fails exactly when the
/// plaintext exceeds the AES-GCM length bound, handing back the error's
/// own text; and its output is what Aead::decrypt authenticates and
/// inverts under the same key and nonce.
#[verifier::external_body]
fn aes256_gcm_encrypt(key: &[u8], nonce: &[u8], msg: &[u8]) -> (r: Result<Vec<u8>, String>)
    requires
        key@.len() == KEY_BYTES,
        nonce@.len() == NONCE_BYTES,
    ensures
        r is Ok <==> msg@.len() <= MAX_PLAINTEXT_BYTES,
        r matches Ok(v) ==> v@ == aes_seal(key@, nonce@, msg@) && v@.len() == msg@.len()
            + TAG_BYTES && aes_open(key@, nonce@, v@) == Some(msg@),
{
    let cipher = aes_gcm::Aes256Gcm::new(aes_gcm::Key::<aes_gcm::Aes256Gcm>::from_slice(key));
    match cipher.encrypt(aes_gcm::Nonce::from_slice(nonce), msg) {
        Ok(v) => Ok(v),
        Err(e) => Err(e.to_string()),
    }
}

/// Relies on aes_gcm's Aead::decrypt for Aes256Gcm: deterministic in key,
/// nonce and ciphertext; returns the plaintext exactly when the
/// authentication tag verifies, and rejects everything else.
#[verifier::external_body]
fn aes256_gcm_decrypt(key: &[u8], nonce: &[u8], ct: &[u8]) -> (r: Result<Vec<u8>, String>)
    requires
        key@.len() == KEY_BYTES,
        nonce@.len() == NONCE_BYTES,
    ensures
        r is Ok <==> aes_open(key@, nonce@, ct@) is Some,
        r matches Ok(v) ==> v@ == aes_open(key@, nonce@, ct@)->Some_0,
{
    let cipher = aes_gcm::Aes256Gcm::new(aes_gcm::Key::<aes_gcm::Aes256Gcm>::from_slice(key));
    match cipher.decrypt(aes_gcm::Nonce::from_slice(nonce), ct) {
        Ok(v) => Ok(v),
        Err(e) => Err(e.to_string()),
    }
}

/// Relies on String::from_utf8: succeeds exactly on valid UTF-8 and
/// decodes it to the character string it encodes.  On failure hands back
/// the error's own text.
#[verifier::external_body]
fn string_from_utf8(bytes: Vec<u8>) -> (r: Result<String, String>)
    ensures
        r is Ok <==> valid_utf8(bytes@),
        r matches Ok(s) ==> s@ == decode_utf8(bytes@),
{
    match String::from_utf8(bytes) {
        Ok(s) => Ok(s),
        Err(e) => Err(e.to_string()),
    }
}

/// The fixed all-zero nonce the service uses for every call.
pub open spec fn zero_nonce() -> Seq<u8> {
    Seq::new(NONCE_BYTES as nat, |i: int| 0u8)
}

/// Builds the fixed all-zero nonce.
fn make_zero_nonce() -> (r: Vec<u8>)
    ensures
        r@ == zero_nonce(),
{
    let mut nonce: Vec<u8> = Vec::new();
    let mut i: usize = 0;
    while i < NONCE_BYTES
        invariant
            i <= NONCE_BYTES,
            nonce@.len() == i,
            forall|j: int| 0 <= j < i ==> nonce@[j] == 0,
        decreases NONCE_BYTES - i,
    {
        nonce.push(0u8);
        i = i + 1;
    }
    proof {
        assert(nonce@ =~= zero_nonce());
    }
    nonce
}

/// `key` is a usable AES-256 key: exactly 64 hex characters.
pub open spec fn key_usable(key: Seq<char>) -> bool {
    encode_utf8(key).len() == KEY_HEX_LEN && valid_hex_bytes(encode_utf8(key))
}

/// Hex-encodes drawn key material: the step shared by every key
/// derivation, whatever source the bytes were drawn from.  With 32 bytes
/// the result is a usable AES-256 key.
pub fn key_from_bytes(key: &[u8]) -> (r: String)
    ensures
        r@ == hex_chars_of(key@),
        r@.len() == 2 * key@.len(),
        forall|i: int| 0 <= i < r@.len() ==> is_lower_hex_char(#[trigger] r@[i]),
        key@.len() == KEY_BYTES ==> key_usable(r@),
{
    let hexkey = hex_encode(key);
    proof {
        lemma_hex_chars_props(key@);
        lemma_hex_round_trip(key@);
    }
    hexkey
}

/// Derives a symmetric key for `algorithm`.  For AES, draws 32 bytes one
/// at a time from the OS sample source, each folded into `0..=255` by the
/// bounded draw, and returns their 64-character lowercase hex expansion.
pub fn gen_key(algorithm: &str) -> (r: Result<String, CryptoError>)
    ensures
        algorithm@ == "AES"@ ==> ({
            &&& (r matches Ok(k) ==> k@.len() == KEY_HEX_LEN && key_usable(k@) && forall|i: int|
                0 <= i < k@.len() ==> is_lower_hex_char(#[trigger] k@[i]))
            &&& (r is Err ==> r->Err_0 is RandomSourceFailed)
        }),
        algorithm@ == "RSA"@ ==> r is Err && r->Err_0 is KeyGenNotImplemented,
        algorithm@ != "AES"@ && algorithm@ != "RSA"@ ==> r is Err && r->Err_0
            is UnsupportedAlgorithm,
{
    proof {
        reveal_strlit("AES");
        reveal_strlit("RSA");
        assert("AES"@ != "RSA"@) by {
            assert("AES"@[0] == 'A');
            assert("RSA"@[0] == 'R');
        }
    }
    if crate::request::str_eq(algorithm, "AES") {
        let mut key: Vec<u8> = Vec::new();
        let mut i: usize = 0;
        #[verifier::loop_isolation(false)]
        while i < KEY_BYTES
            invariant
                i <= KEY_BYTES,
                key@.len() == i,
            decreases KEY_BYTES - i,
        {
            let num = match generate_random_number(0, 255) {
                Ok(v) => v,
                Err(CollectError::RandomSource { detail }) => {
                    return Err(CryptoError::RandomSourceFailed { detail });
                },
                Err(_) => {
                    return Err(CryptoError::RandomSourceFailed { detail: String::new() });
                },
            };
            key.push(num as u8);
            i = i + 1;
        }
        Ok(key_from_bytes(key.as_slice()))
    } else if crate::request::str_eq(algorithm, "RSA") {
        Err(CryptoError::KeyGenNotImplemented)
    } else {
        Err(CryptoError::UnsupportedAlgorithm)
    }
}

/// What `crypt` produces when it encrypts `msg` under `key`: the hex
/// expansion of the sealed bytes.
pub open spec fn spec_encrypted(key: Seq<char>, msg: Seq<char>) -> Seq<char> {
    hex_chars_of(aes_seal(hex_decoded(encode_utf8(key)), zero_nonce(), encode_utf8(msg)))
}

/// Encrypts or decrypts `msg` under a 64-hex-character key with
/// AES-256-GCM and the service's fixed all-zero nonce.  Encryption
/// returns hex ciphertext; decryption takes hex ciphertext, verifies its
/// authentication tag and returns the UTF-8 plaintext.
pub fn crypt(algorithm: &str, key: &str, msg: &str, enc: bool) -> (r: Result<String, CryptoError>)
    ensures
        algorithm@ == "AES"@ ==> ({
            let kb = hex_decoded(encode_utf8(key@));
            let mb = encode_utf8(msg@);
            &&& (encode_utf8(key@).len() != KEY_HEX_LEN ==> r is Err && r->Err_0
                is InvalidKeyLength)
            &&& (encode_utf8(key@).len() == KEY_HEX_LEN && !valid_hex_bytes(encode_utf8(key@))
                ==> r is Err && r->Err_0 is HexDecodeFailed)
            &&& (key_usable(key@) && enc ==> ({
                &&& (mb.len() <= MAX_PLAINTEXT_BYTES ==> ({
                    &&& r is Ok
                    &&& r->Ok_0@ == spec_encrypted(key@, msg@)
                    &&& r->Ok_0@.len() == 2 * (mb.len() + TAG_BYTES)
                    &&& valid_hex_bytes(encode_utf8(r->Ok_0@))
                    &&& aes_open(kb, zero_nonce(), hex_decoded(encode_utf8(r->Ok_0@))) == Some(mb)
                }))
                &&& (mb.len() > MAX_PLAINTEXT_BYTES ==> r is Err && r->Err_0 is EncryptionFailed)
            }))
            &&& (key_usable(key@) && !enc ==> ({
                &&& (!valid_hex_bytes(encode_utf8(msg@)) ==> r is Err && r->Err_0
                    is HexDecodeFailed)
                &&& (valid_hex_bytes(encode_utf8(msg@)) ==> ({
                    let opened = aes_open(kb, zero_nonce(), hex_decoded(encode_utf8(msg@)));
                    &&& (opened is None ==> r is Err && r->Err_0 is DecryptionFailed)
                    &&& (opened is Some && valid_utf8(opened->Some_0) ==> r is Ok && r->Ok_0@
                        == decode_utf8(opened->Some_0))
                    &&& (opened is Some && !valid_utf8(opened->Some_0) ==> r is Err && r->Err_0
                        is Utf8DecodeFailed)
                }))
            }))
        }),
        algorithm@ == "RSA"@ ==> r is Err && r->Err_0 is CipherNotImplemented,
        algorithm@ != "AES"@ && algorithm@ != "RSA"@ ==> r is Err && r->Err_0
            is UnsupportedAlgorithm,
{
    proof {
        reveal_strlit("AES");
        reveal_strlit("RSA");
        assert("AES"@ != "RSA"@) by {
            assert("AES"@[0] == 'A');
            assert("RSA"@[0] == 'R');
        }
    }
    if crate::request::str_eq(algorithm, "AES") {
        if key.as_bytes().len() != KEY_HEX_LEN {
            return Err(CryptoError::InvalidKeyLength);
        }
        let key_bytes = match hex_decode(key) {
            Ok(v) => v,
            Err(detail) => {
                return Err(CryptoError::HexDecodeFailed { detail });
            },
        };
        proof {
            assert(encode_utf8(key@).len() % 2 == 0);
            assert(key_bytes@.len() == KEY_BYTES);
        }
        let nonce = make_zero_nonce();
        if enc {
            let msg_bytes = msg.as_bytes_vec();
            match aes256_gcm_encrypt(
                key_bytes.as_slice(),
                nonce.as_slice(),
                msg_bytes.as_slice(),
            ) {
                Ok(ct) => {
                    let out = hex_encode(ct.as_slice());
                    proof {
                        lemma_hex_chars_props(ct@);
                        lemma_hex_round_trip(ct@);
                    }
                    Ok(out)
                },
                Err(detail) => Err(CryptoError::EncryptionFailed { detail }),
            }
        } else {
            let ct = match hex_decode(msg) {
                Ok(v) => v,
                Err(detail) => {
                    return Err(CryptoError::HexDecodeFailed { detail });
                },
            };
            match aes256_gcm_decrypt(key_bytes.as_slice(), nonce.as_slice(), ct.as_slice()) {
                Ok(pt) => {
                    match string_from_utf8(pt) {
                        Ok(s) => Ok(s),
                        Err(detail) => Err(CryptoError::Utf8DecodeFailed { detail }),
                    }
                },
                Err(detail) => Err(CryptoError::DecryptionFailed { detail }),
            }
        }
    } else if crate::request::str_eq(algorithm, "RSA") {
        Err(CryptoError::CipherNotImplemented)
    } else {
        Err(CryptoError::UnsupportedAlgorithm)
    }
}

/// Encrypting and then decrypting under the same key recovers the
/// message exactly: for every usable key and every message within the
/// cipher's length bound, the round trip returns the original message.
pub fn crypt_round_trip(key: &str, msg: &str) -> (r: Result<String, CryptoError>)
    ensures
        key_usable(key@) && encode_utf8(msg@).len() <= MAX_PLAINTEXT_BYTES ==> r is Ok && r->Ok_0@
            == msg@,
{
    let ct = match crypt("AES", key, msg, true) {
        Ok(c) => c,
        Err(e) => {
            return Err(e);
        },
    };
    proof {
        vstd::utf8::encode_utf8_valid_utf8(msg@);
        vstd::utf8::encode_utf8_decode_utf8(msg@);
    }
    let out = match crypt("AES", key, ct.as_str(), false) {
        Ok(s) => s,
        Err(e) => {
            return Err(e);
        },
    };
    Ok(out)
}

} // verus!
