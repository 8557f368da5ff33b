//! Authenticated encryption of the agent's configuration file and of the
//! messages exchanged with the teacher server.
//!
//! A sealed frame is the 12-byte nonce followed by the AES-256-GCM
//! ciphertext, whose last 16 bytes are the authentication tag.  The
//! configuration key is the SHA-256 digest of a password; a session key is
//! 32 bytes written in hexadecimal.
use vstd::prelude::*;
use vstd::utf8::{encode_utf8, decode_utf8, valid_utf8};
use vstd::string::StringExecFns;
use aes_gcm::aead::{Aead, KeyInit};
use aes_gcm::{Aes256Gcm, Key, Nonce};
use sha2::{Digest, Sha256};
use rand::RngCore;
use crate::text::concat2;

verus! {

broadcast use vstd::utf8::group_utf8_lib;

/// The SHA-256 digest of a byte string.
pub uninterp spec fn sha256(data: Seq<u8>) -> Seq<u8>;

/// The AES-256-GCM ciphertext (tag appended) of `plaintext` under `key` and `nonce`.
pub uninterp spec fn aes256_gcm_seal(key: Seq<u8>, nonce: Seq<u8>, plaintext: Seq<u8>) -> Seq<u8>;

/// The plaintext that AES-256-GCM recovers from `ciphertext` under `key` and
/// `nonce`, or `None` when the tag does not authenticate it.
pub uninterp spec fn aes256_gcm_open(key: Seq<u8>, nonce: Seq<u8>, ciphertext: Seq<u8>) -> Option<
    Seq<u8>,
>;

/// Length of the nonce that starts every sealed frame.
pub const NONCE_LEN: usize = 12;

/// Length of the authentication tag at the end of every ciphertext.
pub const TAG_LEN: usize = 16;

/// The longest plaintext AES-GCM accepts, in bytes (2^36).
pub const MAX_PLAINTEXT_LEN: u64 = 68719476736;

/// The key that protects the configuration file: the digest of the password's UTF-8 bytes.
pub open spec fn config_key(password: Seq<char>) -> Seq<u8> {
    sha256(encode_utf8(password))
}

/// A sealed frame: the nonce followed by the ciphertext.
pub open spec fn sealed_frame(key: Seq<u8>, nonce: Seq<u8>, plaintext: Seq<u8>) -> Seq<u8> {
    nonce + aes256_gcm_seal(key, nonce, plaintext)
}

/// The text a sealed frame carries: `None` when the frame is shorter than a
/// nonce, fails authentication, or does not hold UTF-8.
pub open spec fn opened_text(key: Seq<u8>, frame: Seq<u8>) -> Option<Seq<char>> {
    if frame.len() < NONCE_LEN {
        None
    } else {
        match aes256_gcm_open(key, frame.take(NONCE_LEN as int), frame.skip(NONCE_LEN as int)) {
            Some(p) => if valid_utf8(p) {
                Some(decode_utf8(p))
            } else {
                None
            },
            None => None,
        }
    }
}

/// Whether a message starts with `prefix` and ends with `suffix`.
pub open spec fn framed_message(msg: Seq<char>, prefix: Seq<char>, suffix: Seq<char>) -> bool {
    exists|detail: Seq<char>| msg == prefix + detail + suffix
}

/// The value of an ASCII hexadecimal digit.
pub open spec fn hex_digit_value(b: u8) -> int {
    if 48 <= b <= 57 {
        b - 48
    } else if 65 <= b <= 70 {
        b - 55
    } else {
        b - 87
    }
}

/// Whether a byte is an ASCII hexadecimal digit, in either case.
pub open spec fn is_hex_digit(b: u8) -> bool {
    (48 <= b <= 57) || (65 <= b <= 70) || (97 <= b <= 102)
}

/// Whether a byte string is hexadecimal: an even number of hex digits.
pub open spec fn is_hex(text: Seq<u8>) -> bool {
    text.len() % 2 == 0 && forall|i: int| 0 <= i < text.len() ==> is_hex_digit(#[trigger] text[i])
}

/// The bytes a hexadecimal byte string denotes, two digits per byte, high digit first.
pub open spec fn hex_bytes(text: Seq<u8>) -> Seq<u8> {
    Seq::new(
        text.len() / 2,
        |i: int| (hex_digit_value(text[2 * i]) * 16 + hex_digit_value(text[2 * i + 1])) as u8,
    )
}

/// The session key a hexadecimal string denotes, if it is hexadecimal.
pub open spec fn session_key_bytes(session_key: Seq<char>) -> Option<Seq<u8>> {
    if is_hex(encode_utf8(session_key)) {
        Some(hex_bytes(encode_utf8(session_key)))
    } else {
        None
    }
}

/// Whether a session key string denotes a 32-byte key.
pub open spec fn valid_session_key(session_key: Seq<char>) -> bool {
    session_key_bytes(session_key) matches Some(k) && k.len() == 32
}

/// SHA-256 (`sha2::Sha256`): the digest of `data`, named by `sha256`.
#[verifier::external_body]
fn sha256_digest(data: &[u8]) -> (digest: [u8; 32])
    ensures
        digest@ == sha256(data@),
{
    let mut hasher = Sha256::new();
    hasher.update(data);
    hasher.finalize().into()
}

/// AES-256-GCM encryption (`Aead::encrypt` of `aes_gcm::Aes256Gcm`): it fails
/// exactly when the plaintext is longer than 2^36 bytes; otherwise the
/// ciphertext is the one named by `aes256_gcm_seal`, 16 bytes longer than the
/// plaintext, and decryption under the same key and nonce gives the plaintext
/// back.  The error text is the crate's, and is not stated.
#[verifier::external_body]
fn aes_gcm_encrypt(key: &[u8], nonce: &[u8], plaintext: &[u8]) -> (r: Result<Vec<u8>, String>)
    requires
        key@.len() == 32,
        nonce@.len() == NONCE_LEN,
    ensures
        r is Ok <==> plaintext@.len() <= MAX_PLAINTEXT_LEN,
        r matches Ok(c) ==> {
            &&& c@ == aes256_gcm_seal(key@, nonce@, plaintext@)
            &&& c@.len() == plaintext@.len() + TAG_LEN
            &&& aes256_gcm_open(key@, nonce@, c@) == Some(plaintext@)
        },
{
    let cipher = Aes256Gcm::new(Key::<Aes256Gcm>::from_slice(key));
    cipher.encrypt(Nonce::from_slice(nonce), plaintext).map_err(|e| e.to_string())
}

/// AES-256-GCM decryption (`Aead::decrypt` of `aes_gcm::Aes256Gcm`): it
/// succeeds exactly when `aes256_gcm_open` gives a plaintext, and returns it.
/// The error text is the crate's, and is not stated.
#[verifier::external_body]
fn aes_gcm_decrypt(key: &[u8], nonce: &[u8], ciphertext: &[u8]) -> (r: Result<Vec<u8>, String>)
    requires
        key@.len() == 32,
        nonce@.len() == NONCE_LEN,
    ensures
        r is Ok <==> aes256_gcm_open(key@, nonce@, ciphertext@) is Some,
        r matches Ok(p) ==> aes256_gcm_open(key@, nonce@, ciphertext@) == Some(p@),
{
    let cipher = Aes256Gcm::new(Key::<Aes256Gcm>::from_slice(key));
    cipher.decrypt(Nonce::from_slice(nonce), ciphertext).map_err(|e| e.to_string())
}

/// Twelve bytes from the operating system's random source
/// (`RngCore::fill_bytes` of `rand::rngs::OsRng`).  Nothing is stated of
/// them; the call panics if the operating system offers no randomness.
#[verifier::external_body]
fn random_nonce() -> (nonce: [u8; 12]) {
    let mut nonce = [0u8; 12];
    rand::rngs::OsRng.fill_bytes(&mut nonce);
    nonce
}

/// Hexadecimal decoding (`hex::decode`): it succeeds exactly on an even
/// number of hex digits of either case, giving one byte per digit pair.
/// The error text is the crate's, and is not stated.
#[verifier::external_body]
fn hex_decode(text: &[u8]) -> (r: Result<Vec<u8>, String>)
    ensures
        r is Ok <==> is_hex(text@),
        r matches Ok(b) ==> b@ == hex_bytes(text@),
{
    hex::decode(text).map_err(|e| e.to_string())
}

/// UTF-8 decoding (`String::from_utf8`): it succeeds exactly on valid UTF-8
/// and gives the characters it encodes.  The error text is std's, and is not stated.
#[verifier::external_body]
fn string_from_utf8(bytes: Vec<u8>) -> (r: Result<String, String>)
    ensures
        r is Ok <==> valid_utf8(bytes@),
        r matches Ok(s) ==> s@ == decode_utf8(bytes@),
{
    String::from_utf8(bytes).map_err(|e| e.to_string())
}

/// `a` followed by `b`.
fn join_bytes(a: &[u8], b: Vec<u8>) -> (r: Vec<u8>)
    ensures
        r@ == a@ + b@,
{
    let mut r: Vec<u8> = Vec::new();
    let mut i: usize = 0;
    while i < a.len()
        invariant
            i <= a@.len(),
            r@ == a@.take(i as int),
        decreases a@.len() - i,
    {
        r.push(a[i]);
        assert(a@.take(i as int).push(a@[i as int]) =~= a@.take(i + 1));
        i += 1;
    }
    assert(a@.take(a@.len() as int) =~= a@);
    let mut b = b;
    r.append(&mut b);
    r
}

/// The bytes `data[from..to]`.
fn byte_range(data: &[u8], from: usize, to: usize) -> (r: Vec<u8>)
    requires
        from <= to <= data@.len(),
    ensures
        r@ == data@.subrange(from as int, to as int),
{
    let mut r: Vec<u8> = Vec::new();
    let mut i: usize = from;
    while i < to
        invariant
            from <= i <= to <= data@.len(),
            r@ == data@.subrange(from as int, i as int),
        decreases to - i,
    {
        r.push(data[i]);
        assert(data@.subrange(from as int, i as int).push(data@[i as int]) =~= data@.subrange(
            from as int,
            i + 1,
        ));
        i += 1;
    }
    r
}

/// The key that protects the configuration file: SHA-256 of the password.
pub fn derive_key(password: &str) -> (key: [u8; 32])
    ensures
        key@ == config_key(password@),
{
    sha256_digest(password.as_bytes())
}

/// Seals `plaintext` under `key` with the given nonce into a frame.
pub fn seal_with_nonce(key: &[u8], nonce: &[u8], plaintext: &[u8]) -> (r: Result<Vec<u8>, String>)
    requires
        key@.len() == 32,
        nonce@.len() == NONCE_LEN,
    ensures
        r is Ok <==> plaintext@.len() <= MAX_PLAINTEXT_LEN,
        r matches Ok(frame) ==> {
            &&& frame@ == sealed_frame(key@, nonce@, plaintext@)
            &&& frame@.len() == NONCE_LEN + plaintext@.len() + TAG_LEN
            &&& frame@.take(NONCE_LEN as int) == nonce@
            &&& aes256_gcm_open(key@, nonce@, frame@.skip(NONCE_LEN as int)) == Some(plaintext@)
        },
        r matches Err(e) ==> framed_message(e@, "encrypt: "@, ""@),
{
    match aes_gcm_encrypt(key, nonce, plaintext) {
        Ok(c) => {
            let frame = join_bytes(nonce, c);
            proof {
                assert(frame@.take(NONCE_LEN as int) =~= nonce@);
                assert(frame@.skip(NONCE_LEN as int) =~= c@);
            }
            Ok(frame)
        },
        Err(e) => {
            let msg = concat2("encrypt: ", e.as_str());
            proof {
                reveal_strlit("");
                assert(msg@ == "encrypt: "@ + e@ + ""@);
            }
            Err(msg)
        },
    }
}

/// Opens a frame sealed under `key` and reads its plaintext as UTF-8.
/// `decrypt_suffix` follows the crate's error text when authentication fails.
fn open_text(key: &[u8], data: &[u8], decrypt_suffix: &str) -> (r: Result<String, String>)
    requires
        key@.len() == 32,
        data@.len() >= NONCE_LEN,
    ensures
        r is Ok <==> opened_text(key@, data@) is Some,
        r matches Ok(s) ==> opened_text(key@, data@) == Some(s@),
        r matches Err(e) ==> {
            let opened = aes256_gcm_open(
                key@,
                data@.take(NONCE_LEN as int),
                data@.skip(NONCE_LEN as int),
            );
            &&& opened is None ==> framed_message(e@, "decrypt: "@, decrypt_suffix@)
            &&& opened is Some ==> framed_message(e@, "utf8: "@, ""@)
        },
{
    let nonce = byte_range(data, 0, NONCE_LEN);
    let ciphertext = byte_range(data, NONCE_LEN, data.len());
    proof {
        assert(nonce@ =~= data@.take(NONCE_LEN as int));
        assert(ciphertext@ =~= data@.skip(NONCE_LEN as int));
    }
    match aes_gcm_decrypt(key, nonce.as_slice(), ciphertext.as_slice()) {
        Ok(p) => match string_from_utf8(p) {
            Ok(s) => Ok(s),
            Err(e) => {
                let msg = concat2("utf8: ", e.as_str());
                proof {
                    reveal_strlit("");
                    assert(msg@ == "utf8: "@ + e@ + ""@);
                }
                Err(msg)
            },
        },
        Err(e) => {
            let head = concat2("decrypt: ", e.as_str());
            let msg = concat2(head.as_str(), decrypt_suffix);
            proof {
                assert(msg@ == "decrypt: "@ + e@ + decrypt_suffix@);
            }
            Err(msg)
        },
    }
}

/// Seals the configuration text under the password-derived key with the given nonce.
pub fn encrypt_config_with_nonce(json: &str, password: &str, nonce: &[u8; 12]) -> (r: Result<
    Vec<u8>,
    String,
>)
    ensures
        r is Ok <==> encode_utf8(json@).len() <= MAX_PLAINTEXT_LEN,
        r matches Ok(frame) ==> frame@ == sealed_frame(
            config_key(password@),
            nonce@,
            encode_utf8(json@),
        ),
        r matches Ok(frame) ==> opened_text(config_key(password@), frame@) == Some(json@),
        r matches Ok(frame) ==> frame@.len() == NONCE_LEN + encode_utf8(json@).len() + TAG_LEN,
        r matches Err(e) ==> framed_message(e@, "encrypt: "@, ""@),
{
    let key = derive_key(password);
    seal_with_nonce(key.as_slice(), nonce.as_slice(), json.as_bytes())
}

/// Seals the configuration text under the password-derived key with a fresh
/// random nonce; the frame opens with the same password to the same text.
pub fn encrypt_config(json: &str, password: &str) -> (r: Result<Vec<u8>, String>)
    ensures
        r is Ok <==> encode_utf8(json@).len() <= MAX_PLAINTEXT_LEN,
        r matches Ok(frame) ==> {
            &&& frame@.len() == NONCE_LEN + encode_utf8(json@).len() + TAG_LEN
            &&& frame@ == sealed_frame(
                config_key(password@),
                frame@.take(NONCE_LEN as int),
                encode_utf8(json@),
            )
            &&& opened_text(config_key(password@), frame@) == Some(json@)
        },
        r matches Err(e) ==> framed_message(e@, "encrypt: "@, ""@),
{
    let nonce = random_nonce();
    let r = encrypt_config_with_nonce(json, password, &nonce);
    proof {
        if r is Ok {
            assert(r->Ok_0@.take(NONCE_LEN as int) =~= nonce@);
        }
    }
    r
}

/// Opens an encrypted configuration file with the password.
pub fn decrypt_config(data: &[u8], password: &str) -> (r: Result<String, String>)
    ensures
        r is Ok <==> opened_text(config_key(password@), data@) is Some,
        r matches Ok(s) ==> opened_text(config_key(password@), data@) == Some(s@),
        data@.len() < NONCE_LEN ==> (r matches Err(e) && e@ == "encrypted data too short"@),
        data@.len() >= NONCE_LEN ==> (r matches Err(e) ==> {
            let opened = aes256_gcm_open(
                config_key(password@),
                data@.take(NONCE_LEN as int),
                data@.skip(NONCE_LEN as int),
            );
            &&& opened is None ==> framed_message(e@, "decrypt: "@, " - password may be wrong"@)
            &&& opened is Some ==> framed_message(e@, "utf8: "@, ""@)
        }),
{
    if data.len() < NONCE_LEN {
        return Err(String::from_str("encrypted data too short"));
    }
    let key = derive_key(password);
    open_text(key.as_slice(), data, " - password may be wrong")
}

/// The 32-byte key a hexadecimal session key string denotes.
fn session_key_from_hex(session_key: &str) -> (r: Result<Vec<u8>, String>)
    ensures
        r is Ok <==> valid_session_key(session_key@),
        r matches Ok(k) ==> session_key_bytes(session_key@) == Some(k@) && k@.len() == 32,
        r matches Err(e) ==> if session_key_bytes(session_key@) is None {
            framed_message(e@, "hex decode: "@, ""@)
        } else {
            e@ == "session_key must be 32 bytes"@
        },
{
    match hex_decode(session_key.as_bytes()) {
        Ok(k) => {
            if k.len() != 32 {
                Err(String::from_str("session_key must be 32 bytes"))
            } else {
                Ok(k)
            }
        },
        Err(e) => {
            let msg = concat2("hex decode: ", e.as_str());
            proof {
                reveal_strlit("");
                assert(msg@ == "hex decode: "@ + e@ + ""@);
            }
            Err(msg)
        },
    }
}

/// Seals a message under a hexadecimal session key with the given nonce.
pub fn encrypt_message_with_nonce(plaintext: &str, session_key: &str, nonce: &[u8; 12]) -> (r:
    Result<Vec<u8>, String>)
    ensures
        r is Ok <==> valid_session_key(session_key@) && encode_utf8(plaintext@).len()
            <= MAX_PLAINTEXT_LEN,
        r matches Ok(frame) ==> session_key_bytes(session_key@) matches Some(k) && frame@
            == sealed_frame(k, nonce@, encode_utf8(plaintext@)) && opened_text(k, frame@) == Some(
            plaintext@,
        ),
        r matches Ok(frame) ==> frame@.len() == NONCE_LEN + encode_utf8(plaintext@).len() + TAG_LEN,
        r matches Err(e) ==> if session_key_bytes(session_key@) is None {
            framed_message(e@, "hex decode: "@, ""@)
        } else if !valid_session_key(session_key@) {
            e@ == "session_key must be 32 bytes"@
        } else {
            framed_message(e@, "encrypt: "@, ""@)
        },
{
    let key = match session_key_from_hex(session_key) {
        Ok(k) => k,
        Err(e) => return Err(e),
    };
    seal_with_nonce(key.as_slice(), nonce.as_slice(), plaintext.as_bytes())
}

/// Seals a message under a hexadecimal session key with a fresh random
/// nonce; the frame opens with the same key to the same message.
pub fn encrypt_message(plaintext: &str, session_key: &str) -> (r: Result<Vec<u8>, String>)
    ensures
        r is Ok <==> valid_session_key(session_key@) && encode_utf8(plaintext@).len()
            <= MAX_PLAINTEXT_LEN,
        r matches Ok(frame) ==> session_key_bytes(session_key@) matches Some(k) && frame@.len()
            == NONCE_LEN + encode_utf8(plaintext@).len() + TAG_LEN && frame@ == sealed_frame(
            k,
            frame@.take(NONCE_LEN as int),
            encode_utf8(plaintext@),
        ) && opened_text(k, frame@) == Some(plaintext@),
        r matches Err(e) ==> if session_key_bytes(session_key@) is None {
            framed_message(e@, "hex decode: "@, ""@)
        } else if !valid_session_key(session_key@) {
            e@ == "session_key must be 32 bytes"@
        } else {
            framed_message(e@, "encrypt: "@, ""@)
        },
{
    let nonce = random_nonce();
    let r = encrypt_message_with_nonce(plaintext, session_key, &nonce);
    proof {
        if r is Ok {
            assert(r->Ok_0@.take(NONCE_LEN as int) =~= nonce@);
        }
    }
    r
}

/// Opens a message frame with a hexadecimal session key.
pub fn decrypt_message(data: &[u8], session_key: &str) -> (r: Result<String, String>)
    ensures
        r is Ok <==> valid_session_key(session_key@) && opened_text(
            session_key_bytes(session_key@)->0,
            data@,
        ) is Some,
        r matches Ok(s) ==> opened_text(session_key_bytes(session_key@)->0, data@) == Some(s@),
        data@.len() < NONCE_LEN ==> (r matches Err(e) && e@ == "encrypted data too short"@),
        data@.len() >= NONCE_LEN ==> (r matches Err(e) ==> if session_key_bytes(
            session_key@,
        ) is None {
            framed_message(e@, "hex decode: "@, ""@)
        } else if !valid_session_key(session_key@) {
            e@ == "session_key must be 32 bytes"@
        } else {
            let opened = aes256_gcm_open(
                session_key_bytes(session_key@)->0,
                data@.take(NONCE_LEN as int),
                data@.skip(NONCE_LEN as int),
            );
            &&& opened is None ==> framed_message(e@, "decrypt: "@, ""@)
            &&& opened is Some ==> framed_message(e@, "utf8: "@, ""@)
        }),
{
    if data.len() < NONCE_LEN {
        return Err(String::from_str("encrypted data too short"));
    }
    let key = match session_key_from_hex(session_key) {
        Ok(k) => k,
        Err(e) => return Err(e),
    };
    open_text(key.as_slice(), data, "")
}

} // verus!
