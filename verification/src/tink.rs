//! The calls that this crate makes into the Tink crates, each with what is
//! taken on trust about it.
//!
//! None of the functions in this module is verified: their bodies hold the
//! outside calls and nothing else, and their contracts say what the Tink
//! sources show of them.

use vstd::prelude::*;

verus! {

#[verifier::external_type_specification]
#[verifier::external_body]
pub struct ExTinkError(tink_core::TinkError);

/// `tink_core::TinkError::new` builds an error from a message.  Nothing is
/// claimed of the error it returns.
pub assume_specification[ tink_core::TinkError::new ](msg: &str) -> (e: tink_core::TinkError)
;

/// Length of an XChaCha20-Poly1305 key.
pub const X_CHA_CHA20_KEY_SIZE: usize = 32;

/// What XChaCha20-Poly1305 adds to a plaintext: a 24-byte nonce in front and a
/// 16-byte tag behind.
pub const X_CHA_CHA20_POLY1305_OVERHEAD: usize = 40;

/// A plaintext length up to which XChaCha20-Poly1305 never refuses a
/// plaintext, whatever the width of the machine's addresses.
pub const X_CHA_CHA20_POLY1305_MAX_PLAINTEXT: usize = 0x7fff_ffd7;

/// The largest output that HKDF with SHA-256 gives: 255 blocks of 32 bytes.
pub const HKDF_SHA256_MAX_OUTPUT: usize = 8160;

/// The first `len` bytes of HKDF-SHA-256 over input key material `key` with
/// the given `salt` and `info`, as `tink_prf::subtle::HkdfPrf` computes them;
/// `None` where it fails.
pub uninterp spec fn hkdf_sha256(key: Seq<u8>, salt: Seq<u8>, info: Seq<u8>, len: usize) -> Option<
    Seq<u8>,
>;

/// What `tink_aead::subtle::XChaCha20Poly1305` with key `key` decrypts
/// `ciphertext` to under associated data `ad`; `None` where it rejects the
/// key, the ciphertext or the associated data.
pub uninterp spec fn xchacha20poly1305_opened(
    key: Seq<u8>,
    ciphertext: Seq<u8>,
    ad: Seq<u8>,
) -> Option<Seq<u8>>;

/// `HkdfPrf::new` with SHA-256, then `compute_prf`, for an output of at most
/// 255 hash blocks.  The expansion succeeds, and the output has the length
/// asked for.
#[verifier::external_body]
pub(crate) fn hkdf_sha256_expand(key: &[u8], salt: &[u8], info: &[u8], out_len: usize) -> (r:
    Result<Vec<u8>, tink_core::TinkError>)
    requires
        out_len <= HKDF_SHA256_MAX_OUTPUT,
    ensures
        match r {
            Ok(okm) => hkdf_sha256(key@, salt@, info@, out_len) == Some(okm@) && okm@.len()
                == out_len,
            Err(_) => hkdf_sha256(key@, salt@, info@, out_len) is None,
        },
        r is Ok,
{
    let prf = tink_prf::subtle::HkdfPrf::new(tink_proto::HashType::Sha256, key, salt)?;
    tink_core::Prf::compute_prf(&prf, info, out_len)
}

/// `XChaCha20Poly1305::new`, then `encrypt`.  A key that is not 32 bytes long
/// is refused; with a key of 32 bytes every plaintext up to
/// [`X_CHA_CHA20_POLY1305_MAX_PLAINTEXT`] bytes is encrypted.  The ciphertext
/// is a fresh nonce, the encrypted plaintext and the tag, so it is 40 bytes
/// longer than the plaintext, and decryption under the same key and
/// associated data gives the plaintext back.
#[verifier::external_body]
pub(crate) fn xchacha20poly1305_encrypt(key: &[u8], plaintext: &[u8], ad: &[u8]) -> (r: Result<
    Vec<u8>,
    tink_core::TinkError,
>)
    ensures
        key@.len() != X_CHA_CHA20_KEY_SIZE ==> r is Err,
        key@.len() == X_CHA_CHA20_KEY_SIZE && plaintext@.len()
            <= X_CHA_CHA20_POLY1305_MAX_PLAINTEXT ==> r is Ok,
        r matches Ok(c) ==> c@.len() == plaintext@.len() + X_CHA_CHA20_POLY1305_OVERHEAD
            && xchacha20poly1305_opened(key@, c@, ad@) == Some(plaintext@),
{
    let cipher = tink_aead::subtle::XChaCha20Poly1305::new(key)?;
    tink_core::Aead::encrypt(&cipher, plaintext, ad)
}

/// `XChaCha20Poly1305::new`, then `decrypt`.  A key that is not 32 bytes long
/// and a ciphertext shorter than nonce and tag are refused.
#[verifier::external_body]
pub(crate) fn xchacha20poly1305_decrypt(key: &[u8], ciphertext: &[u8], ad: &[u8]) -> (r: Result<
    Vec<u8>,
    tink_core::TinkError,
>)
    ensures
        match r {
            Ok(p) => xchacha20poly1305_opened(key@, ciphertext@, ad@) == Some(p@),
            Err(_) => xchacha20poly1305_opened(key@, ciphertext@, ad@) is None,
        },
        key@.len() != X_CHA_CHA20_KEY_SIZE ==> r is Err,
        ciphertext@.len() < X_CHA_CHA20_POLY1305_OVERHEAD ==> r is Err,
{
    let cipher = tink_aead::subtle::XChaCha20Poly1305::new(key)?;
    tink_core::Aead::decrypt(&cipher, ciphertext, ad)
}

#[verifier::external_type_specification]
#[verifier::external_body]
pub struct ExHandle(tink_core::keyset::Handle);

#[verifier::external_type_specification]
#[verifier::external_body]
pub struct ExPrimitive(tink_core::Primitive);

#[verifier::external_type_specification]
pub struct ExKeyTemplate(tink_proto::KeyTemplate);

/// The type of an AES-SIV key, as Tink names it.
pub const AES_SIV_KEY_TYPE: &'static str = "type.googleapis.com/google.crypto.tink.AesSivKey";

/// The type of an XChaCha20-Poly1305 key, as Tink names it.
pub const X_CHA_CHA20_POLY1305_KEY_TYPE: &'static str =
    "type.googleapis.com/google.crypto.tink.XChaCha20Poly1305Key";

/// The type of an envelope key, as Tink names it.
pub const KMS_ENVELOPE_KEY_TYPE: &'static str =
    "type.googleapis.com/google.crypto.tink.KmsEnvelopeAeadKey";

/// The keys in `keyset`, in their order, each by the name of its type.
pub uninterp spec fn keyset_key_types(keyset: tink_core::keyset::Handle) -> Seq<Seq<char>>;

/// The key reference in the first key of `keyset`, read as an envelope key:
/// the URI of the key under which that key wraps its data keys.  `None` where
/// the keyset holds a secret or its first key holds no such reference.
pub uninterp spec fn keyset_key_uri(keyset: tink_core::keyset::Handle) -> Option<Seq<char>>;

/// The keyset that `contents` hold in Tink's binary format under the
/// pass-through cipher; `None` where they hold none.
pub uninterp spec fn keyset_in_clear(contents: Seq<u8>) -> Option<tink_core::keyset::Handle>;

/// The deterministic cipher that `tink_daead::new` builds from `keyset`.
pub uninterp spec fn daead_of(keyset: tink_core::keyset::Handle) -> tink_core::Primitive;

/// The cipher that `tink_aead::new` builds from `keyset`, a keyset whose keys
/// are all computed with in the process.
pub uninterp spec fn aead_of(keyset: tink_core::keyset::Handle) -> tink_core::Primitive;

/// Whether `cipher` computes in the process alone: it asks no key provider
/// and no registry, so what it makes of given bytes never changes.
pub uninterp spec fn computes_locally(cipher: tink_core::Primitive) -> bool;

/// What the deterministic cipher `cipher` encrypts `plaintext` to under
/// associated data `ad`; `None` where it fails or is no deterministic cipher.
pub uninterp spec fn daead_sealed(cipher: tink_core::Primitive, plaintext: Seq<u8>, ad: Seq<u8>) -> Option<
    Seq<u8>,
>;

/// What the cipher `cipher`, one that computes in the process alone,
/// decrypts `ciphertext` to under associated data `ad`; `None` where it
/// rejects the ciphertext.
pub uninterp spec fn aead_opened(cipher: tink_core::Primitive, ciphertext: Seq<u8>, ad: Seq<u8>) -> Option<
    Seq<u8>,
>;

/// Whether all keys of the given types are computed with in the process:
/// they are XChaCha20-Poly1305 keys.
pub open spec fn all_computed_locally(types: Seq<Seq<char>>) -> bool {
    forall|i: int| 0 <= i < types.len() ==> #[trigger] types[i] == X_CHA_CHA20_POLY1305_KEY_TYPE@
}

/// `tink_daead::aes_siv_key_template`: the template of an AES-SIV key.
pub assume_specification[ tink_daead::aes_siv_key_template ]() -> (template:
    tink_proto::KeyTemplate)
    ensures
        template.type_url@ == AES_SIV_KEY_TYPE@,
;

/// `tink_aead::x_cha_cha20_poly1305_key_template`: the template of an
/// XChaCha20-Poly1305 key.
pub assume_specification[ tink_aead::x_cha_cha20_poly1305_key_template ]() -> (template:
    tink_proto::KeyTemplate)
    ensures
        template.type_url@ == X_CHA_CHA20_POLY1305_KEY_TYPE@,
;

/// `tink_core::keyset::Handle::new`: a keyset with one fresh key made after
/// the template, so a key of the type that the template names.  It fails
/// where no key manager is registered for the template.
pub assume_specification[ tink_core::keyset::Handle::new ](kt: &tink_proto::KeyTemplate) -> (r:
    Result<tink_core::keyset::Handle, tink_core::TinkError>)
    ensures
        r matches Ok(keyset) ==> keyset_key_types(keyset) == seq![kt.type_url@],
;

/// `Handle::new` on `tink_aead::kms_envelope_aead_key_template` for
/// `key_uri`, with XChaCha20-Poly1305 data keys: a keyset with one envelope
/// key, which holds the template's key reference.
#[verifier::external_body]
pub(crate) fn new_envelope_keyset(key_uri: &str) -> (r: Result<
    tink_core::keyset::Handle,
    tink_core::TinkError,
>)
    ensures
        r matches Ok(keyset) ==> keyset_key_types(keyset) == seq![KMS_ENVELOPE_KEY_TYPE@]
            && keyset_key_uri(keyset) == Some(key_uri@),
{
    tink_core::keyset::Handle::new(
        &tink_aead::kms_envelope_aead_key_template(
            key_uri,
            tink_aead::x_cha_cha20_poly1305_key_template(),
        ),
    )
}

/// `Handle::keyset_info`: the types of the keys in the keyset, in their
/// order.
#[verifier::external_body]
pub(crate) fn key_types(keyset: &tink_core::keyset::Handle) -> (types: Vec<String>)
    ensures
        types@.len() == keyset_key_types(*keyset).len(),
        forall|i: int|
            0 <= i < types@.len() ==> (#[trigger] types@[i])@ == keyset_key_types(*keyset)[i],
{
    keyset.keyset_info().key_info.into_iter().map(|key| key.type_url).collect()
}

/// `Handle::write_with_no_secrets` into memory, then the key reference in
/// the first key, read as a `KmsEnvelopeAeadKey`.
#[verifier::external_body]
pub(crate) fn key_uri(keyset: &tink_core::keyset::Handle) -> (uri: Option<String>)
    ensures
        match uri {
            Some(text) => keyset_key_uri(*keyset) == Some(text@),
            None => keyset_key_uri(*keyset) is None,
        },
{
    let mut memory = tink_core::keyset::MemReaderWriter::default();
    keyset.write_with_no_secrets(&mut memory).ok()?;
    let key = memory.keyset?.key.into_iter().next()?;
    let value = key.key_data?.value;
    let envelope: tink_proto::KmsEnvelopeAeadKey = tink_proto::prost::Message::decode(
        &value[..],
    ).ok()?;
    Some(envelope.params?.kek_uri)
}

/// `tink_core::registry::get_kms_client`: whether a client is registered
/// that supports `key_uri`.  The answer depends on what the process has
/// registered so far.
#[verifier::external_body]
pub(crate) fn kms_client_registered(key_uri: &str) -> (registered: bool) {
    tink_core::registry::get_kms_client(key_uri).is_ok()
}

/// `tink_aead::new`: the cipher of a keyset.  It fails where the keyset holds
/// anything but cipher keys, or a key reference that no registered client
/// resolves.  Where all keys of the keyset are computed with in the process,
/// every cipher built from it is the same cipher and computes in the process
/// alone.
#[verifier::external_body]
pub(crate) fn aead_primitive(keyset: &tink_core::keyset::Handle) -> (r: Result<
    tink_core::Primitive,
    tink_core::TinkError,
>)
    ensures
        r matches Ok(cipher) ==> (all_computed_locally(keyset_key_types(*keyset))
            ==> computes_locally(cipher) && cipher == aead_of(*keyset)),
{
    Ok(tink_core::Primitive::Aead(tink_aead::new(keyset)?))
}

/// `tink_daead::new`: the deterministic cipher of a keyset.  It fails where
/// the keyset holds anything but deterministic cipher keys.  Every cipher
/// built from one keyset is the same cipher.
#[verifier::external_body]
pub(crate) fn daead_primitive(keyset: &tink_core::keyset::Handle) -> (r: Result<
    tink_core::Primitive,
    tink_core::TinkError,
>)
    ensures
        r matches Ok(cipher) ==> cipher == daead_of(*keyset),
{
    Ok(tink_core::Primitive::DeterministicAead(tink_daead::new(keyset)?))
}

/// `Handle::write` to a byte vector in binary format, wrapped under
/// `master_key`.  Nothing is claimed of the bytes: a master key may rest on
/// a key provider.
#[verifier::external_body]
pub(crate) fn write_keyset(keyset: &tink_core::keyset::Handle, master_key: &tink_core::Primitive) -> (r:
    Result<Vec<u8>, tink_core::TinkError>) {
    let mut bytes: Vec<u8> = Vec::new();
    match master_key {
        tink_core::Primitive::Aead(cipher) => {
            let mut writer = tink_core::keyset::BinaryWriter::new(&mut bytes);
            keyset.write(&mut writer, cipher.box_clone())?;
        },
        _ => return Err(tink_core::TinkError::new("not an AEAD primitive")),
    }
    Ok(bytes)
}

/// `Handle::read` from bytes in binary format, unwrapped under `master_key`.
/// Nothing is claimed of the keyset: a master key may rest on a key
/// provider.
#[verifier::external_body]
pub(crate) fn read_keyset(bytes: &[u8], master_key: &tink_core::Primitive) -> (r: Result<
    tink_core::keyset::Handle,
    tink_core::TinkError,
>) {
    match master_key {
        tink_core::Primitive::Aead(cipher) => {
            let mut reader = tink_core::keyset::BinaryReader::new(bytes);
            tink_core::keyset::Handle::read(&mut reader, cipher.box_clone())
        },
        _ => Err(tink_core::TinkError::new("not an AEAD primitive")),
    }
}

/// `Handle::write` to a byte vector in binary format under the pass-through
/// cipher.  What is written can be read: the contents hold the keyset.
#[verifier::external_body]
pub(crate) fn write_keyset_in_clear(keyset: &tink_core::keyset::Handle) -> (r: Result<
    Vec<u8>,
    tink_core::TinkError,
>)
    ensures
        r matches Ok(contents) ==> keyset_in_clear(contents@) == Some(*keyset),
{
    let mut contents: Vec<u8> = Vec::new();
    let mut writer = tink_core::keyset::BinaryWriter::new(&mut contents);
    keyset.write(&mut writer, Box::new(crate::device_kms::empty_aead::EmptyAead::new()))?;
    Ok(contents)
}

/// `Handle::read` from bytes in binary format under the pass-through cipher.
#[verifier::external_body]
pub(crate) fn read_keyset_in_clear(contents: &[u8]) -> (r: Result<
    tink_core::keyset::Handle,
    tink_core::TinkError,
>)
    ensures
        match r {
            Ok(keyset) => keyset_in_clear(contents@) == Some(keyset),
            Err(_) => keyset_in_clear(contents@) is None,
        },
{
    let mut reader = tink_core::keyset::BinaryReader::new(contents);
    tink_core::keyset::Handle::read(
        &mut reader,
        Box::new(crate::device_kms::empty_aead::EmptyAead::new()),
    )
}

/// `Aead::encrypt`.  What a cipher that computes in the process alone
/// writes, it also reads: decryption of the result under the same associated
/// data gives the plaintext back.
#[verifier::external_body]
pub(crate) fn aead_encrypt(cipher: &tink_core::Primitive, plaintext: &[u8], ad: &[u8]) -> (r: Result<
    Vec<u8>,
    tink_core::TinkError,
>)
    ensures
        r matches Ok(c) ==> (computes_locally(*cipher) ==> aead_opened(*cipher, c@, ad@) == Some(
            plaintext@,
        )),
{
    match cipher {
        tink_core::Primitive::Aead(cipher) => cipher.encrypt(plaintext, ad),
        _ => Err(tink_core::TinkError::new("not an AEAD primitive")),
    }
}

/// `Aead::decrypt`.  For a cipher that computes in the process alone the
/// result is a matter of the ciphertext and the associated data only.
#[verifier::external_body]
pub(crate) fn aead_decrypt(cipher: &tink_core::Primitive, ciphertext: &[u8], ad: &[u8]) -> (r: Result<
    Vec<u8>,
    tink_core::TinkError,
>)
    ensures
        match r {
            Ok(p) => computes_locally(*cipher) ==> aead_opened(*cipher, ciphertext@, ad@) == Some(
                p@,
            ),
            Err(_) => computes_locally(*cipher) ==> aead_opened(*cipher, ciphertext@, ad@) is None,
        },
{
    match cipher {
        tink_core::Primitive::Aead(cipher) => cipher.decrypt(ciphertext, ad),
        _ => Err(tink_core::TinkError::new("not an AEAD primitive")),
    }
}

/// `DeterministicAead::encrypt_deterministically`.  The same input always
/// gives the same ciphertext, and since the ciphertext can be decrypted, no
/// other plaintext gives it under the same associated data.
#[verifier::external_body]
pub(crate) fn daead_encrypt(cipher: &tink_core::Primitive, plaintext: &[u8], ad: &[u8]) -> (r: Result<
    Vec<u8>,
    tink_core::TinkError,
>)
    ensures
        match r {
            Ok(c) => daead_sealed(*cipher, plaintext@, ad@) == Some(c@),
            Err(_) => daead_sealed(*cipher, plaintext@, ad@) is None,
        },
        r matches Ok(c) ==> forall|other: Seq<u8>| #[trigger]
            daead_sealed(*cipher, other, ad@) == Some(c@) ==> other == plaintext@,
{
    match cipher {
        tink_core::Primitive::DeterministicAead(cipher) => cipher.encrypt_deterministically(
            plaintext,
            ad,
        ),
        _ => Err(tink_core::TinkError::new("not a deterministic AEAD primitive")),
    }
}

} // verus!
